//! Properties of the `java.lang` natives that relate several calls.

use vstd::prelude::*;
use crate::heap::deref;
use crate::lang_builder::{builder_spec, AppendArg, BuilderMethod, resized};
use crate::lang_misc::{boolean_spec, BooleanMethod};
use crate::lang_number::{
    floor_div, floor_mod, integer_spec, long_spec, math_spec, IntegerMethod, LongMethod, MathMethod,
};
use crate::lang_string::{string_spec, StringMethod};
use crate::model::{Obj, Reference, Value};
use crate::native::{next_ref, NativeResult};
use crate::numfmt::{decimal, digit_char, radix_digits};
use crate::strings::{compare_chars, digit_value, digits_value, parse_integer, trimmed, trim_start, trim_end, is_white, lemma_trim_bounds, lemma_trim_end_bounds};

verus! {

broadcast use vstd::seq_lib::group_seq_properties;

/// A digit character reads back as its value.
pub proof fn lemma_digit_value(d: nat)
    requires
        d < 36,
    ensures
        digit_value(digit_char(d)) == d,
{
}

/// The digits of a number in a radix read back as the number.
pub proof fn lemma_digits_round_trip(n: nat, radix: nat)
    requires
        2 <= radix <= 36,
    ensures
        digits_value(radix_digits(n, radix), radix as int) == Some(n as int),
        radix_digits(n, radix).len() > 0,
        ('0' <= radix_digits(n, radix)[0] <= '9') || ('a' <= radix_digits(n, radix)[0] <= 'z'),
    decreases n,
{
    if n < radix {
        let s = radix_digits(n, radix);
        assert(n % 36 == n);
        assert(s =~= seq![digit_char(n)]);
        assert(s.drop_last() =~= Seq::<char>::empty());
        lemma_digit_value(n);
        assert(digits_value(s.drop_last(), radix as int) == Some(0int));
        assert(s.last() == digit_char(n));
        assert(digits_value(s, radix as int) == Some((0 * radix + n) as int));
    } else {
        vstd::arithmetic::div_mod::lemma_div_decreases(n as int, radix as int);
        lemma_digits_round_trip(n / radix, radix);
        let s = radix_digits(n, radix);
        let t = radix_digits(n / radix, radix);
        assert(s == t.push(digit_char(n % radix)));
        assert(s.drop_last() =~= t);
        lemma_digit_value(n % radix);
        vstd::arithmetic::div_mod::lemma_fundamental_div_mod(n as int, radix as int);
        vstd::arithmetic::div_mod::lemma_mod_bound(n as int, radix as int);
        assert(s.last() == digit_char(n % radix));
        let q = n / radix;
        let m = n % radix;
        assert(q * radix + m == n) by (nonlinear_arith)
            requires n == radix * q + m;
        assert(digits_value(s, radix as int) == Some((q * radix + m) as int));
        assert(s[0] == t[0]);
    }
}

/// Decimal text parses back to the number it was made from.
pub proof fn lemma_decimal_parses(i: int, lo: int, hi: int)
    requires
        lo <= i <= hi,
    ensures
        parse_integer(decimal(i), 10, lo, hi) == Some(i),
{
    if i < 0 {
        let d = radix_digits((-i) as nat, 10);
        lemma_digits_round_trip((-i) as nat, 10);
        let s = decimal(i);
        assert(s[0] == '-');
        assert(s.drop_first() =~= d);
    } else {
        lemma_digits_round_trip(i as nat, 10);
    }
}

/// `Integer.parseInt` of the string `Integer.toString(i)` returns gives
/// back `i`.
pub proof fn law_integer_text_round_trip(heap: Seq<Obj>, i: i32)
    requires
        heap.len() < usize::MAX,
    ensures
        integer_spec(heap, IntegerMethod::ToStr, seq![Value::Int(i)]) == NativeResult::Ok(
            (Some(Value::Reference(next_ref(heap))), heap.push(Obj::Str(decimal(i as int)))),
        ),
        integer_spec(
            heap.push(Obj::Str(decimal(i as int))),
            IntegerMethod::ParseInt,
            seq![Value::Reference(next_ref(heap))],
        ) == NativeResult::Ok((Some(Value::Int(i)), heap.push(Obj::Str(decimal(i as int))))),
{
    lemma_decimal_parses(i as int, i32::MIN as int, i32::MAX as int);
    let h1 = heap.push(Obj::Str(decimal(i as int)));
    assert(deref(h1, next_ref(heap)) == Some(Obj::Str(decimal(i as int))));
}

/// `Long.parseLong` of the string `Long.toString(v)` returns gives back `v`.
pub proof fn law_long_text_round_trip(heap: Seq<Obj>, v: i64)
    requires
        heap.len() < usize::MAX,
    ensures
        long_spec(heap, LongMethod::ToStr, seq![Value::Long(v)]) == NativeResult::Ok(
            (Some(Value::Reference(next_ref(heap))), heap.push(Obj::Str(decimal(v as int)))),
        ),
        long_spec(
            heap.push(Obj::Str(decimal(v as int))),
            LongMethod::ParseLong,
            seq![Value::Reference(next_ref(heap))],
        ) == NativeResult::Ok((Some(Value::Long(v)), heap.push(Obj::Str(decimal(v as int))))),
{
    lemma_decimal_parses(v as int, i64::MIN as int, i64::MAX as int);
    let h1 = heap.push(Obj::Str(decimal(v as int)));
    assert(deref(h1, next_ref(heap)) == Some(Obj::Str(decimal(v as int))));
}

/// `Integer.valueOf(v).intValue()` is `v`: the box holds the value it was
/// made with.
pub proof fn law_integer_box_round_trip(heap: Seq<Obj>, v: i32)
    requires
        heap.len() < usize::MAX,
    ensures
        integer_spec(heap, IntegerMethod::ValueOf, seq![Value::Int(v)]) matches Ok((Some(Value::Reference(r)), h1))
            && integer_spec(h1, IntegerMethod::IntValue, seq![Value::Reference(r)]) == NativeResult::Ok((Some(Value::Int(v)), h1)),
{
    let h1 = heap.push(crate::native::box_of("java/lang/Integer"@, Value::Int(v)));
    assert(deref(h1, next_ref(heap)) == Some(crate::native::box_of("java/lang/Integer"@, Value::Int(v))));
}

/// `Boolean.valueOf(b).booleanValue()` is `b`.
pub proof fn law_boolean_box_round_trip(heap: Seq<Obj>, b: i32)
    requires
        heap.len() < usize::MAX,
    ensures
        boolean_spec(heap, BooleanMethod::ValueOf, seq![Value::Int(b)]) matches Ok((Some(Value::Reference(r)), h1))
            && boolean_spec(h1, BooleanMethod::BooleanValue, seq![Value::Reference(r)]) == NativeResult::Ok((Some(Value::Int(b)), h1)),
{
    let h1 = heap.push(crate::native::box_of("java/lang/Boolean"@, Value::Int(b)));
    assert(deref(h1, next_ref(heap)) == Some(crate::native::box_of("java/lang/Boolean"@, Value::Int(b))));
}

/// `Math.floorDiv(x, y) * y + Math.floorMod(x, y) == x`, and the remainder
/// lies strictly between 0 and the divisor, or is 0.
pub proof fn law_floor_div_mod(x: int, y: int)
    requires
        y != 0,
    ensures
        floor_div(x, y) * y + floor_mod(x, y) == x,
        y > 0 ==> 0 <= floor_mod(x, y) < y,
        y < 0 ==> y < floor_mod(x, y) <= 0,
{
    if y > 0 {
        vstd::arithmetic::div_mod::lemma_fundamental_div_mod(x, y);
        vstd::arithmetic::div_mod::lemma_mod_bound(x, y);
    } else {
        vstd::arithmetic::div_mod::lemma_fundamental_div_mod(-x, -y);
        vstd::arithmetic::div_mod::lemma_mod_bound(-x, -y);
        assert(x - ((-x) / (-y)) * y == -((-x) % (-y))) by (nonlinear_arith)
            requires -x == (-y) * ((-x) / (-y)) + (-x) % (-y);
    }
}

/// The `int` natives `Math.floorDiv` and `Math.floorMod` on the same
/// operands return a quotient and a remainder that recombine to `x`.
pub proof fn law_math_floor_div_mod_long(heap: Seq<Obj>, x: i64, y: i64)
    requires
        y != 0,
        !(x == i64::MIN && y == -1),
    ensures
        math_spec(heap, MathMethod::FloorDivLong, seq![Value::Long(x), Value::Long(y)])
            == NativeResult::Ok((Some(Value::Long(floor_div(x as int, y as int) as i64)), heap)),
        math_spec(heap, MathMethod::FloorModLong, seq![Value::Long(x), Value::Long(y)])
            == NativeResult::Ok((Some(Value::Long(floor_mod(x as int, y as int) as i64)), heap)),
        floor_div(x as int, y as int) * y + floor_mod(x as int, y as int) == x,
{
    law_floor_div_mod(x as int, y as int);
}

/// `String.compareTo` is antisymmetric: swapping the operands negates it,
/// and a string compares equal to itself.
pub proof fn law_compare_antisymmetric(a: Seq<char>, b: Seq<char>)
    ensures
        compare_chars(a, b) == -compare_chars(b, a),
        compare_chars(a, a) == 0,
    decreases a.len(),
{
    if a.len() > 0 && b.len() > 0 && (a[0] as u32) == (b[0] as u32) {
        law_compare_antisymmetric(a.drop_first(), b.drop_first());
    }
    if a.len() > 0 {
        law_compare_antisymmetric(a.drop_first(), a.drop_first());
    }
}

/// `trim` of a trimmed string changes nothing.
pub proof fn law_trim_idempotent(s: Seq<char>)
    ensures
        trimmed(trimmed(s)) == trimmed(s),
{
    let a = trim_start(s, 0);
    lemma_trim_bounds(s, 0);
    let e = trim_end(s, a, s.len() as int);
    lemma_trim_end_bounds(s, a, s.len() as int);
    let t = s.subrange(a, e);
    lemma_trim_start_stops(s, 0);
    lemma_trim_end_stops(s, a, s.len() as int);
    lemma_trim_bounds(t, 0);
    if t.len() > 0 {
        assert(!is_white(t[0]));
        assert(trim_start(t, 0) == 0);
        assert(!is_white(t[t.len() - 1]));
        assert(trim_end(t, 0, t.len() as int) == t.len());
        assert(t.subrange(0, t.len() as int) =~= t);
    } else {
        assert(trim_start(t, 0) == 0);
        assert(trimmed(t) =~= t);
    }
}

/// `trim_start` stops at a character that is not whitespace.
proof fn lemma_trim_start_stops(s: Seq<char>, i: int)
    requires
        0 <= i <= s.len(),
    ensures
        trim_start(s, i) < s.len() ==> !is_white(s[trim_start(s, i)]),
    decreases s.len() - i,
{
    if i < s.len() && is_white(s[i]) {
        lemma_trim_start_stops(s, i + 1);
    }
}

/// `trim_end` stops after a character that is not whitespace.
proof fn lemma_trim_end_stops(s: Seq<char>, lo: int, j: int)
    requires
        0 <= lo <= j <= s.len(),
    ensures
        trim_end(s, lo, j) > lo ==> !is_white(s[trim_end(s, lo, j) - 1]),
    decreases j - lo,
{
    if j > lo && is_white(s[j - 1]) {
        lemma_trim_end_stops(s, lo, j - 1);
    }
}

/// `substring(0, length)` in characters gives back the whole string.
pub proof fn law_substring_whole(heap: Seq<Obj>, r: Reference, s: Seq<char>)
    requires
        deref(heap, r) == Some(Obj::Str(s)),
        s.len() <= i32::MAX,
        heap.len() < usize::MAX,
    ensures
        string_spec(heap, StringMethod::SubstringRange, seq![Value::Reference(r), Value::Int(0), Value::Int(s.len() as i32)])
            == NativeResult::Ok((Some(Value::Reference(next_ref(heap))), heap.push(Obj::Str(s)))),
{
    assert(s.subrange(0, s.len() as int) =~= s);
}

/// Reversing a builder twice restores its text.
pub proof fn law_builder_reverse_twice(heap: Seq<Obj>, r: Reference, b: Seq<char>)
    requires
        deref(heap, r) == Some(Obj::Builder(b)),
    ensures
        builder_spec(heap, BuilderMethod::Reverse, seq![Value::Reference(r)]) matches Ok((_, h1))
            && builder_spec(h1, BuilderMethod::Reverse, seq![Value::Reference(r)]) == NativeResult::Ok(
                (Some(Value::Reference(r)), heap)),
{
    let i = r->Heap_0 as int;
    let h1 = heap.update(i, Obj::Builder(b.reverse()));
    assert(deref(h1, r) == Some(Obj::Builder(b.reverse())));
    assert(b.reverse().reverse() =~= b);
    assert(h1.update(i, Obj::Builder(b)) =~= heap);
}

/// After `setLength(n)` a builder's `length()` is `n`.
pub proof fn law_builder_set_length(heap: Seq<Obj>, r: Reference, b: Seq<char>, n: i32)
    requires
        deref(heap, r) == Some(Obj::Builder(b)),
        n >= 0,
    ensures
        builder_spec(heap, BuilderMethod::SetLength, seq![Value::Reference(r), Value::Int(n)]) matches Ok((_, h1))
            && builder_spec(h1, BuilderMethod::Length, seq![Value::Reference(r)]) == NativeResult::Ok(
                (Some(Value::Int(n)), h1)),
{
    let i = r->Heap_0 as int;
    let h1 = heap.update(i, Obj::Builder(resized(b, n as int)));
    assert(deref(h1, r) == Some(Obj::Builder(resized(b, n as int))));
    assert(resized(b, n as int).len() == n);
}

/// The sign text of a number in a radix: `-` before the magnitude's digits
/// for a negative number, the digits alone otherwise.
pub open spec fn signed_digits(v: int, radix: nat) -> Seq<char> {
    if v < 0 {
        seq!['-'].add(radix_digits((-v) as nat, radix))
    } else {
        radix_digits(v as nat, radix)
    }
}

/// The signed digits of a number in a radix parse back to the number.
pub proof fn lemma_radix_parses(v: int, radix: nat, lo: int, hi: int)
    requires
        2 <= radix <= 36,
        lo <= v <= hi,
    ensures
        parse_integer(signed_digits(v, radix), radix as int, lo, hi) == Some(v),
{
    if v < 0 {
        lemma_digits_round_trip((-v) as nat, radix);
        let s = signed_digits(v, radix);
        assert(s[0] == '-');
        assert(s.drop_first() =~= radix_digits((-v) as nat, radix));
    } else {
        lemma_digits_round_trip(v as nat, radix);
    }
}

/// `Integer.parseInt(s, r)` reads `s` in radix `r`: for every `int` `v` and
/// radix `r` from 2 to 36, the radix-`r` text of `v` (its digits, after a
/// `-` when negative) parses in radix `r` to `v`.
pub proof fn law_parse_int_radix(heap: Seq<Obj>, v: i32, r: i32, sr: Reference)
    requires
        2 <= r <= 36,
        deref(heap, sr) == Some(Obj::Str(signed_digits(v as int, r as nat))),
    ensures
        integer_spec(heap, IntegerMethod::ParseIntRadix, seq![Value::Reference(sr), Value::Int(r)])
            == NativeResult::Ok((Some(Value::Int(v)), heap)),
{
    lemma_radix_parses(v as int, r as nat, i32::MIN as int, i32::MAX as int);
}

/// `String.compareTo` is lexicographic by code point: where `a` and `b`
/// agree on their first `k` characters, the character at `k` decides (1
/// when `a`'s is greater, -1 when smaller); a proper prefix compares below
/// the longer string, and equal strings compare 0.
pub proof fn law_compare_lexicographic(a: Seq<char>, b: Seq<char>, k: int)
    requires
        0 <= k <= a.len(),
        k <= b.len(),
        a.subrange(0, k) == b.subrange(0, k),
    ensures
        k < a.len() && k < b.len() && (a[k] as u32) > (b[k] as u32) ==> compare_chars(a, b) == 1,
        k < a.len() && k < b.len() && (a[k] as u32) < (b[k] as u32) ==> compare_chars(a, b) == -1,
        k == a.len() && k < b.len() ==> compare_chars(a, b) == -1,
        k < a.len() && k == b.len() ==> compare_chars(a, b) == 1,
        k == a.len() && k == b.len() ==> compare_chars(a, b) == 0,
    decreases k,
{
    if k > 0 {
        assert(a[0] == a.subrange(0, k)[0]);
        assert(b[0] == b.subrange(0, k)[0]);
        assert(a.drop_first().subrange(0, k - 1) =~= a.subrange(0, k).drop_first());
        assert(b.drop_first().subrange(0, k - 1) =~= b.subrange(0, k).drop_first());
        law_compare_lexicographic(a.drop_first(), b.drop_first(), k - 1);
    }
}

/// The `String.compareTo` native orders its receiver and argument as
/// `law_compare_lexicographic` says: a string compares below every longer
/// string it begins, and where two strings first differ the greater
/// character gives 1.
pub proof fn law_string_compare_to(heap: Seq<Obj>, ra: Reference, rb: Reference, a: Seq<char>, b: Seq<char>, k: int)
    requires
        deref(heap, ra) == Some(Obj::Str(a)),
        deref(heap, rb) == Some(Obj::Str(b)),
        !(ra is Null),
        !(rb is Null),
        0 <= k <= a.len(),
        k <= b.len(),
        a.subrange(0, k) == b.subrange(0, k),
    ensures
        k < a.len() && k < b.len() && (a[k] as u32) > (b[k] as u32)
            ==> string_spec(heap, StringMethod::CompareTo, seq![Value::Reference(ra), Value::Reference(rb)])
                == NativeResult::Ok((Some(Value::Int(1i32)), heap)),
        k < a.len() && k < b.len() && (a[k] as u32) < (b[k] as u32)
            ==> string_spec(heap, StringMethod::CompareTo, seq![Value::Reference(ra), Value::Reference(rb)])
                == NativeResult::Ok((Some(Value::Int(-1i32)), heap)),
        k == a.len() && k < b.len()
            ==> string_spec(heap, StringMethod::CompareTo, seq![Value::Reference(ra), Value::Reference(rb)])
                == NativeResult::Ok((Some(Value::Int(-1i32)), heap)),
        k < a.len() && k == b.len()
            ==> string_spec(heap, StringMethod::CompareTo, seq![Value::Reference(ra), Value::Reference(rb)])
                == NativeResult::Ok((Some(Value::Int(1i32)), heap)),
{
    law_compare_lexicographic(a, b, k);
}

/// `StringBuilder.insert(i, s)` on a builder holding `b`, with `0 <= i <=
/// b.len()`: the builder then holds `b.len() + s.len()` characters, its
/// first `i` are `b`'s first `i`, `s` follows from position `i`, and the
/// rest of `b` comes after; the call returns the builder. An index outside
/// `0..=b.len()` throws `StringIndexOutOfBoundsException` and changes
/// nothing.
pub proof fn law_builder_insert(heap: Seq<Obj>, r: Reference, sr: Reference, b: Seq<char>, s: Seq<char>, i: i32)
    requires
        deref(heap, r) == Some(Obj::Builder(b)),
        deref(heap, sr) == Some(Obj::Str(s)),
        !(sr is Null),
        b.len() <= i32::MAX,
    ensures
        0 <= i <= b.len() ==> (builder_spec(heap, BuilderMethod::Insert, seq![Value::Reference(r), Value::Int(i), Value::Reference(sr)])
            matches Ok((Some(ret), h1)) && ret == Value::Reference(r) && h1.len() == heap.len()
            && (forall|j: int| 0 <= j < heap.len() && j != r->Heap_0 ==> h1[j] == heap[j])
            && (deref(h1, r) matches Some(Obj::Builder(nb)) && {
                &&& nb.len() == b.len() + s.len()
                &&& nb.subrange(0, i as int) == b.subrange(0, i as int)
                &&& nb.subrange(i as int, i + s.len()) == s
                &&& nb.subrange(i + s.len(), nb.len() as int) == b.subrange(i as int, b.len() as int)
            })),
        !(0 <= i <= b.len()) ==> builder_spec(heap, BuilderMethod::Insert, seq![Value::Reference(r), Value::Int(i), Value::Reference(sr)])
            == crate::native::throw("java/lang/StringIndexOutOfBoundsException"@),
{
    if 0 <= i <= b.len() {
        let nb = b.subrange(0, i as int) + s + b.subrange(i as int, b.len() as int);
        let h1 = heap.update(r->Heap_0 as int, Obj::Builder(nb));
        assert(deref(h1, r) == Some(Obj::Builder(nb)));
        assert(nb.subrange(0, i as int) =~= b.subrange(0, i as int));
        assert(nb.subrange(i as int, i + s.len()) =~= s);
        assert(nb.subrange(i + s.len(), nb.len() as int) =~= b.subrange(i as int, b.len() as int));
    }
}

/// `Integer.compare(a, b)` is -1 when `a < b`, 0 when they are equal and 1
/// when `a > b`.
pub proof fn law_integer_compare(heap: Seq<Obj>, a: i32, b: i32)
    ensures
        integer_spec(heap, IntegerMethod::Compare, seq![Value::Int(a), Value::Int(b)])
            == NativeResult::Ok((Some(Value::Int(if a < b { -1i32 } else if a == b { 0i32 } else { 1i32 })), heap)),
{
}

/// `toHexString`, `toOctalString` and `toBinaryString` give the digits of
/// the value read as unsigned: each parses back, in radix 16, 8 and 2, to
/// `v` taken as an unsigned 32-bit number.
pub proof fn law_unsigned_text_round_trip(heap: Seq<Obj>, v: i32)
    requires
        heap.len() < usize::MAX,
    ensures
        integer_spec(heap, IntegerMethod::ToHexString, seq![Value::Int(v)]) matches Ok((Some(_), h1))
            && (h1.last() matches Obj::Str(t) && parse_integer(t, 16, 0, u32::MAX as int) == Some(v as u32 as int)),
        integer_spec(heap, IntegerMethod::ToOctalString, seq![Value::Int(v)]) matches Ok((Some(_), h1))
            && (h1.last() matches Obj::Str(t) && parse_integer(t, 8, 0, u32::MAX as int) == Some(v as u32 as int)),
        integer_spec(heap, IntegerMethod::ToBinaryString, seq![Value::Int(v)]) matches Ok((Some(_), h1))
            && (h1.last() matches Obj::Str(t) && parse_integer(t, 2, 0, u32::MAX as int) == Some(v as u32 as int)),
{
    lemma_radix_parses(v as u32 as int, 16, 0, u32::MAX as int);
    lemma_radix_parses(v as u32 as int, 8, 0, u32::MAX as int);
    lemma_radix_parses(v as u32 as int, 2, 0, u32::MAX as int);
}

/// `append(String)` keeps the builder's text and adds the string after it:
/// the first `b.len()` characters are `b`, the rest are `s`.
pub proof fn law_builder_append_string(heap: Seq<Obj>, r: Reference, sr: Reference, b: Seq<char>, s: Seq<char>)
    requires
        deref(heap, r) == Some(Obj::Builder(b)),
        deref(heap, sr) == Some(Obj::Str(s)),
        !(sr is Null),
    ensures
        builder_spec(heap, BuilderMethod::Append(AppendArg::Str), seq![Value::Reference(r), Value::Reference(sr)])
            matches Ok((Some(ret), h1)) && ret == Value::Reference(r) && h1.len() == heap.len()
            && (deref(h1, r) matches Some(Obj::Builder(nb)) && {
                &&& nb.len() == b.len() + s.len()
                &&& nb.subrange(0, b.len() as int) == b
                &&& nb.subrange(b.len() as int, nb.len() as int) == s
            }),
{
    let nb = b + s;
    let h1 = heap.update(r->Heap_0 as int, Obj::Builder(nb));
    assert(deref(h1, r) == Some(Obj::Builder(nb)));
    assert(nb.subrange(0, b.len() as int) =~= b);
    assert(nb.subrange(b.len() as int, nb.len() as int) =~= s);
}

/// `append(int)` adds the decimal text of the value after the builder's
/// text: what follows the old text parses back to the value.
pub proof fn law_builder_append_int(heap: Seq<Obj>, r: Reference, b: Seq<char>, v: i32)
    requires
        deref(heap, r) == Some(Obj::Builder(b)),
    ensures
        builder_spec(heap, BuilderMethod::Append(AppendArg::Int), seq![Value::Reference(r), Value::Int(v)])
            matches Ok((Some(ret), h1)) && ret == Value::Reference(r)
            && (deref(h1, r) matches Some(Obj::Builder(nb)) && {
                &&& nb.subrange(0, b.len() as int) == b
                &&& parse_integer(nb.subrange(b.len() as int, nb.len() as int), 10, i32::MIN as int, i32::MAX as int) == Some(v as int)
            }),
{
    let nb = b + decimal(v as int);
    let h1 = heap.update(r->Heap_0 as int, Obj::Builder(nb));
    assert(deref(h1, r) == Some(Obj::Builder(nb)));
    assert(nb.subrange(0, b.len() as int) =~= b);
    assert(nb.subrange(b.len() as int, nb.len() as int) =~= decimal(v as int));
    lemma_decimal_parses(v as int, i32::MIN as int, i32::MAX as int);
}

/// `deleteCharAt(i)` removes exactly the character at `i`: one character
/// fewer, the first `i` unchanged, the rest shifted down by one. An index
/// outside the text throws `StringIndexOutOfBoundsException`.
pub proof fn law_builder_delete_char_at(heap: Seq<Obj>, r: Reference, b: Seq<char>, i: i32)
    requires
        deref(heap, r) == Some(Obj::Builder(b)),
    ensures
        0 <= i < b.len() ==> (builder_spec(heap, BuilderMethod::DeleteCharAt, seq![Value::Reference(r), Value::Int(i)])
            matches Ok((Some(ret), h1)) && ret == Value::Reference(r)
            && (deref(h1, r) matches Some(Obj::Builder(nb)) && {
                &&& nb.len() == b.len() - 1
                &&& nb.subrange(0, i as int) == b.subrange(0, i as int)
                &&& nb.subrange(i as int, nb.len() as int) == b.subrange(i + 1, b.len() as int)
            })),
        !(0 <= i < b.len()) ==> builder_spec(heap, BuilderMethod::DeleteCharAt, seq![Value::Reference(r), Value::Int(i)])
            == crate::native::throw("java/lang/StringIndexOutOfBoundsException"@),
{
    if 0 <= i < b.len() {
        let nb = b.remove(i as int);
        let h1 = heap.update(r->Heap_0 as int, Obj::Builder(nb));
        assert(deref(h1, r) == Some(Obj::Builder(nb)));
        assert(nb.subrange(0, i as int) =~= b.subrange(0, i as int));
        assert(nb.subrange(i as int, nb.len() as int) =~= b.subrange(i + 1, b.len() as int));
    }
}

/// `setCharAt(i, c)` changes only the character at `i`, to `c` (a Unicode
/// scalar value); the length and every other character stay.
pub proof fn law_builder_set_char_at(heap: Seq<Obj>, r: Reference, b: Seq<char>, i: i32, c: char)
    requires
        deref(heap, r) == Some(Obj::Builder(b)),
        0 <= i < b.len(),
    ensures
        builder_spec(heap, BuilderMethod::SetCharAt, seq![Value::Reference(r), Value::Int(i), Value::Int(c as u32 as i32)])
            matches Ok((None, h1)) && (deref(h1, r) matches Some(Obj::Builder(nb)) && {
                &&& nb.len() == b.len()
                &&& nb[i as int] == c
                &&& forall|j: int| 0 <= j < b.len() && j != i ==> nb[j] == b[j]
            }),
{
    let u = c as u32;
    assert(u <= 0x10FFFF);
    assert((u as i32) as u32 == u);
    assert(crate::unicode::is_scalar(u));
    assert(crate::unicode::char_or_nul(u) == c);
    let nb = b.update(i as int, c);
    let h1 = heap.update(r->Heap_0 as int, Obj::Builder(nb));
    assert(deref(h1, r) == Some(Obj::Builder(nb)));
}

/// `reverse()` puts the builder's characters in the opposite order: the
/// character at `k` is the one that was at `len - 1 - k`.
pub proof fn law_builder_reverse(heap: Seq<Obj>, r: Reference, b: Seq<char>)
    requires
        deref(heap, r) == Some(Obj::Builder(b)),
    ensures
        builder_spec(heap, BuilderMethod::Reverse, seq![Value::Reference(r)]) matches Ok((Some(ret), h1))
            && ret == Value::Reference(r)
            && (deref(h1, r) matches Some(Obj::Builder(nb)) && nb.len() == b.len()
                && forall|k: int| 0 <= k < b.len() ==> nb[k] == b[b.len() - 1 - k]),
{
    let h1 = heap.update(r->Heap_0 as int, Obj::Builder(b.reverse()));
    assert(deref(h1, r) == Some(Obj::Builder(b.reverse())));
}

/// `setLength(n)` keeps the first `n` characters (all of them when the
/// builder is shorter) and fills the rest up to `n` with NUL.
pub proof fn law_builder_set_length_content(heap: Seq<Obj>, r: Reference, b: Seq<char>, n: i32)
    requires
        deref(heap, r) == Some(Obj::Builder(b)),
        n >= 0,
    ensures
        builder_spec(heap, BuilderMethod::SetLength, seq![Value::Reference(r), Value::Int(n)]) matches Ok((None, h1))
            && (deref(h1, r) matches Some(Obj::Builder(nb)) && {
                &&& nb.len() == n
                &&& forall|k: int| 0 <= k < n && k < b.len() ==> nb[k] == b[k]
                &&& forall|k: int| b.len() <= k < n ==> nb[k] == '\0'
            }),
{
    let h1 = heap.update(r->Heap_0 as int, Obj::Builder(resized(b, n as int)));
    assert(deref(h1, r) == Some(Obj::Builder(resized(b, n as int))));
}

} // verus!
