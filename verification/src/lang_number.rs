//! Natives of `java.lang.Integer`, `java.lang.Long` and the integer
//! methods of `java.lang.Math`.

use vstd::prelude::*;
use vstd::std_specs::bits::{u32_leading_zeros, u32_trailing_zeros};
use crate::bits::{
    bit_count, highest_one, highest_one_bit, lowest_one, lowest_one_bit, popcount, rev_bits,
    reverse_bits, reverse_bytes, swap_bytes,
};
use crate::chars::eq_str;
use crate::heap::Heap;
use crate::helpers::{boxed_int, integer_value};
use crate::model::{exception, Reference, Value, VmError, int_arg, ref_arg};
use crate::native::{
    answers, box_of, fail, first_field, give, give_int, give_new, give_str, has_first_field,
    on_int, on_long, on_ref, on_str, read_first_field, set_first_field, sign, sign_of_difference,
    str_arg, str_at, throw, write_first_field, NativeResult,
};
use crate::numfmt::{decimal, int_to_decimal, long_to_decimal, radix_digits, unsigned_digits};
use crate::reflection::new_box;
use crate::strings::{parse_in_range, parse_integer};
use crate::model::Obj;

verus! {

/// The `java.lang.Integer` methods implemented natively.
#[derive(Clone, Copy, PartialEq, Eq, Structural, Debug)]
pub enum IntegerMethod {
    LeadingZeros,
    TrailingZeros,
    BitCount,
    Reverse,
    ReverseBytes,
    HighestOneBit,
    LowestOneBit,
    Signum,
    IntValue,
    ValueOf,
    ParseInt,
    ParseIntRadix,
    ToStr,
    ToStringRadix,
    ToBinaryString,
    ToHexString,
    ToOctalString,
    Compare,
    CompareTo,
    CompareToObject,
    Init,
}

/// The `java.lang.Long` methods implemented natively.
#[derive(Clone, Copy, PartialEq, Eq, Structural, Debug)]
pub enum LongMethod {
    Init,
    LongValue,
    ValueOf,
    ParseLong,
    ToStr,
    Compare,
}

/// The integer methods of `java.lang.Math` implemented natively.
#[derive(Clone, Copy, PartialEq, Eq, Structural, Debug)]
pub enum MathMethod {
    FloorDivInt,
    FloorDivLong,
    FloorModInt,
    FloorModLong,
    AddExactInt,
    AddExactLong,
    SubtractExactInt,
    MultiplyExactInt,
    MultiplyExactLong,
    Signum,
    MaxInt,
    MinInt,
    AbsInt,
    MaxLong,
    MinLong,
    AbsLong,
}

pub open spec fn integer_signature(k: IntegerMethod) -> (Seq<char>, Seq<char>) {
    match k {
        IntegerMethod::LeadingZeros => ("numberOfLeadingZeros"@, "(I)I"@),
        IntegerMethod::TrailingZeros => ("numberOfTrailingZeros"@, "(I)I"@),
        IntegerMethod::BitCount => ("bitCount"@, "(I)I"@),
        IntegerMethod::Reverse => ("reverse"@, "(I)I"@),
        IntegerMethod::ReverseBytes => ("reverseBytes"@, "(I)I"@),
        IntegerMethod::HighestOneBit => ("highestOneBit"@, "(I)I"@),
        IntegerMethod::LowestOneBit => ("lowestOneBit"@, "(I)I"@),
        IntegerMethod::Signum => ("signum"@, "(I)I"@),
        IntegerMethod::IntValue => ("intValue"@, "()I"@),
        IntegerMethod::ValueOf => ("valueOf"@, "(I)Ljava/lang/Integer;"@),
        IntegerMethod::ParseInt => ("parseInt"@, "(Ljava/lang/String;)I"@),
        IntegerMethod::ParseIntRadix => ("parseInt"@, "(Ljava/lang/String;I)I"@),
        IntegerMethod::ToStr => ("toString"@, "(I)Ljava/lang/String;"@),
        IntegerMethod::ToStringRadix => ("toString"@, "(II)Ljava/lang/String;"@),
        IntegerMethod::ToBinaryString => ("toBinaryString"@, "(I)Ljava/lang/String;"@),
        IntegerMethod::ToHexString => ("toHexString"@, "(I)Ljava/lang/String;"@),
        IntegerMethod::ToOctalString => ("toOctalString"@, "(I)Ljava/lang/String;"@),
        IntegerMethod::Compare => ("compare"@, "(II)I"@),
        IntegerMethod::CompareTo => ("compareTo"@, "(Ljava/lang/Integer;)I"@),
        IntegerMethod::CompareToObject => ("compareTo"@, "(Ljava/lang/Object;)I"@),
        IntegerMethod::Init => ("<init>"@, "(I)V"@),
    }
}

pub open spec fn long_signature(k: LongMethod) -> (Seq<char>, Seq<char>) {
    match k {
        LongMethod::Init => ("<init>"@, "(J)V"@),
        LongMethod::LongValue => ("longValue"@, "()J"@),
        LongMethod::ValueOf => ("valueOf"@, "(J)Ljava/lang/Long;"@),
        LongMethod::ParseLong => ("parseLong"@, "(Ljava/lang/String;)J"@),
        LongMethod::ToStr => ("toString"@, "(J)Ljava/lang/String;"@),
        LongMethod::Compare => ("compare"@, "(JJ)I"@),
    }
}

pub open spec fn math_signature(k: MathMethod) -> (Seq<char>, Seq<char>) {
    match k {
        MathMethod::FloorDivInt => ("floorDiv"@, "(II)I"@),
        MathMethod::FloorDivLong => ("floorDiv"@, "(JJ)J"@),
        MathMethod::FloorModInt => ("floorMod"@, "(II)I"@),
        MathMethod::FloorModLong => ("floorMod"@, "(JJ)J"@),
        MathMethod::AddExactInt => ("addExact"@, "(II)I"@),
        MathMethod::AddExactLong => ("addExact"@, "(JJ)J"@),
        MathMethod::SubtractExactInt => ("subtractExact"@, "(II)I"@),
        MathMethod::MultiplyExactInt => ("multiplyExact"@, "(II)I"@),
        MathMethod::MultiplyExactLong => ("multiplyExact"@, "(JJ)J"@),
        MathMethod::Signum => ("signum"@, "(I)I"@),
        MathMethod::MaxInt => ("max"@, "(II)I"@),
        MathMethod::MinInt => ("min"@, "(II)I"@),
        MathMethod::AbsInt => ("abs"@, "(I)I"@),
        MathMethod::MaxLong => ("max"@, "(JJ)J"@),
        MathMethod::MinLong => ("min"@, "(JJ)J"@),
        MathMethod::AbsLong => ("abs"@, "(J)J"@),
    }
}

pub open spec fn integer_arity(k: IntegerMethod) -> nat {
    match k {
        IntegerMethod::ParseIntRadix | IntegerMethod::ToStringRadix | IntegerMethod::Compare
        | IntegerMethod::CompareTo | IntegerMethod::CompareToObject | IntegerMethod::Init => 2,
        _ => 1,
    }
}

pub open spec fn long_arity(k: LongMethod) -> nat {
    match k {
        LongMethod::Init | LongMethod::Compare => 2,
        _ => 1,
    }
}

pub open spec fn math_arity(k: MathMethod) -> nat {
    match k {
        MathMethod::Signum | MathMethod::AbsInt | MathMethod::AbsLong => 1,
        _ => 2,
    }
}

/// The number-format exception.
pub open spec fn nfe() -> Seq<char> {
    "java/lang/NumberFormatException"@
}

/// A parsed value, or the number-format exception.
pub open spec fn give_parsed(heap: Seq<Obj>, p: Option<int>, long: bool) -> NativeResult {
    match p {
        Some(v) => give(heap, if long { Value::Long(v as i64) } else { Value::Int(v as i32) }),
        None => throw(nfe()),
    }
}

/// `Integer.toString(int, int)` as implemented here: a negative value in a
/// radix other than 10 is `-` and its magnitude's digits; otherwise radixes
/// 2, 8 and 16 give the value's digits and every other radix decimal.
pub open spec fn radix_text(v: i32, r: i32) -> Seq<char> {
    let radix = r as u32;
    if v < 0 && radix != 10 {
        seq!['-'].add(radix_digits((-(v as int)) as nat, radix as nat))
    } else if radix == 2 || radix == 8 || radix == 16 {
        radix_digits(v as nat, radix as nat)
    } else {
        decimal(v as int)
    }
}

/// The integer part of a division rounded toward negative infinity.
pub open spec fn floor_div(x: int, y: int) -> int {
    if y > 0 {
        x / y
    } else {
        (-x) / (-y)
    }
}

/// The remainder that goes with `floor_div`: it has the sign of `y`.
pub open spec fn floor_mod(x: int, y: int) -> int {
    x - floor_div(x, y) * y
}

/// `abs` that leaves the most negative value as it is.
pub open spec fn wrapping_abs(x: int, min: int) -> int {
    if x == min {
        x
    } else if x < 0 {
        -x
    } else {
        x
    }
}

/// The result of an exact operation, or the error raised on overflow.
pub open spec fn exact(heap: Seq<Obj>, v: int, long: bool) -> NativeResult {
    if long {
        if i64::MIN <= v <= i64::MAX {
            give(heap, Value::Long(v as i64))
        } else {
            fail(VmError::DivisionByZero)
        }
    } else {
        if i32::MIN <= v <= i32::MAX {
            give_int(heap, v as i32)
        } else {
            fail(VmError::DivisionByZero)
        }
    }
}

pub open spec fn integer_spec(heap: Seq<Obj>, k: IntegerMethod, args: Seq<Value>) -> NativeResult {
    match k {
        IntegerMethod::LeadingZeros => on_int(args, 0, |x: i32| give_int(heap, u32_leading_zeros(x as u32) as i32)),
        IntegerMethod::TrailingZeros => on_int(args, 0, |x: i32| give_int(heap, u32_trailing_zeros(x as u32) as i32)),
        IntegerMethod::BitCount => on_int(args, 0, |x: i32| give_int(heap, popcount(x as u32) as i32)),
        IntegerMethod::Reverse => on_int(args, 0, |x: i32| give_int(heap, (rev_bits(x as u32, 32) as u32) as i32)),
        IntegerMethod::ReverseBytes => on_int(args, 0, |x: i32| give_int(heap, swap_bytes(x as u32) as i32)),
        IntegerMethod::HighestOneBit => on_int(args, 0, |x: i32| give_int(heap, highest_one_bit(x as u32) as i32)),
        IntegerMethod::LowestOneBit => on_int(args, 0, |x: i32| give_int(heap, lowest_one_bit(x as u32) as i32)),
        IntegerMethod::Signum => on_int(args, 0, |x: i32| give_int(heap, sign(x as int))),
        IntegerMethod::IntValue => on_ref(args, 0, |r: Reference| first_field(heap, r, Value::Int(0))),
        IntegerMethod::ValueOf => on_int(args, 0, |v: i32| give_new(heap, box_of("java/lang/Integer"@, Value::Int(v)))),
        IntegerMethod::ParseInt => on_str(heap, args, 0, |s: Seq<char>|
            give_parsed(heap, parse_integer(s, 10, i32::MIN as int, i32::MAX as int), false)),
        IntegerMethod::ParseIntRadix => on_str(heap, args, 0, |s: Seq<char>| on_int(args, 1, |r: i32|
            give_parsed(heap, parse_integer(s, r as int, i32::MIN as int, i32::MAX as int), false))),
        IntegerMethod::ToStr => on_int(args, 0, |v: i32| give_str(heap, decimal(v as int))),
        IntegerMethod::ToStringRadix => on_int(args, 0, |v: i32| on_int(args, 1, |r: i32| give_str(heap, radix_text(v, r)))),
        IntegerMethod::ToBinaryString => on_int(args, 0, |v: i32| give_str(heap, radix_digits(v as u32 as nat, 2))),
        IntegerMethod::ToHexString => on_int(args, 0, |v: i32| give_str(heap, radix_digits(v as u32 as nat, 16))),
        IntegerMethod::ToOctalString => on_int(args, 0, |v: i32| give_str(heap, radix_digits(v as u32 as nat, 8))),
        IntegerMethod::Compare => on_int(args, 0, |a: i32| on_int(args, 1, |b: i32| give_int(heap, sign(a - b)))),
        IntegerMethod::CompareTo | IntegerMethod::CompareToObject => on_ref(args, 0, |ra: Reference|
            match boxed_int(heap, ra) {
                Err(e) => fail(e),
                Ok(a) => on_ref(args, 1, |rb: Reference| match boxed_int(heap, rb) {
                    Err(e) => fail(e),
                    Ok(b) => give_int(heap, sign(a - b)),
                }),
            }),
        IntegerMethod::Init => on_ref(args, 0, |r: Reference| on_int(args, 1, |v: i32| set_first_field(heap, r, Value::Int(v)))),
    }
}

pub open spec fn long_spec(heap: Seq<Obj>, k: LongMethod, args: Seq<Value>) -> NativeResult {
    match k {
        LongMethod::Init => on_ref(args, 0, |r: Reference| on_long(args, 1, |v: i64| set_first_field(heap, r, Value::Long(v)))),
        LongMethod::LongValue => on_ref(args, 0, |r: Reference| first_field(heap, r, Value::Long(0))),
        LongMethod::ValueOf => on_long(args, 0, |v: i64| give_new(heap, box_of("java/lang/Long"@, Value::Long(v)))),
        LongMethod::ParseLong => on_str(heap, args, 0, |s: Seq<char>|
            give_parsed(heap, parse_integer(s, 10, i64::MIN as int, i64::MAX as int), true)),
        LongMethod::ToStr => on_long(args, 0, |v: i64| give_str(heap, decimal(v as int))),
        LongMethod::Compare => on_long(args, 0, |a: i64| on_long(args, 1, |b: i64| give_int(heap, sign(a - b)))),
    }
}

pub open spec fn math_spec(heap: Seq<Obj>, k: MathMethod, args: Seq<Value>) -> NativeResult {
    match k {
        MathMethod::FloorDivInt => on_int(args, 0, |x: i32| on_int(args, 1, |y: i32|
            if y == 0 { fail(VmError::DivisionByZero) } else { give_int(heap, euclid_quot(x as int, y as int) as i32) })),
        MathMethod::FloorDivLong => on_long(args, 0, |x: i64| on_long(args, 1, |y: i64|
            if y == 0 { fail(VmError::DivisionByZero) } else { give(heap, Value::Long(floor_div(x as int, y as int) as i64)) })),
        MathMethod::FloorModInt => on_int(args, 0, |x: i32| on_int(args, 1, |y: i32|
            if y == 0 { fail(VmError::DivisionByZero) } else { give_int(heap, floor_mod(x as int, y as int) as i32) })),
        MathMethod::FloorModLong => on_long(args, 0, |x: i64| on_long(args, 1, |y: i64|
            if y == 0 { fail(VmError::DivisionByZero) } else { give(heap, Value::Long(floor_mod(x as int, y as int) as i64)) })),
        MathMethod::AddExactInt => on_int(args, 0, |a: i32| on_int(args, 1, |b: i32| exact(heap, a + b, false))),
        MathMethod::AddExactLong => on_long(args, 0, |a: i64| on_long(args, 1, |b: i64| exact(heap, a + b, true))),
        MathMethod::SubtractExactInt => on_int(args, 0, |a: i32| on_int(args, 1, |b: i32| exact(heap, a - b, false))),
        MathMethod::MultiplyExactInt => on_int(args, 0, |a: i32| on_int(args, 1, |b: i32| exact(heap, a * b, false))),
        MathMethod::MultiplyExactLong => on_long(args, 0, |a: i64| on_long(args, 1, |b: i64| exact(heap, a * b, true))),
        MathMethod::Signum => on_int(args, 0, |x: i32| give_int(heap, sign(x as int))),
        MathMethod::MaxInt => on_int(args, 0, |a: i32| on_int(args, 1, |b: i32| give_int(heap, if a >= b { a } else { b }))),
        MathMethod::MinInt => on_int(args, 0, |a: i32| on_int(args, 1, |b: i32| give_int(heap, if a <= b { a } else { b }))),
        MathMethod::AbsInt => on_int(args, 0, |x: i32| give_int(heap, wrapping_abs(x as int, i32::MIN as int) as i32)),
        MathMethod::MaxLong => on_long(args, 0, |a: i64| on_long(args, 1, |b: i64| give(heap, Value::Long(if a >= b { a } else { b })))),
        MathMethod::MinLong => on_long(args, 0, |a: i64| on_long(args, 1, |b: i64| give(heap, Value::Long(if a <= b { a } else { b })))),
        MathMethod::AbsLong => on_long(args, 0, |x: i64| give(heap, Value::Long(wrapping_abs(x as int, i64::MIN as int) as i64))),
    }
}

/// What the natives need of their arguments beyond their number: the
/// radix of `parseInt` is one `from_str_radix` accepts; a negative value
/// printed in a radix other than 10 uses a radix from 2 to 36; the box
/// constructors find a field to set; the floor operations are not asked to
/// divide the most negative value by -1.
pub open spec fn integer_pre(heap: Seq<Obj>, k: IntegerMethod, args: Seq<Value>) -> bool {
    match k {
        IntegerMethod::ParseIntRadix => (str_at(heap, args, 0) is Ok && int_arg(args, 1) is Ok)
            ==> 2 <= int_arg(args, 1)->Ok_0 <= 36,
        IntegerMethod::ToStringRadix => (int_arg(args, 0) is Ok && int_arg(args, 1) is Ok
            && int_arg(args, 0)->Ok_0 < 0 && int_arg(args, 1)->Ok_0 != 10)
            ==> 2 <= int_arg(args, 1)->Ok_0 <= 36,
        IntegerMethod::Init => (ref_arg(args, 0) is Ok && int_arg(args, 1) is Ok)
            ==> has_first_field(heap, ref_arg(args, 0)->Ok_0),
        _ => true,
    }
}

pub open spec fn long_pre(heap: Seq<Obj>, k: LongMethod, args: Seq<Value>) -> bool {
    match k {
        LongMethod::Init => (ref_arg(args, 0) is Ok && crate::model::long_arg(args, 1) is Ok)
            ==> has_first_field(heap, ref_arg(args, 0)->Ok_0),
        _ => true,
    }
}

pub open spec fn math_pre(k: MathMethod, args: Seq<Value>) -> bool {
    match k {
        MathMethod::FloorDivInt | MathMethod::FloorModInt =>
            !(args[0] == Value::Int(i32::MIN) && args[1] == Value::Int(-1i32)),
        MathMethod::FloorDivLong | MathMethod::FloorModLong =>
            !(args[0] == Value::Long(i64::MIN) && args[1] == Value::Long(-1i64)),
        _ => true,
    }
}

pub fn integer_method(name: &[char], descriptor: &[char]) -> (res: Option<IntegerMethod>)
    ensures
        match res {
            Some(k) => integer_signature(k) == (name@, descriptor@),
            None => forall|k: IntegerMethod| integer_signature(k) != (name@, descriptor@),
        },
{
    let n = name;
    let d = descriptor;
    if eq_str(n, "numberOfLeadingZeros") && eq_str(d, "(I)I") {
        return Some(IntegerMethod::LeadingZeros);
    }
    if eq_str(n, "numberOfTrailingZeros") && eq_str(d, "(I)I") {
        return Some(IntegerMethod::TrailingZeros);
    }
    if eq_str(n, "bitCount") && eq_str(d, "(I)I") {
        return Some(IntegerMethod::BitCount);
    }
    if eq_str(n, "reverse") && eq_str(d, "(I)I") {
        return Some(IntegerMethod::Reverse);
    }
    if eq_str(n, "reverseBytes") && eq_str(d, "(I)I") {
        return Some(IntegerMethod::ReverseBytes);
    }
    if eq_str(n, "highestOneBit") && eq_str(d, "(I)I") {
        return Some(IntegerMethod::HighestOneBit);
    }
    if eq_str(n, "lowestOneBit") && eq_str(d, "(I)I") {
        return Some(IntegerMethod::LowestOneBit);
    }
    if eq_str(n, "signum") && eq_str(d, "(I)I") {
        return Some(IntegerMethod::Signum);
    }
    if eq_str(n, "intValue") && eq_str(d, "()I") {
        return Some(IntegerMethod::IntValue);
    }
    if eq_str(n, "valueOf") && eq_str(d, "(I)Ljava/lang/Integer;") {
        return Some(IntegerMethod::ValueOf);
    }
    if eq_str(n, "parseInt") && eq_str(d, "(Ljava/lang/String;)I") {
        return Some(IntegerMethod::ParseInt);
    }
    if eq_str(n, "parseInt") && eq_str(d, "(Ljava/lang/String;I)I") {
        return Some(IntegerMethod::ParseIntRadix);
    }
    if eq_str(n, "toString") && eq_str(d, "(I)Ljava/lang/String;") {
        return Some(IntegerMethod::ToStr);
    }
    if eq_str(n, "toString") && eq_str(d, "(II)Ljava/lang/String;") {
        return Some(IntegerMethod::ToStringRadix);
    }
    if eq_str(n, "toBinaryString") && eq_str(d, "(I)Ljava/lang/String;") {
        return Some(IntegerMethod::ToBinaryString);
    }
    if eq_str(n, "toHexString") && eq_str(d, "(I)Ljava/lang/String;") {
        return Some(IntegerMethod::ToHexString);
    }
    if eq_str(n, "toOctalString") && eq_str(d, "(I)Ljava/lang/String;") {
        return Some(IntegerMethod::ToOctalString);
    }
    if eq_str(n, "compare") && eq_str(d, "(II)I") {
        return Some(IntegerMethod::Compare);
    }
    if eq_str(n, "compareTo") && eq_str(d, "(Ljava/lang/Integer;)I") {
        return Some(IntegerMethod::CompareTo);
    }
    if eq_str(n, "compareTo") && eq_str(d, "(Ljava/lang/Object;)I") {
        return Some(IntegerMethod::CompareToObject);
    }
    if eq_str(n, "<init>") && eq_str(d, "(I)V") {
        return Some(IntegerMethod::Init);
    }
    proof {
        assert forall|k: IntegerMethod| integer_signature(k) != (name@, descriptor@) by {
            match k {
                IntegerMethod::LeadingZeros => {},
                IntegerMethod::TrailingZeros => {},
                IntegerMethod::BitCount => {},
                IntegerMethod::Reverse => {},
                IntegerMethod::ReverseBytes => {},
                IntegerMethod::HighestOneBit => {},
                IntegerMethod::LowestOneBit => {},
                IntegerMethod::Signum => {},
                IntegerMethod::IntValue => {},
                IntegerMethod::ValueOf => {},
                IntegerMethod::ParseInt => {},
                IntegerMethod::ParseIntRadix => {},
                IntegerMethod::ToStr => {},
                IntegerMethod::ToStringRadix => {},
                IntegerMethod::ToBinaryString => {},
                IntegerMethod::ToHexString => {},
                IntegerMethod::ToOctalString => {},
                IntegerMethod::Compare => {},
                IntegerMethod::CompareTo => {},
                IntegerMethod::CompareToObject => {},
                IntegerMethod::Init => {},
            }
        }
    }
    None
}

pub fn long_method(name: &[char], descriptor: &[char]) -> (res: Option<LongMethod>)
    ensures
        match res {
            Some(k) => long_signature(k) == (name@, descriptor@),
            None => forall|k: LongMethod| long_signature(k) != (name@, descriptor@),
        },
{
    let n = name;
    let d = descriptor;
    if eq_str(n, "<init>") && eq_str(d, "(J)V") {
        return Some(LongMethod::Init);
    }
    if eq_str(n, "longValue") && eq_str(d, "()J") {
        return Some(LongMethod::LongValue);
    }
    if eq_str(n, "valueOf") && eq_str(d, "(J)Ljava/lang/Long;") {
        return Some(LongMethod::ValueOf);
    }
    if eq_str(n, "parseLong") && eq_str(d, "(Ljava/lang/String;)J") {
        return Some(LongMethod::ParseLong);
    }
    if eq_str(n, "toString") && eq_str(d, "(J)Ljava/lang/String;") {
        return Some(LongMethod::ToStr);
    }
    if eq_str(n, "compare") && eq_str(d, "(JJ)I") {
        return Some(LongMethod::Compare);
    }
    proof {
        assert forall|k: LongMethod| long_signature(k) != (name@, descriptor@) by {
            match k {
                LongMethod::Init => {},
                LongMethod::LongValue => {},
                LongMethod::ValueOf => {},
                LongMethod::ParseLong => {},
                LongMethod::ToStr => {},
                LongMethod::Compare => {},
            }
        }
    }
    None
}

pub fn math_method(name: &[char], descriptor: &[char]) -> (res: Option<MathMethod>)
    ensures
        match res {
            Some(k) => math_signature(k) == (name@, descriptor@),
            None => forall|k: MathMethod| math_signature(k) != (name@, descriptor@),
        },
{
    let n = name;
    let d = descriptor;
    if eq_str(n, "floorDiv") && eq_str(d, "(II)I") {
        return Some(MathMethod::FloorDivInt);
    }
    if eq_str(n, "floorDiv") && eq_str(d, "(JJ)J") {
        return Some(MathMethod::FloorDivLong);
    }
    if eq_str(n, "floorMod") && eq_str(d, "(II)I") {
        return Some(MathMethod::FloorModInt);
    }
    if eq_str(n, "floorMod") && eq_str(d, "(JJ)J") {
        return Some(MathMethod::FloorModLong);
    }
    if eq_str(n, "addExact") && eq_str(d, "(II)I") {
        return Some(MathMethod::AddExactInt);
    }
    if eq_str(n, "addExact") && eq_str(d, "(JJ)J") {
        return Some(MathMethod::AddExactLong);
    }
    if eq_str(n, "subtractExact") && eq_str(d, "(II)I") {
        return Some(MathMethod::SubtractExactInt);
    }
    if eq_str(n, "multiplyExact") && eq_str(d, "(II)I") {
        return Some(MathMethod::MultiplyExactInt);
    }
    if eq_str(n, "multiplyExact") && eq_str(d, "(JJ)J") {
        return Some(MathMethod::MultiplyExactLong);
    }
    if eq_str(n, "signum") && eq_str(d, "(I)I") {
        return Some(MathMethod::Signum);
    }
    if eq_str(n, "max") && eq_str(d, "(II)I") {
        return Some(MathMethod::MaxInt);
    }
    if eq_str(n, "min") && eq_str(d, "(II)I") {
        return Some(MathMethod::MinInt);
    }
    if eq_str(n, "abs") && eq_str(d, "(I)I") {
        return Some(MathMethod::AbsInt);
    }
    if eq_str(n, "max") && eq_str(d, "(JJ)J") {
        return Some(MathMethod::MaxLong);
    }
    if eq_str(n, "min") && eq_str(d, "(JJ)J") {
        return Some(MathMethod::MinLong);
    }
    if eq_str(n, "abs") && eq_str(d, "(J)J") {
        return Some(MathMethod::AbsLong);
    }
    proof {
        assert forall|k: MathMethod| math_signature(k) != (name@, descriptor@) by {
            match k {
                MathMethod::FloorDivInt => {},
                MathMethod::FloorDivLong => {},
                MathMethod::FloorModInt => {},
                MathMethod::FloorModLong => {},
                MathMethod::AddExactInt => {},
                MathMethod::AddExactLong => {},
                MathMethod::SubtractExactInt => {},
                MathMethod::MultiplyExactInt => {},
                MathMethod::MultiplyExactLong => {},
                MathMethod::Signum => {},
                MathMethod::MaxInt => {},
                MathMethod::MinInt => {},
                MathMethod::AbsInt => {},
                MathMethod::MaxLong => {},
                MathMethod::MinLong => {},
                MathMethod::AbsLong => {},
            }
        }
    }
    None
}

/// Parses with `parse_in_range` and reports a number-format exception.
fn parse_native(s: &Vec<char>, radix: u32, long: bool) -> (res: Result<Option<Value>, VmError>)
    requires
        2 <= radix <= 36,
    ensures
        match res {
            Ok(v) => give_parsed(Seq::empty(), parse_integer(s@, radix as int,
                if long { i64::MIN as int } else { i32::MIN as int },
                if long { i64::MAX as int } else { i32::MAX as int }), long)
                == Ok::<(Option<Value>, Seq<Obj>), crate::model::Fault>((v, Seq::empty())),
            Err(e) => crate::model::fails_with(give_parsed(Seq::empty(), parse_integer(s@, radix as int,
                if long { i64::MIN as int } else { i32::MIN as int },
                if long { i64::MAX as int } else { i32::MAX as int }), long), e),
        },
{
    let (lo, hi): (i64, i64) = if long {
        (i64::MIN, i64::MAX)
    } else {
        (i32::MIN as i64, i32::MAX as i64)
    };
    match parse_in_range(s, radix, lo, hi) {
        Some(v) => if long {
            Ok(Some(Value::Long(v)))
        } else {
            Ok(Some(Value::Int(v as i32)))
        },
        None => Err(exception("java/lang/NumberFormatException")),
    }
}

/// The digits of a 32-bit word in the given radix.
fn word_digits(v: i32, radix: u64) -> (res: Vec<char>)
    requires
        2 <= radix <= 36,
    ensures
        res@ == radix_digits(v as u32 as nat, radix as nat),
{
    unsigned_digits(v as u32 as u64, radix)
}

/// `Integer.toString(int, int)`.
pub fn radix_string(v: i32, r: i32) -> (res: Vec<char>)
    requires
        (v < 0 && r != 10) ==> 2 <= r <= 36,
    ensures
        res@ == radix_text(v, r),
{
    let radix = r as u32;
    if v < 0 && radix != 10 {
        let mag: u64 = (-(v as i64)) as u64;
        let digits = unsigned_digits(mag, radix as u64);
        let mut res = Vec::new();
        res.push('-');
        crate::helpers::append_chars(&mut res, &digits);
        res
    } else if radix == 2 || radix == 8 || radix == 16 {
        unsigned_digits(v as u64, radix as u64)
    } else {
        int_to_decimal(v)
    }
}

/// Runs a `java.lang.Integer` native.
pub fn invoke_integer(heap: &mut Heap, k: IntegerMethod, args: &[Value]) -> (res: Result<Option<Value>, VmError>)
    requires
        args@.len() >= integer_arity(k),
        integer_pre(old(heap)@, k, args@),
    ensures
        answers(old(heap)@, final(heap)@, integer_spec(old(heap)@, k, args@), res),
{
    match k {
        IntegerMethod::LeadingZeros => {
            let x = args[0].as_int()?;
            Ok(Some(Value::Int((x as u32).leading_zeros() as i32)))
        },
        IntegerMethod::TrailingZeros => {
            let x = args[0].as_int()?;
            Ok(Some(Value::Int((x as u32).trailing_zeros() as i32)))
        },
        IntegerMethod::BitCount => {
            let x = args[0].as_int()?;
            Ok(Some(Value::Int(bit_count(x as u32) as i32)))
        },
        IntegerMethod::Reverse => {
            let x = args[0].as_int()?;
            Ok(Some(Value::Int(reverse_bits(x as u32) as i32)))
        },
        IntegerMethod::ReverseBytes => {
            let x = args[0].as_int()?;
            Ok(Some(Value::Int(reverse_bytes(x as u32) as i32)))
        },
        IntegerMethod::HighestOneBit => {
            let x = args[0].as_int()?;
            Ok(Some(Value::Int(highest_one(x as u32) as i32)))
        },
        IntegerMethod::LowestOneBit => {
            let x = args[0].as_int()?;
            Ok(Some(Value::Int(lowest_one(x as u32) as i32)))
        },
        IntegerMethod::Signum => {
            let x = args[0].as_int()?;
            Ok(Some(Value::Int(sign_of_difference(x as i64, 0))))
        },
        IntegerMethod::IntValue => {
            let r = args[0].as_reference()?;
            read_first_field(heap, r, Value::Int(0))
        },
        IntegerMethod::ValueOf => {
            let v = args[0].as_int()?;
            Ok(Some(Value::Reference(new_box(heap, "java/lang/Integer", Value::Int(v)))))
        },
        IntegerMethod::ParseInt => {
            let s = str_arg(heap, args, 0)?;
            parse_native(&s, 10, false)
        },
        IntegerMethod::ParseIntRadix => {
            let s = str_arg(heap, args, 0)?;
            let r = args[1].as_int()?;
            parse_native(&s, r as u32, false)
        },
        IntegerMethod::ToStr => {
            let v = args[0].as_int()?;
            Ok(Some(heap.new_string(int_to_decimal(v))))
        },
        IntegerMethod::ToStringRadix => {
            let v = args[0].as_int()?;
            let r = args[1].as_int()?;
            Ok(Some(heap.new_string(radix_string(v, r))))
        },
        IntegerMethod::ToBinaryString => {
            let v = args[0].as_int()?;
            Ok(Some(heap.new_string(word_digits(v, 2))))
        },
        IntegerMethod::ToHexString => {
            let v = args[0].as_int()?;
            Ok(Some(heap.new_string(word_digits(v, 16))))
        },
        IntegerMethod::ToOctalString => {
            let v = args[0].as_int()?;
            Ok(Some(heap.new_string(word_digits(v, 8))))
        },
        IntegerMethod::Compare => {
            let a = args[0].as_int()?;
            let b = args[1].as_int()?;
            Ok(Some(Value::Int(sign_of_difference(a as i64, b as i64))))
        },
        IntegerMethod::CompareTo | IntegerMethod::CompareToObject => {
            let ra = args[0].as_reference()?;
            let a = integer_value(heap, ra)?;
            let rb = args[1].as_reference()?;
            let b = integer_value(heap, rb)?;
            Ok(Some(Value::Int(sign_of_difference(a as i64, b as i64))))
        },
        IntegerMethod::Init => {
            let r = args[0].as_reference()?;
            let v = args[1].as_int()?;
            write_first_field(heap, r, Value::Int(v))
        },
    }
}

/// Runs a `java.lang.Long` native.
pub fn invoke_long(heap: &mut Heap, k: LongMethod, args: &[Value]) -> (res: Result<Option<Value>, VmError>)
    requires
        args@.len() >= long_arity(k),
        long_pre(old(heap)@, k, args@),
    ensures
        answers(old(heap)@, final(heap)@, long_spec(old(heap)@, k, args@), res),
{
    match k {
        LongMethod::Init => {
            let r = args[0].as_reference()?;
            let v = args[1].as_long()?;
            write_first_field(heap, r, Value::Long(v))
        },
        LongMethod::LongValue => {
            let r = args[0].as_reference()?;
            read_first_field(heap, r, Value::Long(0))
        },
        LongMethod::ValueOf => {
            let v = args[0].as_long()?;
            Ok(Some(Value::Reference(new_box(heap, "java/lang/Long", Value::Long(v)))))
        },
        LongMethod::ParseLong => {
            let s = str_arg(heap, args, 0)?;
            parse_native(&s, 10, true)
        },
        LongMethod::ToStr => {
            let v = args[0].as_long()?;
            Ok(Some(heap.new_string(long_to_decimal(v))))
        },
        LongMethod::Compare => {
            let a = args[0].as_long()?;
            let b = args[1].as_long()?;
            Ok(Some(Value::Int(sign_of_difference(a, b))))
        },
    }
}

/// Floor division by a positive divisor, with its remainder.
pub fn floor_div_pos(x: i128, d: i128) -> (res: (i128, i128))
    requires
        0 < d < 0x1_0000_0000_0000_0000,
        -0x1_0000_0000_0000_0000 < x < 0x1_0000_0000_0000_0000,
    ensures
        res.0 == x / d,
        res.1 == x % d,
        -0x1_0000_0000_0000_0000 < res.0 < 0x1_0000_0000_0000_0000,
{
    let dd = d as u128;
    if x >= 0 {
        let m = x as u128;
        proof {
            vstd::arithmetic::div_mod::lemma_fundamental_div_mod(m as int, dd as int);
            let q = m / dd;
            assert((dd as int) * (q as int) >= q) by (nonlinear_arith) requires dd >= 1, q >= 0;
        }
        ((m / dd) as i128, (m % dd) as i128)
    } else {
        let m = (-x) as u128;
        let q = m / dd;
        let r = m % dd;
        proof {
            vstd::arithmetic::div_mod::lemma_fundamental_div_mod(m as int, dd as int);
            assert((dd as int) * (q as int) >= q) by (nonlinear_arith) requires dd >= 1, q >= 0;
            assert(0 <= r < dd);
            if r == 0 {
                assert(x as int == (-(q as int)) * (d as int) + 0) by (nonlinear_arith)
                    requires m as int == (dd as int) * (q as int) + r as int, r == 0, x == -(m as int), dd == d;
                vstd::arithmetic::div_mod::lemma_fundamental_div_mod_converse(x as int, d as int, -(q as int), 0);
            } else {
                assert(x as int == (-(q as int) - 1) * (d as int) + (d - r)) by (nonlinear_arith)
                    requires m as int == (dd as int) * (q as int) + r as int, x == -(m as int), dd == d;
                vstd::arithmetic::div_mod::lemma_fundamental_div_mod_converse(x as int, d as int, -(q as int) - 1, d - r);
            }
        }
        if r == 0 {
            (-(q as i128), 0)
        } else {
            (-(q as i128) - 1, d - (r as i128))
        }
    }
}

/// The Euclidean quotient (`div_euclid`): the remainder it leaves is never
/// negative.
pub open spec fn euclid_quot(x: int, y: int) -> int {
    if y > 0 {
        x / y
    } else {
        -(x / (-y))
    }
}

/// `div_euclid` on 64-bit operands.
pub fn euclid_div(x: i64, y: i64) -> (q: i128)
    requires
        y != 0,
    ensures
        q == euclid_quot(x as int, y as int),
{
    if y > 0 {
        floor_div_pos(x as i128, y as i128).0
    } else {
        -floor_div_pos(x as i128, -(y as i128)).0
    }
}

/// Quotient rounded toward negative infinity, with the matching remainder.
pub fn floor_div_mod(x: i64, y: i64) -> (res: (i128, i128))
    requires
        y != 0,
    ensures
        res.0 == floor_div(x as int, y as int),
        res.1 == floor_mod(x as int, y as int),
{
    if y > 0 {
        let (q, r) = floor_div_pos(x as i128, y as i128);
        proof {
            vstd::arithmetic::div_mod::lemma_fundamental_div_mod(x as int, y as int);
        }
        (q, r)
    } else {
        let (q, r) = floor_div_pos(-(x as i128), -(y as i128));
        proof {
            vstd::arithmetic::div_mod::lemma_fundamental_div_mod(-(x as int), -(y as int));
            assert(x as int - q * (y as int) == -(r as int)) by (nonlinear_arith)
                requires -(x as int) == (-(y as int)) * (q as int) + (r as int);
        }
        (q, -r)
    }
}

/// Runs an integer `java.lang.Math` native.
pub fn invoke_math(heap: &Heap, k: MathMethod, args: &[Value]) -> (res: Result<Option<Value>, VmError>)
    requires
        args@.len() >= math_arity(k),
        math_pre(k, args@),
    ensures
        answers(heap@, heap@, math_spec(heap@, k, args@), res),
{
    match k {
        MathMethod::FloorDivInt => {
            let x = args[0].as_int()?;
            let y = args[1].as_int()?;
            if y == 0 {
                return Err(VmError::DivisionByZero);
            }
            Ok(Some(Value::Int(euclid_div(x as i64, y as i64) as i32)))
        },
        MathMethod::FloorDivLong => {
            let x = args[0].as_long()?;
            let y = args[1].as_long()?;
            if y == 0 {
                return Err(VmError::DivisionByZero);
            }
            Ok(Some(Value::Long(floor_div_mod(x, y).0 as i64)))
        },
        MathMethod::FloorModInt => {
            let x = args[0].as_int()?;
            let y = args[1].as_int()?;
            if y == 0 {
                return Err(VmError::DivisionByZero);
            }
            Ok(Some(Value::Int(floor_div_mod(x as i64, y as i64).1 as i32)))
        },
        MathMethod::FloorModLong => {
            let x = args[0].as_long()?;
            let y = args[1].as_long()?;
            if y == 0 {
                return Err(VmError::DivisionByZero);
            }
            Ok(Some(Value::Long(floor_div_mod(x, y).1 as i64)))
        },
        MathMethod::AddExactInt => {
            let a = args[0].as_int()?;
            let b = args[1].as_int()?;
            match a.checked_add(b) {
                Some(v) => Ok(Some(Value::Int(v))),
                None => Err(VmError::DivisionByZero),
            }
        },
        MathMethod::AddExactLong => {
            let a = args[0].as_long()?;
            let b = args[1].as_long()?;
            match a.checked_add(b) {
                Some(v) => Ok(Some(Value::Long(v))),
                None => Err(VmError::DivisionByZero),
            }
        },
        MathMethod::SubtractExactInt => {
            let a = args[0].as_int()?;
            let b = args[1].as_int()?;
            match a.checked_sub(b) {
                Some(v) => Ok(Some(Value::Int(v))),
                None => Err(VmError::DivisionByZero),
            }
        },
        MathMethod::MultiplyExactInt => {
            let a = args[0].as_int()?;
            let b = args[1].as_int()?;
            match a.checked_mul(b) {
                Some(v) => Ok(Some(Value::Int(v))),
                None => Err(VmError::DivisionByZero),
            }
        },
        MathMethod::MultiplyExactLong => {
            let a = args[0].as_long()?;
            let b = args[1].as_long()?;
            match a.checked_mul(b) {
                Some(v) => Ok(Some(Value::Long(v))),
                None => Err(VmError::DivisionByZero),
            }
        },
        MathMethod::Signum => {
            let x = args[0].as_int()?;
            Ok(Some(Value::Int(sign_of_difference(x as i64, 0))))
        },
        MathMethod::MaxInt => {
            let a = args[0].as_int()?;
            let b = args[1].as_int()?;
            Ok(Some(Value::Int(if a >= b { a } else { b })))
        },
        MathMethod::MinInt => {
            let a = args[0].as_int()?;
            let b = args[1].as_int()?;
            Ok(Some(Value::Int(if a <= b { a } else { b })))
        },
        MathMethod::AbsInt => {
            let x = args[0].as_int()?;
            Ok(Some(Value::Int(if x == i32::MIN { x } else if x < 0 { -x } else { x })))
        },
        MathMethod::MaxLong => {
            let a = args[0].as_long()?;
            let b = args[1].as_long()?;
            Ok(Some(Value::Long(if a >= b { a } else { b })))
        },
        MathMethod::MinLong => {
            let a = args[0].as_long()?;
            let b = args[1].as_long()?;
            Ok(Some(Value::Long(if a <= b { a } else { b })))
        },
        MathMethod::AbsLong => {
            let x = args[0].as_long()?;
            Ok(Some(Value::Long(if x == i64::MIN { x } else if x < 0 { -x } else { x })))
        },
    }
}

} // verus!
