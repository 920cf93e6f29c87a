//! Properties of the `java.lang.String` natives stated over their inputs
//! and results.

use vstd::prelude::*;
use crate::heap::deref;
use crate::lang_string::{string_spec, StringMethod};
use crate::model::{Obj, Reference, Value};
use crate::native::NativeResult;
use crate::strings::{find_from, index_of, is_white, string_hash, trim_end, trim_start, trimmed};

verus! {

/// Whether `needle` occurs in `hay` at position `k`.
pub open spec fn occurs(hay: Seq<char>, needle: Seq<char>, k: int) -> bool {
    0 <= k && k + needle.len() <= hay.len() && hay.subrange(k, k + needle.len()) == needle
}

/// A search from `from` finds the first occurrence at or after `from`.
proof fn lemma_find_from_first(hay: Seq<char>, needle: Seq<char>, from: int)
    requires
        from >= 0,
    ensures
        find_from(hay, needle, from) == -1 ==> forall|k: int| from <= k ==> !occurs(hay, needle, k),
        find_from(hay, needle, from) != -1 ==> {
            let x = find_from(hay, needle, from);
            &&& from <= x
            &&& occurs(hay, needle, x)
            &&& forall|k: int| from <= k < x ==> !occurs(hay, needle, k)
        },
    decreases hay.len() + 1 - from,
{
    if from + needle.len() > hay.len() {
    } else if hay.subrange(from, from + needle.len()) == needle {
    } else {
        lemma_find_from_first(hay, needle, from + 1);
    }
}

/// `indexOf` finds the first occurrence: the result is -1 exactly when the
/// needle occurs nowhere in the string; otherwise the needle occurs at the
/// result and at no earlier position.
pub proof fn law_index_of_first_occurrence(hay: Seq<char>, needle: Seq<char>)
    ensures
        index_of(hay, needle) == -1 <==> (forall|k: int| !occurs(hay, needle, k)),
        index_of(hay, needle) != -1 ==> occurs(hay, needle, index_of(hay, needle))
            && forall|k: int| 0 <= k < index_of(hay, needle) ==> !occurs(hay, needle, k),
{
    lemma_find_from_first(hay, needle, 0);
    if index_of(hay, needle) != -1 {
        assert(occurs(hay, needle, index_of(hay, needle)));
    }
}

/// The `String.indexOf(String)` native returns the first position of the
/// needle, or -1 when it does not occur.
pub proof fn law_string_index_of(heap: Seq<Obj>, rh: Reference, rn: Reference, hay: Seq<char>, needle: Seq<char>)
    requires
        deref(heap, rh) == Some(Obj::Str(hay)),
        deref(heap, rn) == Some(Obj::Str(needle)),
        hay.len() <= i32::MAX,
    ensures
        string_spec(heap, StringMethod::IndexOfString, seq![Value::Reference(rh), Value::Reference(rn)])
            matches Ok((Some(Value::Int(x)), h1)) && h1 == heap && {
            &&& x == -1 <==> (forall|k: int| !occurs(hay, needle, k))
            &&& x != -1 ==> occurs(hay, needle, x as int) && forall|k: int| 0 <= k < x ==> !occurs(hay, needle, k)
        },
{
    law_index_of_first_occurrence(hay, needle);
    lemma_find_from_first(hay, needle, 0);
}

/// `substring(0, k)` followed by `substring(k)` spells the whole string,
/// and `substring(b, e)` has `e - b` characters, the `j`-th being the
/// string's character `b + j`.
pub proof fn law_substring_pieces(heap: Seq<Obj>, r: Reference, s: Seq<char>, b: i32, e: i32)
    requires
        deref(heap, r) == Some(Obj::Str(s)),
        s.len() <= i32::MAX,
        0 <= b <= e <= s.len(),
        heap.len() < usize::MAX,
    ensures
        string_spec(heap, StringMethod::SubstringRange, seq![Value::Reference(r), Value::Int(b), Value::Int(e)])
            matches Ok((Some(_), h1)) && h1.len() == heap.len() + 1
            && (h1.last() matches Obj::Str(t) && t.len() == e - b
                && forall|j: int| 0 <= j < e - b ==> t[j] == s[b + j]),
        string_spec(heap, StringMethod::SubstringRange, seq![Value::Reference(r), Value::Int(0), Value::Int(b)])
            matches Ok((Some(_), h1)) && (h1.last() matches Obj::Str(t1)
            && string_spec(heap, StringMethod::Substring, seq![Value::Reference(r), Value::Int(b)])
                matches Ok((Some(_), h2)) && (h2.last() matches Obj::Str(t2) && t1 + t2 == s)),
{
    assert(s.subrange(0, b as int) + s.subrange(b as int, s.len() as int) =~= s);
}

/// `equals` holds exactly between equal texts: a string equals another
/// string object when they hold the same characters.
pub proof fn law_string_equals(heap: Seq<Obj>, ra: Reference, rb: Reference, a: Seq<char>, b: Seq<char>)
    requires
        deref(heap, ra) == Some(Obj::Str(a)),
        deref(heap, rb) == Some(Obj::Str(b)),
        !(ra is Null),
        !(rb is Null),
    ensures
        string_spec(heap, StringMethod::Equals, seq![Value::Reference(ra), Value::Reference(rb)])
            == NativeResult::Ok((Some(Value::Int(if a == b { 1i32 } else { 0i32 })), heap)),
{
}

proof fn lemma_trim_start_shape(s: Seq<char>, i: int)
    requires
        0 <= i <= s.len(),
    ensures
        i <= trim_start(s, i) <= s.len(),
        forall|k: int| i <= k < trim_start(s, i) ==> is_white(s[k]),
        trim_start(s, i) < s.len() ==> !is_white(s[trim_start(s, i)]),
    decreases s.len() - i,
{
    if i < s.len() && is_white(s[i]) {
        lemma_trim_start_shape(s, i + 1);
    }
}

proof fn lemma_trim_end_shape(s: Seq<char>, lo: int, j: int)
    requires
        0 <= lo <= j <= s.len(),
    ensures
        lo <= trim_end(s, lo, j) <= j,
        forall|k: int| trim_end(s, lo, j) <= k < j ==> is_white(s[k]),
        trim_end(s, lo, j) > lo ==> !is_white(s[trim_end(s, lo, j) - 1]),
    decreases j - lo,
{
    if j > lo && is_white(s[j - 1]) {
        lemma_trim_end_shape(s, lo, j - 1);
    }
}

/// `trim` removes exactly the leading and trailing whitespace: its result
/// is the piece `s[a..b]` of the string, everything before `a` and from `b`
/// on is whitespace, and a non-empty result neither starts nor ends with
/// whitespace.
pub proof fn law_trim_removes_outer_whitespace(s: Seq<char>)
    ensures
        exists|a: int, b: int| {
            &&& 0 <= a <= b <= s.len()
            &&& trimmed(s) == s.subrange(a, b)
            &&& forall|k: int| 0 <= k < a ==> is_white(#[trigger] s[k])
            &&& forall|k: int| b <= k < s.len() ==> is_white(#[trigger] s[k])
            &&& a < b ==> !is_white(s[a]) && !is_white(s[b - 1])
        },
{
    lemma_trim_start_shape(s, 0);
    let a = trim_start(s, 0);
    lemma_trim_end_shape(s, a, s.len() as int);
    let b = trim_end(s, a, s.len() as int);
    if a < b {
        assert(a < s.len());
    }
    assert(trimmed(s) == s.subrange(a, b));
}

/// `hashCode` is Java's polynomial hash: the empty string hashes to 0, and
/// appending a character `c` to a string multiplies its hash by 31 and adds
/// `c`, wrapping to 32 bits.
pub proof fn law_string_hash_code(heap: Seq<Obj>, rs: Reference, rc: Reference, s: Seq<char>, c: char)
    requires
        deref(heap, rs) == Some(Obj::Str(s)),
        deref(heap, rc) == Some(Obj::Str(s.push(c))),
        !(rs is Null),
        !(rc is Null),
    ensures
        string_hash(Seq::empty()) == 0,
        string_spec(heap, StringMethod::HashCode, seq![Value::Reference(rs)]) matches Ok((Some(Value::Int(h)), _))
            && string_spec(heap, StringMethod::HashCode, seq![Value::Reference(rc)])
                == NativeResult::Ok((Some(Value::Int(h.wrapping_mul(31).wrapping_add(c as u32 as i32))), heap)),
{
    assert(s.push(c).drop_last() =~= s);
}

} // verus!
