//! Operations on Java string contents (`Seq<char>`): searching, trimming,
//! comparing, hashing and number parsing, as the `java.lang.String`,
//! `Integer` and `Long` natives use them.

use vstd::prelude::*;

verus! {

broadcast use vstd::seq_lib::group_seq_properties;

/// `String.hashCode`: `31 * h + c` over the characters, wrapping.
pub open spec fn string_hash(s: Seq<char>) -> i32
    decreases s.len(),
{
    if s.len() == 0 {
        0
    } else {
        string_hash(s.drop_last()).wrapping_mul(31).wrapping_add(s.last() as u32 as i32)
    }
}

pub fn hash_chars(s: &Vec<char>) -> (h: i32)
    ensures
        h == string_hash(s@),
{
    let mut h: i32 = 0;
    let mut i: usize = 0;
    while i < s.len()
        invariant
            i <= s@.len(),
            h == string_hash(s@.subrange(0, i as int)),
        decreases s@.len() - i,
    {
        assert(s@.subrange(0, i + 1).drop_last() =~= s@.subrange(0, i as int));
        h = h.wrapping_mul(31).wrapping_add(s[i] as u32 as i32);
        i = i + 1;
    }
    assert(s@.subrange(0, s@.len() as int) =~= s@);
    h
}

/// The number of UTF-8 bytes that encode a character.
pub open spec fn utf8_width(c: char) -> nat {
    let u = c as u32;
    if u < 0x80 {
        1
    } else if u < 0x800 {
        2
    } else if u < 0x10000 {
        3
    } else {
        4
    }
}

/// The UTF-8 length of a string, in bytes.
pub open spec fn utf8_len(s: Seq<char>) -> nat
    decreases s.len(),
{
    if s.len() == 0 {
        0
    } else {
        utf8_len(s.drop_last()) + utf8_width(s.last())
    }
}

/// The UTF-8 length in bytes (the scale of the regex match offsets).
pub fn utf8_length(s: &Vec<char>) -> (n: u128)
    ensures
        n == utf8_len(s@),
{
    let mut n: u128 = 0;
    let mut i: usize = 0;
    while i < s.len()
        invariant
            i <= s@.len(),
            n == utf8_len(s@.subrange(0, i as int)),
            n <= 4 * i,
        decreases s@.len() - i,
    {
        assert(s@.subrange(0, i + 1).drop_last() =~= s@.subrange(0, i as int));
        let u = s[i] as u32;
        let w: u128 = if u < 0x80 {
            1
        } else if u < 0x800 {
            2
        } else if u < 0x10000 {
            3
        } else {
            4
        };
        n = n + w;
        i = i + 1;
    }
    assert(s@.subrange(0, s@.len() as int) =~= s@);
    n
}

/// The number of UTF-16 code units that encode a character.
pub open spec fn utf16_width(c: char) -> nat {
    if (c as u32) < 0x10000 {
        1
    } else {
        2
    }
}

/// The UTF-16 length of a string: what Java's `String.length` counts.
pub open spec fn utf16_len(s: Seq<char>) -> nat
    decreases s.len(),
{
    if s.len() == 0 {
        0
    } else {
        utf16_len(s.drop_last()) + utf16_width(s.last())
    }
}

/// The UTF-16 length in code units.
pub fn utf16_length(s: &Vec<char>) -> (n: u128)
    ensures
        n == utf16_len(s@),
{
    let mut n: u128 = 0;
    let mut i: usize = 0;
    while i < s.len()
        invariant
            i <= s@.len(),
            n == utf16_len(s@.subrange(0, i as int)),
            n <= 2 * i,
        decreases s@.len() - i,
    {
        assert(s@.subrange(0, i + 1).drop_last() =~= s@.subrange(0, i as int));
        let w: u128 = if (s[i] as u32) < 0x10000 {
            1
        } else {
            2
        };
        n = n + w;
        i = i + 1;
    }
    assert(s@.subrange(0, s@.len() as int) =~= s@);
    n
}

/// The first position at or after `from` where `needle` occurs, or -1.
pub open spec fn find_from(hay: Seq<char>, needle: Seq<char>, from: int) -> int
    decreases hay.len() + 1 - from,
{
    if from < 0 || from + needle.len() > hay.len() {
        -1
    } else if hay.subrange(from, from + needle.len()) == needle {
        from
    } else {
        find_from(hay, needle, from + 1)
    }
}

/// The first position of `needle` in `hay`, or -1.
pub open spec fn index_of(hay: Seq<char>, needle: Seq<char>) -> int {
    find_from(hay, needle, 0)
}

/// Whether `needle` occurs at position `at` of `hay`.
fn occurs_at(hay: &Vec<char>, needle: &Vec<char>, at: usize) -> (res: bool)
    requires
        at + needle@.len() <= hay@.len(),
    ensures
        res == (hay@.subrange(at as int, at + needle@.len()) == needle@),
{
    let mut k: usize = 0;
    while k < needle.len()
        invariant
            at + needle@.len() <= hay@.len(),
            at + needle.len() <= hay.len(),
            k <= needle@.len(),
            forall|j: int| 0 <= j < k ==> hay@[at + j] == needle@[j],
        decreases needle@.len() - k,
    {
        if hay[at + k] != needle[k] {
            assert(hay@.subrange(at as int, at + needle@.len())[k as int] != needle@[k as int]);
            return false;
        }
        k = k + 1;
    }
    assert(hay@.subrange(at as int, at + needle@.len()) =~= needle@);
    true
}

/// `String.indexOf(String)`, in characters: the first position, or `None`.
pub fn index_of_chars(hay: &Vec<char>, needle: &Vec<char>) -> (res: Option<usize>)
    ensures
        match res {
            Some(p) => index_of(hay@, needle@) == p as int,
            None => index_of(hay@, needle@) == -1,
        },
{
    if needle.len() > hay.len() {
        return None;
    }
    if needle.len() == 0 {
        assert(hay@.subrange(0, 0) =~= needle@);
        return Some(0);
    }
    let last = hay.len() - needle.len();
    let mut at: usize = 0;
    while at <= last
        invariant
            last + needle@.len() == hay@.len(),
            last + needle.len() == hay.len(),
            needle.len() >= 1,
            at <= last + 1,
            find_from(hay@, needle@, 0) == find_from(hay@, needle@, at as int),
        decreases last + 1 - at,
    {
        if occurs_at(hay, needle, at) {
            return Some(at);
        }
        at = at + 1;
    }
    None
}

/// `String.indexOf(int)`: the first position of the character, or -1.
pub open spec fn index_of_char(s: Seq<char>, c: char) -> int {
    index_of(s, seq![c])
}

pub fn index_of_char_in(s: &Vec<char>, c: char) -> (res: Option<usize>)
    ensures
        match res {
            Some(p) => index_of_char(s@, c) == p as int,
            None => index_of_char(s@, c) == -1,
        },
{
    let mut needle = Vec::new();
    needle.push(c);
    index_of_chars(s, &needle)
}

/// `startsWith`.
pub open spec fn starts_with(s: Seq<char>, p: Seq<char>) -> bool {
    p.len() <= s.len() && s.subrange(0, p.len() as int) == p
}

/// `endsWith`.
pub open spec fn ends_with(s: Seq<char>, p: Seq<char>) -> bool {
    p.len() <= s.len() && s.subrange(s.len() - p.len(), s.len() as int) == p
}

pub fn starts_with_chars(s: &Vec<char>, p: &Vec<char>) -> (res: bool)
    ensures
        res == starts_with(s@, p@),
{
    if p.len() > s.len() {
        return false;
    }
    occurs_at(s, p, 0)
}

pub fn ends_with_chars(s: &Vec<char>, p: &Vec<char>) -> (res: bool)
    ensures
        res == ends_with(s@, p@),
{
    if p.len() > s.len() {
        return false;
    }
    occurs_at(s, p, s.len() - p.len())
}

/// Every occurrence of `from` replaced by `to`.
pub open spec fn replace_char(s: Seq<char>, from: char, to: char) -> Seq<char> {
    s.map_values(|c: char| if c == from { to } else { c })
}

pub fn replace_chars(s: &Vec<char>, from: char, to: char) -> (res: Vec<char>)
    ensures
        res@ == replace_char(s@, from, to),
{
    let mut res = Vec::new();
    let mut i: usize = 0;
    while i < s.len()
        invariant
            i <= s@.len(),
            res@ == replace_char(s@.subrange(0, i as int), from, to),
        decreases s@.len() - i,
    {
        let c = s[i];
        res.push(if c == from { to } else { c });
        i = i + 1;
        assert(res@ =~= replace_char(s@.subrange(0, i as int), from, to));
    }
    assert(s@.subrange(0, s@.len() as int) =~= s@);
    res
}

/// Lexicographic comparison by code point: -1, 0 or 1.
pub open spec fn compare_chars(a: Seq<char>, b: Seq<char>) -> i32
    decreases a.len(),
{
    if a.len() == 0 && b.len() == 0 {
        0i32
    } else if a.len() == 0 {
        -1i32
    } else if b.len() == 0 {
        1i32
    } else if (a[0] as u32) < (b[0] as u32) {
        -1i32
    } else if (a[0] as u32) > (b[0] as u32) {
        1i32
    } else {
        compare_chars(a.drop_first(), b.drop_first())
    }
}

pub fn compare_char_seqs(a: &Vec<char>, b: &Vec<char>) -> (res: i32)
    ensures
        res == compare_chars(a@, b@),
{
    let mut i: usize = 0;
    assert(a@.subrange(0, a@.len() as int) =~= a@);
    assert(b@.subrange(0, b@.len() as int) =~= b@);
    while i < a.len() && i < b.len()
        invariant
            i <= a@.len(),
            i <= b@.len(),
            compare_chars(a@, b@) == compare_chars(a@.subrange(i as int, a@.len() as int), b@.subrange(i as int, b@.len() as int)),
        decreases a@.len() - i,
    {
        let x = a[i] as u32;
        let y = b[i] as u32;
        let ghost sa = a@.subrange(i as int, a@.len() as int);
        let ghost sb = b@.subrange(i as int, b@.len() as int);
        if x < y {
            return -1;
        }
        if x > y {
            return 1;
        }
        assert(sa.drop_first() =~= a@.subrange(i + 1, a@.len() as int));
        assert(sb.drop_first() =~= b@.subrange(i + 1, b@.len() as int));
        i = i + 1;
    }
    if a.len() == b.len() {
        0
    } else if i == a.len() {
        -1
    } else {
        1
    }
}

/// A character that Rust's `char::is_whitespace` accepts (the Unicode
/// `White_Space` property).
pub open spec fn is_white(c: char) -> bool {
    let u = c as u32;
    (0x09 <= u <= 0x0d) || u == 0x20 || u == 0x85 || u == 0xa0 || u == 0x1680 || (0x2000 <= u
        <= 0x200a) || u == 0x2028 || u == 0x2029 || u == 0x202f || u == 0x205f || u == 0x3000
}

pub fn is_whitespace(c: char) -> (res: bool)
    ensures
        res == is_white(c),
{
    let u = c as u32;
    (0x09 <= u && u <= 0x0d) || u == 0x20 || u == 0x85 || u == 0xa0 || u == 0x1680 || (0x2000 <= u
        && u <= 0x200a) || u == 0x2028 || u == 0x2029 || u == 0x202f || u == 0x205f || u == 0x3000
}

/// The first position from `i` on that is not whitespace.
pub open spec fn trim_start(s: Seq<char>, i: int) -> int
    decreases s.len() - i,
{
    if i >= s.len() {
        s.len() as int
    } else if is_white(s[i]) {
        trim_start(s, i + 1)
    } else {
        i
    }
}

/// The end of the text before trailing whitespace, looking back from `j`.
pub open spec fn trim_end(s: Seq<char>, lo: int, j: int) -> int
    decreases j - lo,
{
    if j <= lo {
        lo
    } else if is_white(s[j - 1]) {
        trim_end(s, lo, j - 1)
    } else {
        j
    }
}

/// `trim`: leading and trailing whitespace removed.
pub open spec fn trimmed(s: Seq<char>) -> Seq<char> {
    let a = trim_start(s, 0);
    s.subrange(a, trim_end(s, a, s.len() as int))
}

pub proof fn lemma_trim_bounds(s: Seq<char>, i: int)
    requires
        0 <= i <= s.len(),
    ensures
        i <= trim_start(s, i) <= s.len(),
    decreases s.len() - i,
{
    if i < s.len() && is_white(s[i]) {
        lemma_trim_bounds(s, i + 1);
    }
}

pub proof fn lemma_trim_end_bounds(s: Seq<char>, lo: int, j: int)
    requires
        0 <= lo <= j <= s.len(),
    ensures
        lo <= trim_end(s, lo, j) <= j,
    decreases j - lo,
{
    if j > lo && is_white(s[j - 1]) {
        lemma_trim_end_bounds(s, lo, j - 1);
    }
}

pub fn trim_chars(s: &Vec<char>) -> (res: Vec<char>)
    ensures
        res@ == trimmed(s@),
{
    let mut a: usize = 0;
    while a < s.len() && is_whitespace(s[a])
        invariant
            a <= s@.len(),
            trim_start(s@, 0) == trim_start(s@, a as int),
        decreases s@.len() - a,
    {
        a = a + 1;
    }
    let mut b: usize = s.len();
    while b > a && is_whitespace(s[b - 1])
        invariant
            a <= b <= s@.len(),
            trim_end(s@, a as int, s@.len() as int) == trim_end(s@, a as int, b as int),
        decreases b - a,
    {
        b = b - 1;
    }
    crate::descriptors::sub_chars(s, a, b)
}

/// The value of an ASCII digit or letter in bases up to 36.
pub open spec fn digit_value(c: char) -> int {
    let u = c as u32;
    if 48 <= u <= 57 {
        u - 48
    } else if 97 <= u <= 122 {
        u - 87
    } else if 65 <= u <= 90 {
        u - 55
    } else {
        99
    }
}

/// The value of a digit string in a radix, if every character is a digit of it.
pub open spec fn digits_value(s: Seq<char>, radix: int) -> Option<int>
    decreases s.len(),
{
    if s.len() == 0 {
        Some(0)
    } else {
        match digits_value(s.drop_last(), radix) {
            None => None,
            Some(v) => if digit_value(s.last()) < radix {
                Some(v * radix + digit_value(s.last()))
            } else {
                None
            },
        }
    }
}

/// Rust's integer parsing (`str::parse`, `from_str_radix`): an optional
/// `+` or `-`, then at least one digit of the radix; the value must lie in
/// `[lo, hi]`.
pub open spec fn parse_integer(s: Seq<char>, radix: int, lo: int, hi: int) -> Option<int> {
    let neg = s.len() > 0 && s[0] == '-';
    let plus = s.len() > 0 && s[0] == '+';
    let body = if neg || plus { s.drop_first() } else { s };
    if body.len() == 0 {
        None
    } else {
        match digits_value(body, radix) {
            None => None,
            Some(v) => {
                let x = if neg { -v } else { v };
                if lo <= x <= hi { Some(x) } else { None }
            },
        }
    }
}

pub proof fn lemma_digits_value_nonneg(s: Seq<char>, radix: int)
    requires
        radix >= 2,
    ensures
        digits_value(s, radix) matches Some(v) ==> v >= 0,
    decreases s.len(),
{
    if s.len() > 0 {
        lemma_digits_value_nonneg(s.drop_last(), radix);
        if let Some(v) = digits_value(s.drop_last(), radix) {
            assert(v * radix >= 0) by (nonlinear_arith) requires v >= 0, radix >= 2;
        }
    }
}

/// Adding digits never makes the value smaller.
pub proof fn lemma_digits_grow(s: Seq<char>, radix: int, k: int)
    requires
        radix >= 2,
        0 <= k <= s.len(),
    ensures
        digits_value(s.subrange(0, k), radix) matches Some(a) ==> (digits_value(s, radix) matches Some(b) ==> b >= a),
    decreases s.len(),
{
    if k < s.len() {
        let t = s.drop_last();
        lemma_digits_grow(t, radix, k);
        assert(t.subrange(0, k) =~= s.subrange(0, k));
        lemma_digits_value_nonneg(t, radix);
        if let Some(b2) = digits_value(t, radix) {
            if digit_value(s.last()) < radix {
                let d = digit_value(s.last());
                assert(d >= 0);
                assert(b2 * radix + d >= b2) by (nonlinear_arith)
                    requires b2 >= 0, radix >= 2, d >= 0;
            }
        }
    } else {
        assert(s.subrange(0, k) =~= s);
    }
}

/// Parses a signed integer as Rust does, within `[lo, hi]`.
#[verifier::spinoff_prover]
#[verifier::rlimit(40)]
pub fn parse_in_range(s: &Vec<char>, radix: u32, lo: i64, hi: i64) -> (res: Option<i64>)
    requires
        2 <= radix <= 36,
        lo <= 0 <= hi,
    ensures
        match res {
            Some(v) => parse_integer(s@, radix as int, lo as int, hi as int) == Some(v as int),
            None => parse_integer(s@, radix as int, lo as int, hi as int) is None,
        },
{
    let n = s.len();
    if n == 0 {
        return None;
    }
    let neg = s[0] == '-';
    let plus = s[0] == '+';
    let start: usize = if neg || plus { 1 } else { 0 };
    if start >= n {
        return None;
    }
    let ghost body = if neg || plus { s@.drop_first() } else { s@ };
    let limit: i128 = if neg { -(lo as i128) } else { hi as i128 };
    let mut v: i128 = 0;
    let mut i: usize = start;
    while i < n
        invariant
            start <= i <= n == s@.len(),
            n > 0,
            neg == (s@[0] == '-'),
            plus == (s@[0] == '+'),
            body == (if neg || plus { s@.drop_first() } else { s@ }),
            body == s@.subrange(start as int, n as int),
            2 <= radix <= 36,
            0 <= limit,
            limit == if neg { -lo } else { hi as int },
            lo <= 0 <= hi,
            0 <= v <= limit,
            digits_value(body.subrange(0, i - start), radix as int) == Some(v as int),
        decreases n - i,
    {
        let c = s[i];
        let u = c as u32;
        let d: i128 = if 48 <= u && u <= 57 {
            (u - 48) as i128
        } else if 97 <= u && u <= 122 {
            (u - 87) as i128
        } else if 65 <= u && u <= 90 {
            (u - 55) as i128
        } else {
            99
        };
        let ghost prefix = body.subrange(0, i + 1 - start);
        assert(prefix.drop_last() =~= body.subrange(0, i - start));
        assert(prefix.last() == c);
        if d >= radix as i128 {
            proof {
                assert(body[i - start] == c);
                assert(digit_value(c) == d);
                assert(digits_value(prefix, radix as int) is None);
                lemma_digits_none(body, radix as int, i + 1 - start);
                assert(digits_value(body, radix as int) is None);
            }
            return None;
        }
        if d > limit || v > (limit - d) / (radix as i128) {
            proof {
                let r = radix as int;
                if d > limit {
                    assert(v * r + d > limit) by (nonlinear_arith)
                        requires v >= 0, r >= 2, d > limit;
                } else {
                    let q = (limit - d) / r;
                    assert(v * r + d > limit) by (nonlinear_arith)
                        requires v > q, q == (limit - d) / r, r >= 2, d >= 0, limit - d >= 0;
                }
                lemma_digits_grow(body, radix as int, i + 1 - start);
                lemma_digits_value_nonneg(body, radix as int);
            }
            return None;
        }
        proof {
            let r = radix as int;
            let q = (limit - d) / r;
            assert(v * r + d <= limit) by (nonlinear_arith)
                requires v <= q, q == (limit - d) / r, r >= 2, d >= 0, limit - d >= 0;
        }
        v = v * (radix as i128) + d;
        i = i + 1;
    }
    assert(body.subrange(0, n - start) =~= body);
    if neg {
        Some((-v) as i64)
    } else {
        Some(v as i64)
    }
}

/// Once a prefix has an invalid digit the whole string has none.
pub proof fn lemma_digits_none(s: Seq<char>, radix: int, k: int)
    requires
        0 <= k <= s.len(),
        digits_value(s.subrange(0, k), radix) is None,
    ensures
        digits_value(s, radix) is None,
    decreases s.len() - k,
{
    if k < s.len() {
        assert(s.subrange(0, k + 1).drop_last() =~= s.subrange(0, k));
        lemma_digits_none(s, radix, k + 1);
    } else {
        assert(s.subrange(0, k) =~= s);
    }
}

} // verus!
