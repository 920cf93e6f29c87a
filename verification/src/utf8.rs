//! Byte offsets into the UTF-8 encoding of a character sequence, which is
//! how the regex engine reports positions.

use vstd::prelude::*;
use crate::strings::{utf8_len, utf8_width};

verus! {

broadcast use vstd::seq_lib::group_seq_properties;

/// The number of leading characters whose encoding takes exactly `b`
/// bytes, or -1 when `b` falls inside a character or past the end.
pub open spec fn index_of_byte(t: Seq<char>, b: int) -> int
    decreases t.len(),
{
    if b == 0 {
        0
    } else if t.len() == 0 || b < 0 {
        -1
    } else {
        let r = index_of_byte(t.drop_first(), b - utf8_width(t[0]));
        if r < 0 {
            -1
        } else {
            r + 1
        }
    }
}

/// Whether `b` is a byte offset at which the encoding can be cut.
pub open spec fn is_boundary(t: Seq<char>, b: int) -> bool {
    index_of_byte(t, b) >= 0
}

/// Every character takes at least one byte.
pub proof fn lemma_width_pos(c: char)
    ensures
        1 <= utf8_width(c) <= 4,
{
}

/// The encoding of a concatenation is the concatenation of encodings.
pub proof fn lemma_utf8_len_add(a: Seq<char>, b: Seq<char>)
    ensures
        utf8_len(a + b) == utf8_len(a) + utf8_len(b),
    decreases b.len(),
{
    if b.len() > 0 {
        lemma_utf8_len_add(a, b.drop_last());
        assert((a + b).drop_last() =~= a + b.drop_last());
    } else {
        assert(a + b =~= a);
    }
}

/// The encoding length seen from the front.
pub proof fn lemma_utf8_len_first(t: Seq<char>)
    requires
        t.len() > 0,
    ensures
        utf8_len(t) == utf8_width(t[0]) + utf8_len(t.drop_first()),
{
    lemma_utf8_len_add(seq![t[0]], t.drop_first());
    assert(seq![t[0]] + t.drop_first() =~= t);
    let one = seq![t[0]];
    assert(one.drop_last() =~= Seq::<char>::empty());
    assert(utf8_len(one.drop_last()) == 0);
    assert(one.last() == t[0]);
    assert(utf8_len(one) == utf8_width(t[0]));
}

/// A boundary offset counts the bytes of the characters before it.
pub proof fn lemma_index_of_byte(t: Seq<char>, b: int)
    requires
        index_of_byte(t, b) >= 0,
    ensures
        index_of_byte(t, b) <= t.len(),
        utf8_len(t.subrange(0, index_of_byte(t, b))) == b,
        0 <= b <= utf8_len(t),
    decreases t.len(),
{
    if b != 0 {
        let d = t.drop_first();
        lemma_index_of_byte(d, b - utf8_width(t[0]));
        let r = index_of_byte(d, b - utf8_width(t[0]));
        lemma_utf8_len_first(t.subrange(0, r + 1));
        assert(t.subrange(0, r + 1).drop_first() =~= d.subrange(0, r));
        lemma_utf8_len_first(t);
    } else {
        assert(t.subrange(0, 0) =~= Seq::<char>::empty());
        lemma_utf8_len_nonneg(t);
    }
}

proof fn lemma_utf8_len_nonneg(t: Seq<char>)
    ensures
        utf8_len(t) >= 0,
{
}

/// The byte offset of character position `k` is a boundary at `k`.
pub proof fn lemma_prefix_boundary(t: Seq<char>, k: int)
    requires
        0 <= k <= t.len(),
    ensures
        index_of_byte(t, utf8_len(t.subrange(0, k)) as int) == k,
    decreases k,
{
    if k > 0 {
        let d = t.drop_first();
        lemma_prefix_boundary(d, k - 1);
        lemma_utf8_len_first(t.subrange(0, k));
        assert(t.subrange(0, k).drop_first() =~= d.subrange(0, k - 1));
        lemma_width_pos(t[0]);
    } else {
        assert(t.subrange(0, 0) =~= Seq::<char>::empty());
    }
}

/// Longer prefixes take more bytes.
pub proof fn lemma_prefix_monotone(t: Seq<char>, b: int, a: int)
    requires
        0 <= b <= a <= t.len(),
    ensures
        utf8_len(t.subrange(0, b)) <= utf8_len(t.subrange(0, a)),
{
    lemma_utf8_len_add(t.subrange(0, b), t.subrange(b, a));
    assert(t.subrange(0, b) + t.subrange(b, a) =~= t.subrange(0, a));
    lemma_utf8_len_nonneg(t.subrange(b, a));
}

/// The character position of a byte offset, when it is a boundary.
pub fn char_index_of_byte(t: &Vec<char>, b: usize) -> (res: Option<usize>)
    ensures
        match res {
            Some(k) => index_of_byte(t@, b as int) == k as int,
            None => index_of_byte(t@, b as int) < 0,
        },
{
    let mut k: usize = 0;
    let mut acc: usize = 0;
    assert(t@.subrange(0, t@.len() as int) =~= t@);
    assert(t@.subrange(0, 0) =~= Seq::<char>::empty());
    while acc < b && k < t.len()
        invariant
            k <= t@.len(),
            acc <= b,
            acc == utf8_len(t@.subrange(0, k as int)),
            index_of_byte(t@, b as int) == (if index_of_byte(t@.subrange(k as int, t@.len() as int), b - acc) < 0 {
                -1
            } else {
                k + index_of_byte(t@.subrange(k as int, t@.len() as int), b - acc)
            }),
        decreases t@.len() - k,
    {
        let u = t[k] as u32;
        let w: usize = if u < 0x80 {
            1
        } else if u < 0x800 {
            2
        } else if u < 0x10000 {
            3
        } else {
            4
        };
        proof {
            let rest = t@.subrange(k as int, t@.len() as int);
            assert(rest[0] == t@[k as int]);
            assert(rest.drop_first() =~= t@.subrange(k + 1, t@.len() as int));
            assert(t@.subrange(0, k + 1).drop_last() =~= t@.subrange(0, k as int));
            assert(w == utf8_width(rest[0]));
            assert(t@.subrange(0, k + 1).last() == rest[0]);
        }
        if w > b - acc {
            proof {
                let rest = t@.subrange(k as int, t@.len() as int);
                assert(index_of_byte(rest.drop_first(), b - acc - w) < 0) by {
                    lemma_negative_offset(rest.drop_first(), b - acc - w);
                }
            }
            return None;
        }
        acc = acc + w;
        k = k + 1;
    }
    if acc == b {
        proof {
            assert(index_of_byte(t@.subrange(k as int, t@.len() as int), 0) == 0);
        }
        Some(k)
    } else {
        proof {
            assert(t@.subrange(k as int, t@.len() as int).len() == 0);
        }
        None
    }
}

/// No prefix takes a negative number of bytes.
proof fn lemma_negative_offset(t: Seq<char>, b: int)
    requires
        b < 0,
    ensures
        index_of_byte(t, b) < 0,
{
}

/// The characters from a boundary on.
pub open spec fn suffix_at_byte(t: Seq<char>, b: int) -> Seq<char> {
    t.subrange(index_of_byte(t, b), t.len() as int)
}

/// The characters between two boundaries.
pub open spec fn slice_bytes(t: Seq<char>, b: int, e: int) -> Seq<char> {
    t.subrange(index_of_byte(t, b), index_of_byte(t, e))
}

/// A boundary in a suffix, shifted by the bytes before the suffix, is a
/// boundary of the whole.
pub proof fn lemma_boundary_shift(t: Seq<char>, k: int, s: int)
    requires
        0 <= k <= t.len(),
        index_of_byte(t.subrange(k, t.len() as int), s) >= 0,
    ensures
        index_of_byte(t, utf8_len(t.subrange(0, k)) + s) == k + index_of_byte(t.subrange(k, t.len() as int), s),
    decreases k,
{
    if k > 0 {
        let d = t.drop_first();
        assert(d.subrange(k - 1, d.len() as int) =~= t.subrange(k, t.len() as int));
        lemma_boundary_shift(d, k - 1, s);
        lemma_utf8_len_first(t.subrange(0, k));
        assert(t.subrange(0, k).drop_first() =~= d.subrange(0, k - 1));
        lemma_width_pos(t[0]);
        lemma_index_of_byte(t.subrange(k, t.len() as int), s);
        lemma_utf8_len_nonneg(d.subrange(0, k - 1));
    } else {
        assert(t.subrange(0, 0) =~= Seq::<char>::empty());
        assert(t.subrange(0, t.len() as int) =~= t);
    }
}

} // verus!
