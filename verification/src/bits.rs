//! Bit manipulation on 32-bit words, as `Integer.bitCount`, `reverse`,
//! `reverseBytes`, `highestOneBit` and `lowestOneBit` define it.

use vstd::prelude::*;
use vstd::arithmetic::power2::{pow2, lemma_pow2_unfold, lemma_pow2_pos};
use vstd::std_specs::bits::{u32_leading_zeros, u32_trailing_zeros, axiom_u32_leading_zeros, axiom_u32_trailing_zeros};

verus! {

/// The number of one bits.
pub open spec fn popcount(x: u32) -> nat
    decreases x,
{
    if x == 0 {
        0
    } else {
        (x % 2) as nat + popcount(x / 2)
    }
}

/// The low `n` bits of `x` in reverse order, as an `n`-bit number: bit 0
/// of `x` becomes bit `n - 1`.
pub open spec fn rev_bits(x: u32, n: nat) -> int
    decreases n,
{
    if n == 0 {
        0
    } else {
        (x % 2) * pow2((n - 1) as nat) + rev_bits(x / 2, (n - 1) as nat)
    }
}

/// The four bytes of a word in reverse order.
pub open spec fn swap_bytes(x: u32) -> u32 {
    ((x & 0xff) << 24u32) | (((x >> 8u32) & 0xff) << 16u32) | (((x >> 16u32) & 0xff) << 8u32) | (x
        >> 24u32)
}

/// The highest one bit alone, or 0.
pub open spec fn highest_one_bit(x: u32) -> u32 {
    if x == 0 {
        0
    } else {
        1u32 << ((31 - u32_leading_zeros(x)) as u32)
    }
}

/// The word with only its lowest one bit kept (0 for 0): the word and its
/// two's-complement negation.
pub open spec fn lowest_one_bit(x: u32) -> u32 {
    x & ((!x) as int + 1) as u32
}

/// `Integer.bitCount`.
pub fn bit_count(x: u32) -> (n: u32)
    ensures
        n == popcount(x),
{
    let mut v = x;
    let mut n: u32 = 0;
    proof {
        lemma_popcount_bound(x);
    }
    while v != 0
        invariant
            n + popcount(v) == popcount(x),
            popcount(x) <= 32,
        decreases v,
    {
        assert(v & 1 == v % 2) by (bit_vector);
        assert(v >> 1 == v / 2) by (bit_vector);
        n = n + (v & 1);
        v = v >> 1;
    }
    n
}

/// At most 32 bits are set.
pub proof fn lemma_popcount_bound(x: u32)
    ensures
        popcount(x) <= 32,
{
    vstd::arithmetic::power2::lemma2_to64();
    lemma_popcount_bits(x, 32);
}

/// A value below `2^k` has at most `k` one bits.
proof fn lemma_popcount_bits(x: u32, k: nat)
    requires
        x < pow2(k),
    ensures
        popcount(x) <= k,
    decreases k,
{
    if x != 0 {
        if k == 0 {
            vstd::arithmetic::power2::lemma2_to64();
        } else {
            lemma_pow2_unfold(k);
            lemma_popcount_bits(x / 2, (k - 1) as nat);
        }
    }
}

/// `Integer.reverse`.
pub fn reverse_bits(x: u32) -> (r: u32)
    ensures
        r as int == rev_bits(x, 32),
{
    let mut v = x;
    let mut r: u64 = 0;
    let mut i: u32 = 0;
    proof {
        vstd::arithmetic::power2::lemma2_to64();
    }
    while i < 32
        invariant
            i <= 32,
            r < pow2(i as nat),
            r * pow2((32 - i) as nat) + rev_bits(v, (32 - i) as nat) == rev_bits(x, 32),
            pow2(32) == 0x1_0000_0000,
            pow2(0) == 1,
        decreases 32 - i,
    {
        let ghost n: nat = (32 - i) as nat;
        assert(v & 1 == v % 2) by (bit_vector);
        assert(v >> 1 == v / 2) by (bit_vector);
        let b = (v & 1) as u64;
        proof {
            lemma_pow2_unfold(n);
            lemma_pow2_unfold((i + 1) as nat);
            lemma_pow2_pos((n - 1) as nat);
            let p = pow2((n - 1) as nat);
            vstd::arithmetic::power2::lemma_pow2_strictly_increases(i as nat, 32);
            assert(r * (2 * p) == (2 * r) * p) by (nonlinear_arith);
            assert((2 * r + b) * p == (2 * r) * p + b * p) by (nonlinear_arith);
            assert(r * pow2(i as nat) < 0x1_0000_0000 * 0x1_0000_0000) by (nonlinear_arith)
                requires r < pow2(i as nat), pow2(i as nat) <= 0x1_0000_0000;
        }
        r = 2 * r + b;
        v = v >> 1;
        i = i + 1;
    }
    proof {
        let p0 = pow2(0);
        assert(r * p0 == r) by (nonlinear_arith) requires p0 == 1;
        assert(rev_bits(v, 0) == 0);
    }
    r as u32
}

/// `Integer.reverseBytes`.
pub fn reverse_bytes(x: u32) -> (r: u32)
    ensures
        r == swap_bytes(x),
{
    ((x & 0xff) << 24u32) | (((x >> 8u32) & 0xff) << 16u32) | (((x >> 16u32) & 0xff) << 8u32) | (x
        >> 24u32)
}

/// `Integer.highestOneBit`.
pub fn highest_one(x: u32) -> (r: u32)
    ensures
        r == highest_one_bit(x),
{
    if x == 0 {
        0
    } else {
        let lz = x.leading_zeros();
        proof {
            axiom_u32_leading_zeros(x);
        }
        1u32 << (31 - lz)
    }
}

/// `Integer.lowestOneBit`.
pub fn lowest_one(x: u32) -> (r: u32)
    ensures
        r == lowest_one_bit(x),
        x != 0 ==> r == 1u32 << u32_trailing_zeros(x),
        x == 0 ==> r == 0,
{
    if x == 0 {
        assert(x & ((!x) as int + 1) as u32 == 0) by (bit_vector)
            requires x == 0u32;
        0
    } else {
        assert(!x < 0xffff_ffffu32) by (bit_vector)
            requires x != 0u32;
        let neg = !x + 1;
        let t = x.trailing_zeros();
        proof {
            axiom_u32_trailing_zeros(x);
            assert((x >> t) & 1u32 == 1u32);
            assert forall|j: u32| j < t implies #[trigger] ((x >> j) & 1u32) == 0u32 by {}
            lemma_lowest_bit(x, t);
        }
        x & neg
    }
}

/// Negating a word keeps its lowest one bit and flips every bit above it.
proof fn lemma_lowest_bit(x: u32, t: u32)
    requires
        t < 32,
        (x >> t) & 1u32 == 1u32,
        forall|j: u32| j < t ==> #[trigger] ((x >> j) & 1u32) == 0u32,
    ensures
        x & ((!x) as int + 1) as u32 == 1u32 << t,
{
    assert(x % (1u32 << t) == 0) by {
        lemma_low_zero(x, t);
    }
    assert((x >> t) & 1u32 == 1u32 && x % (1u32 << t) == 0 && t < 32 ==> x & ((!x) as int + 1) as u32
        == 1u32 << t) by (bit_vector);
}

/// If bits `0..t` are zero the word is a multiple of `2^t`.
proof fn lemma_low_zero(x: u32, t: u32)
    requires
        t < 32,
        forall|j: u32| j < t ==> #[trigger] ((x >> j) & 1u32) == 0u32,
    ensures
        x % (1u32 << t) == 0,
    decreases t,
{
    if t == 0 {
        assert(x % (1u32 << 0u32) == 0) by (bit_vector);
    } else {
        let s = (t - 1) as u32;
        assert((x >> s) & 1u32 == 0u32);
        lemma_low_zero(x, s);
        assert(x % (1u32 << s) == 0 && (x >> s) & 1u32 == 0u32 && s < 31 ==> x % (1u32 << ((s + 1) as u32)) == 0)
            by (bit_vector);
    }
}

} // verus!
