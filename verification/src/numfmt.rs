//! Integers written out as digit strings, in the forms Java's `toString`,
//! `toHexString`, `toOctalString` and `toBinaryString` produce.

use vstd::prelude::*;

verus! {

/// The digit character for a value below 36: `0`-`9`, then `a`-`z`.
pub open spec fn digit_char(d: nat) -> char {
    if d < 10 {
        (d + 48) as char
    } else {
        (d - 10 + 97) as char
    }
}

/// The digits of a natural number in the given radix, most significant
/// first, without leading zeros (zero is the single digit `0`).
pub open spec fn radix_digits(n: nat, radix: nat) -> Seq<char>
    recommends
        2 <= radix <= 36,
    decreases n,
{
    if radix < 2 || n < radix {
        seq![digit_char(n % 36)]
    } else {
        proof {
            vstd::arithmetic::div_mod::lemma_div_decreases(n as int, radix as int);
        }
        radix_digits(n / radix, radix).push(digit_char(n % radix))
    }
}

/// Decimal notation of an integer, with a leading `-` for negatives.
pub open spec fn decimal(i: int) -> Seq<char> {
    if i < 0 {
        seq!['-'].add(radix_digits((-i) as nat, 10))
    } else {
        radix_digits(i as nat, 10)
    }
}

/// The digit character for `d < 36`.
pub fn digit(d: u64) -> (c: char)
    requires
        d < 36,
    ensures
        c == digit_char(d as nat),
{
    if d < 10 {
        ((d as u8) + 48) as char
    } else {
        ((d as u8) - 10 + 97) as char
    }
}

/// The digits of `n` in `radix`, most significant first.
pub fn unsigned_digits(n: u64, radix: u64) -> (res: Vec<char>)
    requires
        2 <= radix <= 36,
    ensures
        res@ == radix_digits(n as nat, radix as nat),
    decreases n,
{
    if n < radix {
        let mut v = Vec::new();
        v.push(digit(n % 36));
        v
    } else {
        proof {
            vstd::arithmetic::div_mod::lemma_div_decreases(n as int, radix as int);
        }
        let mut v = unsigned_digits(n / radix, radix);
        v.push(digit(n % radix));
        v
    }
}

/// Decimal notation of an `i64` (Java's `Long.toString`).
pub fn long_to_decimal(i: i64) -> (res: Vec<char>)
    ensures
        res@ == decimal(i as int),
{
    if i < 0 {
        let mag: u64 = if i == i64::MIN {
            9223372036854775808u64
        } else {
            (-i) as u64
        };
        let digits = unsigned_digits(mag, 10);
        let mut res = Vec::new();
        res.push('-');
        let mut k: usize = 0;
        while k < digits.len()
            invariant
                res@ == seq!['-'].add(digits@.subrange(0, k as int)),
                k <= digits@.len(),
            decreases digits@.len() - k,
        {
            res.push(digits[k]);
            k = k + 1;
            assert(res@ =~= seq!['-'].add(digits@.subrange(0, k as int)));
        }
        assert(digits@.subrange(0, digits@.len() as int) =~= digits@);
        res
    } else {
        unsigned_digits(i as u64, 10)
    }
}

/// Decimal notation of an `i32` (Java's `Integer.toString`).
pub fn int_to_decimal(i: i32) -> (res: Vec<char>)
    ensures
        res@ == decimal(i as int),
{
    long_to_decimal(i as i64)
}

} // verus!
