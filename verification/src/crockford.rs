//! The Crockford base32 text of a 128-bit ULID value: 26 digits, most
//! significant first, over the alphabet `0-9 A-Z` without `I`, `L`, `O` and
//! `U`. Reading accepts either case and keeps the low 128 bits.

use vstd::prelude::*;

verus! {

/// The character written for the digit `d`, `0 <= d < 32`.
pub open spec fn crockford_digit(d: int) -> char {
    if d < 10 {
        (48 + d) as char
    } else if d < 18 {
        (65 + (d - 10)) as char
    } else if d < 20 {
        (74 + (d - 18)) as char
    } else if d < 22 {
        (77 + (d - 20)) as char
    } else if d < 27 {
        (80 + (d - 22)) as char
    } else {
        (86 + (d - 27)) as char
    }
}

/// The digit an upper-case character stands for, if any.
pub open spec fn upper_digit_value(c: int) -> Option<int> {
    if 48 <= c <= 57 {
        Some(c - 48)
    } else if 65 <= c <= 72 {
        Some(c - 65 + 10)
    } else if 74 <= c <= 75 {
        Some(c - 74 + 18)
    } else if 77 <= c <= 78 {
        Some(c - 77 + 20)
    } else if 80 <= c <= 84 {
        Some(c - 80 + 22)
    } else if 86 <= c <= 90 {
        Some(c - 86 + 27)
    } else {
        None
    }
}

/// The digit a character stands for, either case, if any.
pub open spec fn crockford_value(c: char) -> Option<int> {
    let n = c as int;
    if 97 <= n <= 122 {
        upper_digit_value(n - 32)
    } else {
        upper_digit_value(n)
    }
}

/// The last `count` base32 digits of `n`, most significant first.
pub open spec fn base32_digits(n: nat, count: nat) -> Seq<char>
    decreases count,
{
    if count == 0 {
        Seq::empty()
    } else {
        base32_digits(n / 32, (count - 1) as nat).push(crockford_digit((n % 32) as int))
    }
}

/// The number a digit string stands for, if every character is a digit.
pub open spec fn base32_value(s: Seq<char>) -> Option<nat>
    decreases s.len(),
{
    if s.len() == 0 {
        Some(0)
    } else {
        match (base32_value(s.drop_last()), crockford_value(s.last())) {
            (Some(high), Some(d)) => Some(high * 32 + d as nat),
            _ => None,
        }
    }
}

/// `32` to the power `count`.
pub open spec fn pow32(count: nat) -> nat
    decreases count,
{
    if count == 0 {
        1
    } else {
        32 * pow32((count - 1) as nat)
    }
}

/// Each digit is read back as itself.
pub proof fn lemma_digit_round_trip(d: int)
    requires
        0 <= d < 32,
    ensures
        crockford_value(crockford_digit(d)) == Some(d),
{
}

/// The digit string of `count` digits has `count` characters.
pub proof fn lemma_digits_len(n: nat, count: nat)
    ensures
        base32_digits(n, count).len() == count,
    decreases count,
{
    if count > 0 {
        lemma_digits_len(n / 32, (count - 1) as nat);
    }
}

/// A number below `32^count` is read back from its `count` digits.
pub proof fn lemma_digits_round_trip(n: nat, count: nat)
    requires
        n < pow32(count),
    ensures
        base32_value(base32_digits(n, count)) == Some(n),
    decreases count,
{
    if count == 0 {
    } else {
        let p = pow32((count - 1) as nat);
        assert(n / 32 < p) by (nonlinear_arith)
            requires
                n < 32 * p,
        ;
        lemma_digits_round_trip(n / 32, (count - 1) as nat);
        lemma_digit_round_trip((n % 32) as int);
        let s = base32_digits(n, count);
        assert(s.drop_last() =~= base32_digits(n / 32, (count - 1) as nat));
        assert(n == (n / 32) * 32 + n % 32) by (nonlinear_arith);
    }
}

} // verus!
