//! The decimal-digit arithmetic that prefix resolution rests on: powers of
//! ten, the number of digits in an integer, and the integer formed by the
//! first `k` digits of another.

use vstd::prelude::*;

verus! {

/// Ten raised to `e`: the weight of the decimal digit at position `e`.
pub open spec fn pow10(e: nat) -> nat
    decreases e,
{
    if e == 0 {
        1
    } else {
        10 * pow10((e - 1) as nat)
    }
}

/// The number of decimal digits of `n`. Zero is written with one digit.
pub open spec fn digit_count(n: nat) -> nat
    decreases n,
{
    if n < 10 {
        1
    } else {
        1 + digit_count(n / 10)
    }
}

/// The integer formed by the first `k` decimal digits of `n`: digit
/// truncation by integer division, not rounding.
pub open spec fn leading(n: nat, k: nat) -> nat
    recommends
        1 <= k <= digit_count(n),
{
    n / pow10((digit_count(n) - k) as nat)
}

/// Powers of ten are positive.
pub proof fn lemma_pow10_positive(e: nat)
    ensures
        pow10(e) >= 1,
    decreases e,
{
    if e > 0 {
        lemma_pow10_positive((e - 1) as nat);
    }
}

/// Powers of ten grow strictly with the exponent.
pub proof fn lemma_pow10_strictly_increases(e1: nat, e2: nat)
    requires
        e1 < e2,
    ensures
        pow10(e1) < pow10(e2),
    decreases e2,
{
    lemma_pow10_positive(e1);
    if e1 + 1 < e2 {
        lemma_pow10_strictly_increases(e1, (e2 - 1) as nat);
    }
}

/// Powers of ten grow with the exponent.
pub proof fn lemma_pow10_increases(e1: nat, e2: nat)
    requires
        e1 <= e2,
    ensures
        pow10(e1) <= pow10(e2),
{
    if e1 < e2 {
        lemma_pow10_strictly_increases(e1, e2);
    }
}

/// A number with `d` digits lies between `pow10(d - 1)` and `pow10(d)`.
pub proof fn lemma_digit_count_bounds(n: nat)
    ensures
        n < pow10(digit_count(n)),
        n >= 1 ==> pow10((digit_count(n) - 1) as nat) <= n,
    decreases n,
{
    if n < 10 {
        assert(pow10(1) == 10) by {
            reveal_with_fuel(pow10, 2);
        }
    } else {
        lemma_digit_count_bounds(n / 10);
        let d = digit_count(n / 10);
        vstd::arithmetic::div_mod::lemma_fundamental_div_mod(n as int, 10);
        assert(digit_count(n) == d + 1);
        assert(pow10(d + 1) == 10 * pow10(d));
        // Upper bound: n == 10 * (n / 10) + n % 10 < 10 * pow10(d).
        assert(n / 10 + 1 <= pow10(d));
        assert(10 * (n / 10) + 10 <= 10 * pow10(d));
        // Lower bound: pow10(d) == 10 * pow10(d - 1) <= 10 * (n / 10) <= n.
        assert(pow10((d - 1) as nat) <= n / 10);
        assert(pow10(d) == 10 * pow10((d - 1) as nat));
        assert(10 * pow10((d - 1) as nat) <= 10 * (n / 10));
    }
}

/// Every `u64` value has at most 20 decimal digits.
pub proof fn lemma_digit_count_u64(n: u64)
    ensures
        1 <= digit_count(n as nat) <= 20,
{
    let d = digit_count(n as nat);
    lemma_digit_count_bounds(n as nat);
    if d > 20 {
        lemma_pow10_increases(20, (d - 1) as nat);
        assert(pow10(20) == 0x56bc75e2d63100000) by {
            reveal_with_fuel(pow10, 21);
        }
        assert(n >= pow10(20));
    }
}

/// Exec power of ten. The bound keeps the result within `u64`.
pub(crate) fn pow10_exec(e: u32) -> (r: u64)
    requires
        e <= 19,
    ensures
        r as nat == pow10(e as nat),
{
    let mut i: u32 = 0;
    let mut r: u64 = 1;
    while i < e
        invariant
            i <= e <= 19,
            r as nat == pow10(i as nat),
        decreases e - i,
    {
        proof {
            lemma_pow10_increases((i + 1) as nat, 19);
            assert(pow10(19) == 0x8ac7230489e80000) by {
                reveal_with_fuel(pow10, 20);
            }
            assert(pow10((i + 1) as nat) == 10 * pow10(i as nat));
        }
        r = r * 10;
        i = i + 1;
    }
    r
}

/// Exec count of decimal digits.
pub(crate) fn count_digits(n: u64) -> (r: u32)
    ensures
        r as nat == digit_count(n as nat),
        1 <= r <= 20,
{
    proof {
        lemma_digit_count_u64(n);
    }
    let mut m: u64 = n;
    let mut c: u32 = 1;
    while m >= 10
        invariant
            digit_count(n as nat) == digit_count(m as nat) + c - 1,
            digit_count(n as nat) <= 20,
            1 <= c <= 20,
        decreases m,
    {
        proof {
            lemma_digit_count_u64(m);
            assert(digit_count(m as nat) == 1 + digit_count((m / 10) as nat));
        }
        m = m / 10;
        c = c + 1;
    }
    c
}

/// Exec truncation of `phone` to its first `k` decimal digits.
pub(crate) fn leading_digits(phone: u64, len: u32, k: u32) -> (r: u64)
    requires
        len as nat == digit_count(phone as nat),
        1 <= k <= len,
    ensures
        r as nat == leading(phone as nat, k as nat),
{
    proof {
        lemma_digit_count_u64(phone);
        lemma_pow10_positive((len - k) as nat);
        vstd::arithmetic::div_mod::lemma_div_nonincreasing(
            phone as int,
            pow10((len - k) as nat) as int,
        );
    }
    let p = pow10_exec(len - k);
    phone / p
}

} // verus!
