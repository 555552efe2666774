use vstd::prelude::*;

verus! {

/// The number of digits a timestamp may have.
pub const TIMESTAMP_DIGITS: u64 = 14;

/// The number of decimal digits of `n` (one for zero).
pub open spec fn digit_count(n: nat) -> nat
    decreases n,
{
    if n < 10 {
        1
    } else {
        1 + digit_count(n / 10)
    }
}

pub open spec fn pow10(k: nat) -> nat
    decreases k,
{
    if k == 0 {
        1
    } else {
        10 * pow10((k - 1) as nat)
    }
}

/// Whether `n` is a timestamp or a prefix of one: at most fourteen digits.
pub open spec fn timestamp_ok(n: u64) -> bool {
    digit_count(n as nat) <= TIMESTAMP_DIGITS
}

/// The factor that pads a prefix of `digit_count(n)` digits to fourteen.
pub open spec fn pad_scale(n: nat) -> nat {
    pow10((TIMESTAMP_DIGITS - digit_count(n)) as nat)
}

/// The earliest fourteen-digit timestamp that starts with the digits of `n`.
pub open spec fn pad_low(n: nat) -> nat {
    n * pad_scale(n)
}

/// The latest fourteen-digit timestamp that starts with the digits of `n`.
pub open spec fn pad_high(n: nat) -> int {
    (n + 1) * pad_scale(n) - 1
}

proof fn lemma_pow10_mono(a: nat, b: nat)
    requires
        a <= b,
    ensures
        1 <= pow10(a) <= pow10(b),
    decreases b,
{
    if a < b {
        lemma_pow10_mono(a, (b - 1) as nat);
    } else if a > 0 {
        lemma_pow10_mono((a - 1) as nat, (a - 1) as nat);
    }
}

proof fn lemma_pow10_add(a: nat, b: nat)
    ensures
        pow10(a + b) == pow10(a) * pow10(b),
    decreases a,
{
    if a == 0 {
        assert(pow10(0) == 1);
        assert(a + b == b);
    } else {
        let c = (a - 1) as nat;
        lemma_pow10_add(c, b);
        assert(a + b == (c + b) + 1);
        assert(pow10(a + b) == 10 * pow10(c + b));
        assert(pow10(a) == 10 * pow10(c));
        let x = pow10(c);
        let y = pow10(b);
        assert(10 * (x * y) == (10 * x) * y) by (nonlinear_arith);
    }
}

pub(crate) proof fn lemma_pow10_values()
    ensures
        pow10(13) == 10000000000000,
        pow10(14) == 100000000000000,
{
    reveal_with_fuel(pow10, 15);
}

/// `n` has at most `k` digits exactly when it is below `10^k`.
pub(crate) proof fn lemma_digit_count_bound(n: nat, k: nat)
    requires
        k >= 1,
    ensures
        digit_count(n) <= k <==> n < pow10(k),
        digit_count(n) >= 1,
    decreases n,
{
    lemma_pow10_mono(1, k);
    assert(pow10(1) == 10) by {
        reveal_with_fuel(pow10, 2);
    }
    if n >= 10 {
        if k == 1 {
            lemma_digit_count_bound(n / 10, 1);
        } else {
            lemma_digit_count_bound(n / 10, (k - 1) as nat);
            let p = pow10((k - 1) as nat);
            assert(n / 10 < p <==> n < 10 * p) by (nonlinear_arith);
        }
    }
}

/// Both paddings of a valid timestamp lie in the fourteen-digit range, in
/// order.
pub proof fn lemma_padding_bounds(n: nat)
    requires
        digit_count(n) <= 14,
    ensures
        pad_low(n) <= pad_high(n) < 100000000000000,
{
    lemma_digit_count_bound(n, digit_count(n));
    let d = digit_count(n);
    lemma_pow10_add(d, (14 - d) as nat);
    lemma_pow10_values();
    lemma_pow10_mono(0, (14 - d) as nat);
    let s = pad_scale(n);
    assert(n + 1 <= pow10(d));
    assert((n + 1) * s <= pow10(d) * s) by (nonlinear_arith)
        requires
            n + 1 <= pow10(d),
    ;
    assert(n * s + 1 <= (n + 1) * s) by (nonlinear_arith)
        requires
            s >= 1,
    ;
}

fn digits_of(n: u64) -> (r: u64)
    requires
        timestamp_ok(n),
    ensures
        r as nat == digit_count(n as nat),
        r <= TIMESTAMP_DIGITS,
    decreases n,
{
    if n < 10 {
        1
    } else {
        1 + digits_of(n / 10)
    }
}

fn pow10_of(k: u64) -> (r: u64)
    requires
        k <= 14,
    ensures
        r as nat == pow10(k as nat),
    decreases k,
{
    if k == 0 {
        1
    } else {
        let p = pow10_of(k - 1);
        proof {
            lemma_pow10_mono((k - 1) as nat, 13);
            lemma_pow10_values();
        }
        10 * p
    }
}

/// Whether `n` has at most fourteen digits.
pub fn is_timestamp(n: u64) -> (r: bool)
    ensures
        r == timestamp_ok(n),
{
    proof {
        lemma_digit_count_bound(n as nat, 14);
        lemma_pow10_values();
    }
    n < 100000000000000
}

/// The earliest and the latest fourteen-digit timestamps that start with
/// the digits of `n`.
pub fn padded(n: u64) -> (r: (u64, u64))
    requires
        timestamp_ok(n),
    ensures
        r.0 as nat == pad_low(n as nat),
        r.1 as int == pad_high(n as nat),
{
    proof {
        lemma_padding_bounds(n as nat);
        lemma_digit_count_bound(n as nat, 14);
        lemma_pow10_values();
    }
    let d = digits_of(n);
    let s = pow10_of(TIMESTAMP_DIGITS - d);
    assert(n as nat * s as nat == pad_low(n as nat));
    assert((n as nat + 1) * s as nat - 1 == pad_high(n as nat));
    assert((n as nat + 1) * s as nat <= 100000000000000);
    let m: u64 = n + 1;
    assert(m as int * s as int <= 100000000000000);
    let lo = n * s;
    let hi = m * s;
    (lo, hi - 1)
}

} // verus!
