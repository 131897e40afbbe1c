//! Decimal fractions of quotients, rounded the way double-precision
//! arithmetic rounds them.
//!
//! A quotient of two integers is first rounded to the nearest number with a
//! mantissa of 53 bits, ties to even, and that number is then written with a
//! fixed count of decimal places, again ties to even. Both steps are integer
//! arithmetic here.
use vstd::prelude::*;

use crate::number::{decimal, push_decimal, push_two_digits, two_digits};

verus! {

/// Two to the power of 53: the first integer behind which doubles have gaps.
pub const MANTISSA_END: u128 = 9_007_199_254_740_992;

/// Two to the power of 52: the smallest normalised mantissa.
pub const MANTISSA_START: u128 = 4_503_599_627_370_496;

/// The integer nearest to `num / den`, the even one where two are equally
/// near.
pub open spec fn round_half_even(num: nat, den: nat) -> nat {
    let q = num / den;
    let r = num % den;
    if 2 * r > den || (2 * r == den && q % 2 == 1) {
        q + 1
    } else {
        q
    }
}

/// The distance between neighbouring doubles at the integer `n`.
pub open spec fn spacing(n: nat) -> nat
    decreases n,
{
    if n < MANTISSA_END {
        1
    } else {
        2 * spacing(n / 2)
    }
}

/// The double nearest to the integer `n`, which is an integer too.
pub open spec fn nearest_double(n: nat) -> nat {
    round_half_even(n, spacing(n)) * spacing(n)
}

/// The power of two that brings `n / d` up to a mantissa of 53 bits.
pub open spec fn scale(n: nat, d: nat) -> nat
    decreases
            if n < MANTISSA_START * d {
                MANTISSA_START * d - n
            } else {
                0
            },
{
    if n == 0 || n >= MANTISSA_START * d {
        1
    } else {
        2 * scale(2 * n, d)
    }
}

/// The double nearest to `n / d`, in units of `1 / scale(n, d)`.
pub open spec fn quotient_mantissa(n: nat, d: nat) -> nat {
    round_half_even(n * scale(n, d), d)
}

/// The double nearest to `n / d`, rounded to a multiple of `1 / parts` and
/// given as a count of such parts.
pub open spec fn rounded_parts(n: nat, d: nat, parts: nat) -> nat {
    round_half_even(quotient_mantissa(n, d) * parts, scale(n, d))
}

/// A number of hundredths with two decimal places.
pub open spec fn hundredths_text(h: nat) -> Seq<char> {
    decimal(h / 100) + seq!['.'] + two_digits(h % 100)
}

/// A number of tenths with one decimal place.
pub open spec fn tenths_text(t: nat) -> Seq<char> {
    decimal(t / 10) + seq!['.'] + decimal(t % 10)
}

/// Nanoseconds in seconds with two decimal places.
pub open spec fn seconds_text(nanos: nat) -> Seq<char> {
    hundredths_text(rounded_parts(nearest_double(nanos), 1_000_000_000, 100))
}

/// Bytes in GiB with one decimal place.
pub open spec fn gib_text(bytes: nat) -> Seq<char> {
    tenths_text(round_half_even(nearest_double(bytes) * 10, 1_073_741_824))
}

fn round_div(num: u128, den: u128) -> (r: u128)
    requires
        0 < den <= 0x4000_0000_0000_0000_0000_0000_0000_0000,
        num / den < u128::MAX,
    ensures
        r == round_half_even(num as nat, den as nat),
{
    let q: u128 = num / den;
    let rest: u128 = num % den;
    if 2 * rest > den || (2 * rest == den && q % 2 == 1) {
        q + 1
    } else {
        q
    }
}

spec fn is_small_power(u: nat) -> bool {
    u == 1 || u == 2 || u == 4 || u == 8 || u == 16 || u == 32
        || u == 64 || u == 128 || u == 256 || u == 512 || u == 1024 || u == 2048
}

proof fn lemma_spacing(n: nat)
    requires
        n < 0x1_0000_0000_0000_0000,
    ensures
        1 <= spacing(n) <= 2048,
        is_small_power(spacing(n)),
        n >= MANTISSA_END ==> n < spacing(n) * MANTISSA_END,
        n < MANTISSA_END ==> spacing(n) == 1,
{
    reveal_with_fuel(spacing, 13);
}

/// The double nearest to an integer.
fn to_double(n: u64) -> (r: u128)
    ensures
        r == nearest_double(n as nat),
        r <= 0x1_0000_0000_0000_0000,
        n > 0 ==> r > 0,
{
    let mut unit: u128 = 1;
    let mut m: u64 = n;
    proof {
        lemma_spacing(n as nat);
    }
    while m >= 9_007_199_254_740_992
        invariant
            spacing(n as nat) == unit * spacing(m as nat),
            1 <= unit,
            1 <= spacing(n as nat) <= 2048,
        decreases m,
    {
        let ghost before = m as nat;
        m = m / 2;
        proof {
            assert(spacing(before) == 2 * spacing(m as nat));
            assert(unit * (2 * spacing(m as nat)) == (unit * 2) * spacing(m as nat))
                by (nonlinear_arith);
            lemma_spacing(m as nat);
            assert(unit * 2 <= 2048) by (nonlinear_arith)
                requires
                    (unit * 2) * spacing(m as nat) <= 2048,
                    spacing(m as nat) >= 1,
            ;
        }
        unit = unit * 2;
    }
    assert(spacing(m as nat) == 1);
    assert(unit == spacing(n as nat)) by (nonlinear_arith)
        requires
            spacing(n as nat) == unit * spacing(m as nat),
            spacing(m as nat) == 1,
    ;
    proof {
        lemma_round_to_unit(n as nat, unit as nat);
    }
    let q: u128 = round_div(n as u128, unit);
    assert(q * unit <= 0x1_0000_0000_0000_0000) by (nonlinear_arith)
        requires
            q <= n / (unit as u64) + 1,
            1 <= unit <= 2048,
            n < 0x1_0000_0000_0000_0000,
            q * unit <= 0x1_0000_0000_0000_0000,
    ;
    q * unit
}

/// Rounding to a multiple of a small power of two stays within 64 bits.
proof fn lemma_round_to_unit(n: nat, unit: nat)
    requires
        n < 0x1_0000_0000_0000_0000,
        unit == spacing(n),
    ensures
        round_half_even(n, unit) * unit <= 0x1_0000_0000_0000_0000,
        round_half_even(n, unit) <= n / unit + 1,
        n / unit <= n,
        n > 0 ==> round_half_even(n, unit) * unit > 0,
{
    lemma_spacing(n);
    if unit == 1 {
        assert(round_half_even(n, 1) * 1 <= 0x1_0000_0000_0000_0000);
        assert(n > 0 ==> round_half_even(n, 1) * 1 > 0);
    } else if unit == 2 {
        assert(round_half_even(n, 2) * 2 <= 0x1_0000_0000_0000_0000);
        assert(n > 0 ==> round_half_even(n, 2) * 2 > 0);
    } else if unit == 4 {
        assert(round_half_even(n, 4) * 4 <= 0x1_0000_0000_0000_0000);
        assert(n > 0 ==> round_half_even(n, 4) * 4 > 0);
    } else if unit == 8 {
        assert(round_half_even(n, 8) * 8 <= 0x1_0000_0000_0000_0000);
        assert(n > 0 ==> round_half_even(n, 8) * 8 > 0);
    } else if unit == 16 {
        assert(round_half_even(n, 16) * 16 <= 0x1_0000_0000_0000_0000);
        assert(n > 0 ==> round_half_even(n, 16) * 16 > 0);
    } else if unit == 32 {
        assert(round_half_even(n, 32) * 32 <= 0x1_0000_0000_0000_0000);
        assert(n > 0 ==> round_half_even(n, 32) * 32 > 0);
    } else if unit == 64 {
        assert(round_half_even(n, 64) * 64 <= 0x1_0000_0000_0000_0000);
        assert(n > 0 ==> round_half_even(n, 64) * 64 > 0);
    } else if unit == 128 {
        assert(round_half_even(n, 128) * 128 <= 0x1_0000_0000_0000_0000);
        assert(n > 0 ==> round_half_even(n, 128) * 128 > 0);
    } else if unit == 256 {
        assert(round_half_even(n, 256) * 256 <= 0x1_0000_0000_0000_0000);
        assert(n > 0 ==> round_half_even(n, 256) * 256 > 0);
    } else if unit == 512 {
        assert(round_half_even(n, 512) * 512 <= 0x1_0000_0000_0000_0000);
        assert(n > 0 ==> round_half_even(n, 512) * 512 > 0);
    } else if unit == 1024 {
        assert(round_half_even(n, 1024) * 1024 <= 0x1_0000_0000_0000_0000);
        assert(n > 0 ==> round_half_even(n, 1024) * 1024 > 0);
    } else if unit == 2048 {
        assert(round_half_even(n, 2048) * 2048 <= 0x1_0000_0000_0000_0000);
        assert(n > 0 ==> round_half_even(n, 2048) * 2048 > 0);
    }
}

/// One billion seconds' worth of the smallest normalised mantissa.
const SECOND_LIMIT: u128 = 4_503_599_627_370_496_000_000_000;

/// The hundredths of seconds in `n` nanoseconds.
fn hundredths_of_seconds(n: u128) -> (r: u128)
    requires
        n <= 0x1_0000_0000_0000_0000,
    ensures
        r == rounded_parts(n as nat, 1_000_000_000, 100),
        r < 0x1_0000_0000_0000_0000,
{
    let ghost d: nat = 1_000_000_000;
    if n == 0 {
        assert(scale(0, d) == 1);
        assert(0nat * 1nat == 0);
        assert(round_half_even(0, d) == 0);
        return 0;
    }
    let mut x: u128 = n;
    let mut p: u128 = 1;
    while x < SECOND_LIMIT
        invariant
            d == 1_000_000_000,
            SECOND_LIMIT == MANTISSA_START * d,
            0 < n <= 0x1_0000_0000_0000_0000,
            scale(n as nat, d) == p * scale(x as nat, d),
            x == n * p,
            1 <= p <= x < 2 * SECOND_LIMIT,
        decreases 2 * SECOND_LIMIT - x,
    {
        proof {
            let s = scale(2 * x as nat, d);
            assert(scale(x as nat, d) == 2 * s);
            assert(p * (2 * s) == (2 * p) * s) by (nonlinear_arith);
            assert(2 * (n * p) == n * (2 * p)) by (nonlinear_arith);
        }
        x = 2 * x;
        p = 2 * p;
    }
    assert(scale(x as nat, d) == 1);
    assert(p == scale(n as nat, d)) by (nonlinear_arith)
        requires
            scale(n as nat, d) == p * scale(x as nat, d),
            scale(x as nat, d) == 1,
    ;
    let mantissa: u128 = round_div(x, 1_000_000_000);
    let r: u128 = round_div(mantissa * 100, p);
    assert(r <= mantissa * 100 + 1) by (nonlinear_arith)
        requires
            r <= (mantissa * 100) / (p as int) + 1,
            p >= 1,
            mantissa >= 0,
    ;
    r
}

/// Appends nanoseconds in seconds with two decimal places.
pub fn push_seconds(out: &mut String, nanos: u64)
    ensures
        final(out)@ == old(out)@ + seconds_text(nanos as nat),
{
    let h: u64 = hundredths_of_seconds(to_double(nanos)) as u64;
    push_decimal(out, h / 100);
    out.push('.');
    push_two_digits(out, h % 100);
    assert(out@ =~= old(out)@ + seconds_text(nanos as nat));
}

/// Appends bytes in GiB with one decimal place.
pub fn push_gib(out: &mut String, bytes: u64)
    ensures
        final(out)@ == old(out)@ + gib_text(bytes as nat),
{
    let t: u64 = round_div(to_double(bytes) * 10, 1_073_741_824) as u64;
    push_decimal(out, t / 10);
    out.push('.');
    push_decimal(out, t % 10);
    assert(out@ =~= old(out)@ + gib_text(bytes as nat));
}

proof fn lemma_round_exact(k: nat, d: nat)
    requires
        d > 0,
    ensures
        round_half_even(k * d, d) == k,
{
    assert((k * d) / d == k) by (nonlinear_arith)
        requires
            d > 0,
    ;
    assert((k * d) % d == 0) by (nonlinear_arith)
        requires
            d > 0,
    ;
}

proof fn lemma_scale_is_positive(n: nat, d: nat)
    ensures
        scale(n, d) >= 1,
    decreases
            if n < MANTISSA_START * d {
                MANTISSA_START * d - n
            } else {
                0
            },
{
    if !(n == 0 || n >= MANTISSA_START * d) {
        lemma_scale_is_positive(2 * n, d);
    }
}

/// Whole seconds have no fraction, as long as the number of nanoseconds is
/// below the gaps of double precision.
pub proof fn law_whole_seconds(secs: nat)
    requires
        secs * 1_000_000_000 < 9_007_199_254_740_992,
    ensures
        seconds_text(secs * 1_000_000_000) == decimal(secs) + seq!['.', '0', '0'],
{
    let d: nat = 1_000_000_000;
    let nanos = secs * d;
    assert(spacing(nanos) == 1);
    lemma_round_exact(nanos, 1);
    assert(nearest_double(nanos) == nanos);
    let s = scale(nanos, d);
    lemma_scale_is_positive(nanos, d);
    assert(nanos * s == (secs * s) * d) by (nonlinear_arith)
        requires
            nanos == secs * d,
    ;
    lemma_round_exact(secs * s, d);
    assert(quotient_mantissa(nanos, d) == secs * s);
    assert((secs * s) * 100 == (secs * 100) * s) by (nonlinear_arith);
    lemma_round_exact(secs * 100, s);
    assert(rounded_parts(nanos, d, 100) == secs * 100);
    assert((secs * 100) / 100 == secs);
    assert((secs * 100) % 100 == 0);
    assert(two_digits(0) =~= seq!['0', '0']);
    assert(seconds_text(nanos) =~= decimal(secs) + seq!['.', '0', '0']);
}

/// Whole GiB have no fraction, as long as the number of bytes is below the
/// gaps of double precision.
pub proof fn law_whole_gib(gib: nat)
    requires
        gib * 1_073_741_824 < 9_007_199_254_740_992,
    ensures
        gib_text(gib * 1_073_741_824) == decimal(gib) + seq!['.', '0'],
{
    let d: nat = 1_073_741_824;
    let bytes = gib * d;
    assert(spacing(bytes) == 1);
    lemma_round_exact(bytes, 1);
    assert(nearest_double(bytes) == bytes);
    assert(bytes * 10 == (gib * 10) * d);
    lemma_round_exact(gib * 10, d);
    assert((gib * 10) / 10 == gib);
    assert((gib * 10) % 10 == 0);
    assert(decimal(0) =~= seq!['0']);
    assert(gib_text(bytes) =~= decimal(gib) + seq!['.', '0']);
}

proof fn lemma_round_is_near(num: nat, den: nat)
    requires
        den > 0,
    ensures
        2 * (round_half_even(num, den) * den) <= 2 * num + den,
        2 * num <= 2 * (round_half_even(num, den) * den) + den,
{
    let q = num / den;
    let r = num % den;
    assert(num == q * den + r) by (nonlinear_arith)
        requires
            den > 0,
            q == num / den,
            r == num % den,
    ;
    assert((q + 1) * den == q * den + den) by (nonlinear_arith);
}

proof fn lemma_scale_fills_the_mantissa(n: nat, d: nat)
    requires
        n > 0,
        d > 0,
    ensures
        scale(n, d) >= 1,
        n * scale(n, d) >= MANTISSA_START * d,
    decreases
            if n < MANTISSA_START * d {
                MANTISSA_START * d - n
            } else {
                0
            },
{
    if n < MANTISSA_START * d {
        lemma_scale_fills_the_mantissa(2 * n, d);
        let s = scale(2 * n, d);
        assert(n * (2 * s) == (2 * n) * s) by (nonlinear_arith);
    } else {
        assert(n * 1 == n);
    }
}

/// Seconds are shown to the nearest hundredth: what is shown is at most half
/// a hundredth and one nanosecond off, as long as the number of nanoseconds is
/// below the gaps of double precision.
pub proof fn law_seconds_are_near(nanos: nat)
    requires
        nanos < 9_007_199_254_740_992,
    ensures
        exists|h: nat|
            seconds_text(nanos) == #[trigger] hundredths_text(h) && h * 10_000_000 <= nanos
                + 5_000_001 && nanos <= h * 10_000_000 + 5_000_001,
{
    let d: nat = 1_000_000_000;
    lemma_round_exact(nanos, 1);
    assert(spacing(nanos) == 1);
    assert(nearest_double(nanos) == nanos);
    let s = scale(nanos, d);
    let m = quotient_mantissa(nanos, d);
    let h = rounded_parts(nanos, d, 100);
    if nanos == 0 {
        assert(s == 1);
        lemma_round_exact(0, d);
        assert(0nat * s == 0 && 0nat * d == 0);
        assert(m == 0);
        lemma_round_exact(0, s);
        assert(0nat * 100 == 0 && 0nat * s == 0);
        assert(h == 0);
    } else {
        lemma_scale_fills_the_mantissa(nanos, d);
        lemma_round_is_near(nanos * s, d);
        lemma_round_is_near(m * 100, s);
        assert(2 * (m * d) <= 2 * (nanos * s) + d);
        assert(2 * (nanos * s) <= 2 * (m * d) + d);
        assert(2 * (h * s) <= 2 * (m * 100) + s);
        assert(2 * (m * 100) <= 2 * (h * s) + s);
        let hs = h * s;
        let ns = nanos * s;
        assert(ns >= 4_503_599_627_370_496 * d);
        // Both steps together, times the scale.
        assert(2 * (hs * d) <= 2 * (m * 100) * d + s * d) by (nonlinear_arith)
            requires
                2 * hs <= 2 * (m * 100) + s,
                d > 0,
        ;
        assert(2 * (m * 100) * d <= 2 * (hs * d) + s * d) by (nonlinear_arith)
            requires
                2 * (m * 100) <= 2 * hs + s,
                d > 0,
        ;
        assert(2 * (m * 100) * d == 100 * (2 * (m * d))) by (nonlinear_arith);
        assert(s * 9_007_199_254_740_992 > 4_503_599_627_370_496 * d) by (nonlinear_arith)
            requires
                nanos * s >= 4_503_599_627_370_496 * d,
                nanos < 9_007_199_254_740_992,
                s >= 1,
        ;
        assert(d < 2 * s);
        assert(2 * (hs * d) <= 200 * ns + 100 * d + s * d);
        assert(200 * ns <= 2 * (hs * d) + 100 * d + s * d);
        assert(hs * d == (h * d) * s) by (nonlinear_arith)
            requires
                hs == h * s,
        ;
        assert(2 * (h * d) <= 200 * nanos + 200 + d) by (nonlinear_arith)
            requires
                2 * ((h * d) * s) <= 200 * (nanos * s) + 100 * d + s * d,
                d < 2 * s,
                s >= 1,
        ;
        assert(200 * nanos <= 2 * (h * d) + 200 + d) by (nonlinear_arith)
            requires
                200 * (nanos * s) <= 2 * ((h * d) * s) + 100 * d + s * d,
                d < 2 * s,
                s >= 1,
        ;
    }
    assert(seconds_text(nanos) == hundredths_text(h));
}

/// A size in GiB is shown to the nearest tenth, as long as the number of bytes
/// is below the gaps of double precision.
pub proof fn law_gib_are_near(bytes: nat)
    requires
        bytes < 9_007_199_254_740_992,
    ensures
        exists|t: nat|
            gib_text(bytes) == #[trigger] tenths_text(t) && t * 1_073_741_824 <= 10 * bytes
                + 536_870_912 && 10 * bytes <= t * 1_073_741_824 + 536_870_912,
{
    lemma_round_exact(bytes, 1);
    assert(spacing(bytes) == 1);
    assert(nearest_double(bytes) == bytes);
    let t = round_half_even(bytes * 10, 1_073_741_824);
    lemma_round_is_near(bytes * 10, 1_073_741_824);
    assert(gib_text(bytes) == tenths_text(t));
}

} // verus!
