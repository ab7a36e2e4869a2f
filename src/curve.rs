//! Acceleration curves evaluated in checked fixed-point arithmetic.
use vstd::arithmetic::div_mod::{lemma_div_is_ordered, lemma_div_multiples_vanish};
use vstd::arithmetic::mul::{
    lemma_mul_inequality,
    lemma_mul_is_commutative,
    lemma_mul_upper_bound,
};
use vstd::prelude::*;

verus! {

/// Denominator of the fixed-point fractions that the curves work with.
pub const CURVE_SCALE: u128 = 10000;

/// Shape of the release curve over a time window.
#[derive(Clone, Copy, Debug, PartialEq, Eq, Structural)]
pub enum AccelerationType {
    Linear,
    Quadratic,
    Cubic,
}

impl AccelerationType {
    /// The exponent of the curve: the fraction released is the elapsed fraction
    /// raised to this power.
    pub open spec fn exponent(self) -> nat {
        match self {
            AccelerationType::Linear => 1,
            AccelerationType::Quadratic => 2,
            AccelerationType::Cubic => 3,
        }
    }

    pub fn to_factor(&self) -> (r: u8)
        ensures
            r == self.exponent(),
    {
        match self {
            AccelerationType::Linear => 1,
            AccelerationType::Quadratic => 2,
            AccelerationType::Cubic => 3,
        }
    }

    pub fn description(&self) -> (r: &'static str) {
        match self {
            AccelerationType::Linear => "Linear: Constant rate over time",
            AccelerationType::Quadratic => "Quadratic: Slow start, accelerating finish",
            AccelerationType::Cubic => "Cubic: Very slow start, rapid acceleration at the end",
        }
    }
}

/// Elapsed share of a window, scaled by `CURVE_SCALE` and rounded down.
pub open spec fn scaled_progress(elapsed: int, duration: int) -> int {
    elapsed * (CURVE_SCALE as int) / duration
}

/// The curve applied to a scaled progress value, rounded down at each step.
pub open spec fn curve_fraction(curve: AccelerationType, p: int) -> int {
    let s = CURVE_SCALE as int;
    match curve {
        AccelerationType::Linear => p,
        AccelerationType::Quadratic => p * p / s,
        AccelerationType::Cubic => (p * p / s) * p / s,
    }
}

/// Part of `amount` released after `elapsed` out of `duration`: the linear
/// curve is exact proportionality, the others go through the scaled progress.
pub open spec fn curve_amount(curve: AccelerationType, amount: int, elapsed: int, duration: int) -> int {
    match curve {
        AccelerationType::Linear => amount * elapsed / duration,
        _ => amount * curve_fraction(curve, scaled_progress(elapsed, duration)) / (CURVE_SCALE as int),
    }
}

proof fn lemma_quotient_at_most(a: int, b: int, d: int)
    requires
        0 <= a <= b * d,
        0 < d,
    ensures
        a / d <= b,
{
    lemma_div_is_ordered(a, b * d, d);
    lemma_mul_is_commutative(b, d);
    lemma_div_multiples_vanish(b, d);
}

proof fn lemma_scale_le(a: int, x: int, y: int)
    requires
        0 <= a,
        x <= y,
    ensures
        a * x <= a * y,
{
    lemma_mul_inequality(x, y, a);
    lemma_mul_is_commutative(x, a);
    lemma_mul_is_commutative(y, a);
}

proof fn lemma_quotient_nonneg(a: int, d: int)
    requires
        0 <= a,
        0 < d,
    ensures
        0 <= a / d,
{
    lemma_div_is_ordered(0, a, d);
}

proof fn lemma_progress_bounds(elapsed: int, duration: int)
    requires
        0 <= elapsed <= duration,
        0 < duration,
    ensures
        0 <= scaled_progress(elapsed, duration) <= CURVE_SCALE as int,
{
    let s = CURVE_SCALE as int;
    lemma_mul_inequality(elapsed, duration, s);
    lemma_mul_is_commutative(duration, s);
    lemma_quotient_at_most(elapsed * s, s, duration);
    lemma_quotient_nonneg(elapsed * s, duration);
}

proof fn lemma_fraction_bounds(curve: AccelerationType, p: int)
    requires
        0 <= p <= CURVE_SCALE as int,
    ensures
        0 <= curve_fraction(curve, p) <= CURVE_SCALE as int,
{
    let s = CURVE_SCALE as int;
    lemma_mul_upper_bound(p, s, p, s);
    lemma_quotient_at_most(p * p, s, s);
    lemma_quotient_nonneg(p * p, s);
    let q = p * p / s;
    lemma_mul_upper_bound(q, s, p, s);
    lemma_quotient_at_most(q * p, s, s);
    lemma_quotient_nonneg(q * p, s);
}

proof fn lemma_fraction_monotonic(curve: AccelerationType, p1: int, p2: int)
    requires
        0 <= p1 <= p2 <= CURVE_SCALE as int,
    ensures
        curve_fraction(curve, p1) <= curve_fraction(curve, p2),
{
    let s = CURVE_SCALE as int;
    lemma_mul_upper_bound(p1, p2, p1, p2);
    lemma_div_is_ordered(p1 * p1, p2 * p2, s);
    lemma_fraction_bounds(AccelerationType::Quadratic, p1);
    let q1 = p1 * p1 / s;
    let q2 = p2 * p2 / s;
    lemma_mul_upper_bound(q1, q2, p1, p2);
    lemma_div_is_ordered(q1 * p1, q2 * p2, s);
}

/// The released part is never negative and never more than the amount.
pub proof fn lemma_curve_amount_bounds(curve: AccelerationType, amount: int, elapsed: int, duration: int)
    requires
        0 <= amount,
        0 <= elapsed <= duration,
        0 < duration,
    ensures
        0 <= curve_amount(curve, amount, elapsed, duration) <= amount,
{
    let s = CURVE_SCALE as int;
    lemma_scale_le(amount, elapsed, duration);
    lemma_scale_le(amount, 0, elapsed);
    lemma_quotient_at_most(amount * elapsed, amount, duration);
    lemma_quotient_nonneg(amount * elapsed, duration);
    lemma_progress_bounds(elapsed, duration);
    let f = curve_fraction(curve, scaled_progress(elapsed, duration));
    lemma_fraction_bounds(curve, scaled_progress(elapsed, duration));
    lemma_scale_le(amount, f, s);
    lemma_scale_le(amount, 0, f);
    lemma_quotient_at_most(amount * f, amount, s);
    lemma_quotient_nonneg(amount * f, s);
}

/// The released part does not decrease as more of the window elapses.
pub proof fn lemma_curve_amount_monotonic(
    curve: AccelerationType,
    amount: int,
    e1: int,
    e2: int,
    duration: int,
)
    requires
        0 <= amount,
        0 <= e1 <= e2 <= duration,
        0 < duration,
    ensures
        curve_amount(curve, amount, e1, duration) <= curve_amount(curve, amount, e2, duration),
{
    let s = CURVE_SCALE as int;
    lemma_scale_le(amount, e1, e2);
    lemma_div_is_ordered(amount * e1, amount * e2, duration);
    lemma_mul_inequality(e1, e2, s);
    lemma_div_is_ordered(e1 * s, e2 * s, duration);
    lemma_progress_bounds(e1, duration);
    lemma_progress_bounds(e2, duration);
    let p1 = scaled_progress(e1, duration);
    let p2 = scaled_progress(e2, duration);
    lemma_fraction_monotonic(curve, p1, p2);
    let f1 = curve_fraction(curve, p1);
    let f2 = curve_fraction(curve, p2);
    lemma_fraction_bounds(curve, p1);
    lemma_scale_le(amount, f1, f2);
    lemma_div_is_ordered(amount * f1, amount * f2, s);
}

/// Every curve starts at nothing and ends at the whole amount.
pub proof fn lemma_curve_endpoints(curve: AccelerationType, amount: int, duration: int)
    requires
        0 <= amount,
        0 < duration,
    ensures
        curve_amount(curve, amount, 0, duration) == 0,
        curve_amount(curve, amount, duration, duration) == amount,
{
    let s = CURVE_SCALE as int;
    lemma_curve_amount_bounds(curve, amount, 0, duration);
    lemma_mul_is_commutative(amount, duration);
    lemma_div_multiples_vanish(amount, duration);
    lemma_mul_is_commutative(duration, s);
    lemma_div_multiples_vanish(s, duration);
    assert(scaled_progress(duration, duration) == s);
    lemma_div_multiples_vanish(s, s);
    assert(s * s / s == s);
    lemma_mul_is_commutative(amount, s);
    lemma_div_multiples_vanish(amount, s);
}

/// Releases part of `amount` after `elapsed` out of `duration` along `curve`.
pub fn release_by_curve(curve: AccelerationType, amount: u64, elapsed: u64, duration: u64) -> (r: u64)
    requires
        0 < duration,
        elapsed <= duration,
    ensures
        r == curve_amount(curve, amount as int, elapsed as int, duration as int),
        r <= amount,
{
    proof {
        lemma_curve_amount_bounds(curve, amount as int, elapsed as int, duration as int);
        lemma_progress_bounds(elapsed as int, duration as int);
        lemma_fraction_bounds(AccelerationType::Quadratic, scaled_progress(elapsed as int, duration as int));
        lemma_fraction_bounds(curve, scaled_progress(elapsed as int, duration as int));
        lemma_mul_upper_bound(amount as int, u64::MAX as int, elapsed as int, u64::MAX as int);
    }
    let a = amount as u128;
    let e = elapsed as u128;
    let d = duration as u128;
    match curve {
        AccelerationType::Linear => (a * e / d) as u64,
        AccelerationType::Quadratic => {
            let p = e * CURVE_SCALE / d;
            let f = p * p / CURVE_SCALE;
            proof {
                lemma_mul_upper_bound(amount as int, u64::MAX as int, f as int, CURVE_SCALE as int);
            }
            (a * f / CURVE_SCALE) as u64
        },
        AccelerationType::Cubic => {
            let p = e * CURVE_SCALE / d;
            let q = p * p / CURVE_SCALE;
            let f = q * p / CURVE_SCALE;
            proof {
                lemma_mul_upper_bound(amount as int, u64::MAX as int, f as int, CURVE_SCALE as int);
            }
            (a * f / CURVE_SCALE) as u64
        },
    }
}

} // verus!
