//! Tolerance-window computation.
//!
//! A tolerance is given either as a percentage of the nominal value or as an
//! absolute amount carrying its own unit. Both produce an inclusive search
//! window `[low, high]` around the nominal base-unit value, clamped at zero
//! on the low side: the engine never searches for a negative resistance,
//! capacitance or inductance.

use vstd::prelude::*;
use vstd::arithmetic::div_mod::{
    lemma_div_by_multiple, lemma_div_is_ordered, lemma_fundamental_div_mod,
    lemma_hoist_over_denominator,
};
use vstd::arithmetic::mul::{lemma_mul_inequality, lemma_mul_upper_bound};
use crate::units::max_base;

verus! {

/// Which bound of the tolerance window is being computed.
#[derive(Clone, Copy, PartialEq, Eq, Structural, Debug)]
pub enum Tolerance {
    Up,
    Down,
}

/// The half-width of a percentage window: the integer part of
/// `nominal * pct / 100`. Because catalog values are integers, rounding the
/// half-width down keeps exactly the integers that lie inside the real
/// window.
pub open spec fn spec_pct_delta(nominal: int, pct: int) -> int {
    nominal * pct / 100
}

/// The lower window bound: `nominal - delta`, clamped at zero.
pub open spec fn spec_low(nominal: int, delta: int) -> int {
    if delta > nominal {
        0
    } else {
        nominal - delta
    }
}

/// The upper window bound.
pub open spec fn spec_high(nominal: int, delta: int) -> int {
    nominal + delta
}

/// A percentage of at most one hundred never widens the window below zero:
/// the delta it yields is at most the nominal value itself.
pub proof fn lemma_pct_delta_bounds(nominal: int, pct: int)
    requires
        0 <= nominal,
        0 <= pct <= 100,
    ensures
        0 <= spec_pct_delta(nominal, pct) <= nominal,
{
    lemma_mul_inequality(pct, 100, nominal);
    assert(nominal * pct == pct * nominal) by (nonlinear_arith);
    assert(nominal * 100 == 100 * nominal) by (nonlinear_arith);
    lemma_div_is_ordered(nominal * pct, nominal * 100, 100);
    lemma_div_by_multiple(nominal, 100);
    assert(nominal * pct >= 0) by (nonlinear_arith)
        requires
            0 <= nominal && 0 <= pct,
    ;
    lemma_div_is_ordered(0, nominal * pct, 100);
}

/// Window monotonicity: for every nonnegative nominal value and delta the
/// window brackets the nominal value and never extends below zero.
pub proof fn lemma_window_monotonic(nominal: int, delta: int)
    requires
        0 <= nominal,
        0 <= delta,
    ensures
        0 <= spec_low(nominal, delta),
        spec_low(nominal, delta) <= nominal,
        nominal <= spec_high(nominal, delta),
{
}

/// Computes the percentage half-width exactly, splitting the nominal value
/// at the hundreds to keep every intermediate product inside `u128`.
pub fn pct_delta(nominal: u128, pct: u64) -> (d: u128)
    requires
        pct <= 100,
        nominal as int <= max_base(),
    ensures
        d == spec_pct_delta(nominal as int, pct as int),
        d <= nominal,
{
    let q = nominal / 100;
    let r = nominal % 100;
    proof {
        let n = nominal as int;
        let p = pct as int;
        lemma_mul_upper_bound(q as int, max_base() / 100, p, 100);
        lemma_fundamental_div_mod(n, 100);
        assert((100 * (n / 100) + n % 100) * p == (n / 100) * p * 100 + (n % 100) * p)
            by (nonlinear_arith);
        lemma_hoist_over_denominator((n % 100) * p, (n / 100) * p, 100);
        assert((n % 100) * p <= 9900) by (nonlinear_arith)
            requires
                0 <= n % 100 < 100 && 0 <= p <= 100,
        ;
        assert((n % 100) * p >= 0) by (nonlinear_arith)
            requires
                0 <= n % 100 && 0 <= p,
        ;
        lemma_div_is_ordered(0, (n % 100) * p, 100);
        lemma_pct_delta_bounds(n, p);
    }
    q * (pct as u128) + (r * (pct as u128)) / 100
}

/// The inclusive search window around a nominal base-unit value, together
/// with that nominal value.
#[derive(Clone, Copy, PartialEq, Eq, Structural, Debug)]
pub struct NormalizedValue {
    pub nominal: u128,
    pub low: u128,
    pub high: u128,
}

impl NormalizedValue {
    /// The window always brackets its nominal value.
    pub open spec fn wf(self) -> bool {
        self.low <= self.nominal <= self.high
    }
}

/// Builds the inclusive window from a nominal value and a half-width,
/// clamping the lower bound at zero.
pub fn window(nominal: u128, delta: u128) -> (w: NormalizedValue)
    requires
        nominal as int <= max_base(),
        delta as int <= max_base(),
    ensures
        w.nominal == nominal,
        w.low == spec_low(nominal as int, delta as int),
        w.high == spec_high(nominal as int, delta as int),
        w.wf(),
{
    let low = if delta > nominal {
        0
    } else {
        nominal - delta
    };
    NormalizedValue { nominal, low, high: nominal + delta }
}

} // verus!
