//! Inductor requests: conversion to picohenries, tolerance window, and search.

use vstd::prelude::*;
use vstd::arithmetic::mul::lemma_mul_upper_bound;
use crate::catalog::{find_in_range, spec_matches, Component};
use crate::errors::{spec_validate, validate_tolerance, PartError, ValidationFault};
use crate::ranking::{sort_components, spec_rank};
use crate::resolver::{
    lemma_exact_tier_priority, select_part, spec_candidates, spec_select, MatchTier, PartMatch,
};
use crate::units::{max_base, max_multiplier, Family, InductorUnit};
use crate::window::{pct_delta, spec_high, spec_low, spec_pct_delta, window, NormalizedValue, Tolerance};

verus! {

/// A inductor request: a nominal magnitude with its unit, an optional exact
/// package filter, and exactly one tolerance mode - a percentage of the
/// nominal value, or an absolute amount carrying its own unit.
#[derive(Debug)]
pub struct InductorRequest {
    pub unit: InductorUnit,
    pub value: u64,
    pub package: Option<String>,
    pub tolerance_percentage: Option<u64>,
    pub absolute_tolerance: Option<u64>,
    pub absolute_tolerance_unit: Option<InductorUnit>,
}

impl InductorRequest {
    /// The validation outcome of this request's tolerance specification.
    pub open spec fn spec_fault(self) -> Option<ValidationFault> {
        spec_validate(
            self.tolerance_percentage,
            self.absolute_tolerance is Some,
            self.absolute_tolerance_unit is Some,
        )
    }

    /// A well-shaped request: exactly one tolerance mode, the percentage
    /// within one hundred, an absolute amount accompanied by its unit.
    pub open spec fn valid(self) -> bool {
        self.spec_fault() is None
    }

    /// The nominal magnitude in picohenries.
    pub open spec fn spec_nominal(self) -> int {
        self.value * self.unit.spec_multiplier()
    }

    /// The window half-width in picohenries: the absolute amount converted to
    /// base units, or the percentage of the nominal value.
    pub open spec fn spec_delta(self) -> int {
        match self.absolute_tolerance {
            Some(a) => a * (match self.absolute_tolerance_unit {
                Some(u) => u.spec_multiplier(),
                None => 0,
            }),
            None => spec_pct_delta(
                self.spec_nominal(),
                match self.tolerance_percentage {
                    Some(p) => p as int,
                    None => 0,
                },
            ),
        }
    }

    /// The inclusive search window this request describes.
    pub open spec fn spec_window(self) -> NormalizedValue {
        NormalizedValue {
            nominal: self.spec_nominal() as u128,
            low: spec_low(self.spec_nominal(), self.spec_delta()) as u128,
            high: spec_high(self.spec_nominal(), self.spec_delta()) as u128,
        }
    }
}

/// Converts a magnitude with a inductance unit into picohenries. Exact: the
/// multiplier is a power of ten and the product always fits.
pub fn get_inductor_value(request_value: u64, request_unit: InductorUnit) -> (r: u128)
    ensures
        r == request_value * request_unit.spec_multiplier(),
        r <= max_base(),
{
    let m = request_unit.multiplier();
    proof {
        lemma_mul_upper_bound(request_value as int, u64::MAX as int, m as int, max_multiplier());
    }
    (request_value as u128) * (m as u128)
}

/// Window monotonicity: every well-shaped request describes a window that
/// brackets its nominal value; its low bound never reaches below zero.
pub proof fn lemma_inductor_window_monotonic(request: InductorRequest)
    requires
        request.valid(),
    ensures
        request.spec_window().low <= request.spec_window().nominal,
        request.spec_window().nominal <= request.spec_window().high,
{
    let n = request.spec_nominal();
    let d = request.spec_delta();
    assert(request.unit.spec_multiplier() >= 1);
    lemma_mul_upper_bound(request.value as int, u64::MAX as int, request.unit.spec_multiplier(), max_multiplier());
    assert(n >= 0) by (nonlinear_arith)
        requires
            n == request.value as int * request.unit.spec_multiplier()
                && request.value >= 0 && request.unit.spec_multiplier() >= 1,
    ;
    match request.absolute_tolerance {
        Some(a) => {
            let m = match request.absolute_tolerance_unit {
                Some(u) => u.spec_multiplier(),
                None => 0,
            };
            lemma_mul_upper_bound(a as int, u64::MAX as int, m, max_multiplier());
            assert(d >= 0) by (nonlinear_arith)
                requires
                    d == a as int * m && a >= 0 && m >= 1,
            ;
        },
        None => {
            let p = match request.tolerance_percentage {
                Some(p) => p as int,
                None => 0,
            };
            crate::window::lemma_pct_delta_bounds(n, p);
        },
    }
    crate::window::lemma_window_monotonic(n, d);
}

/// The window this request describes, computed in exact integer arithmetic.
pub fn inductor_window(request: &InductorRequest) -> (w: NormalizedValue)
    requires
        request.valid(),
    ensures
        w == request.spec_window(),
        w.wf(),
{
    let nominal = get_inductor_value(request.value, request.unit);
    let delta = match &request.absolute_tolerance {
        Some(a) => get_inductor_value(*a, request.absolute_tolerance_unit.unwrap()),
        None => pct_delta(nominal, request.tolerance_percentage.unwrap()),
    };
    window(nominal, delta)
}

/// One bound of the search window: the nominal value plus or minus the
/// tolerance half-width, clamped at zero downwards.
pub fn get_inductor_tolerance(request: &InductorRequest, tolerance: Tolerance) -> (r: u128)
    requires
        request.valid(),
    ensures
        r == match tolerance {
            Tolerance::Up => request.spec_window().high,
            Tolerance::Down => request.spec_window().low,
        },
{
    let w = inductor_window(request);
    match tolerance {
        Tolerance::Up => w.high,
        Tolerance::Down => w.low,
    }
}

/// Searches the catalog for inductors matching the request: parts declared
/// at exactly the nominal value first, the full window only when there are
/// none, ranked best-first.
pub fn find_inductor(catalog: &Vec<Component>, request: &InductorRequest) -> (r: Result<
    Vec<Component>,
    PartError,
>)
    requires
        request.valid(),
    ensures
        ({
            let cands = spec_candidates(
                catalog@,
                Family::Inductor,
                request.spec_window(),
                request.package,
            );
            match r {
                Ok(v) => cands.len() > 0 && v@ == spec_rank(cands),
                Err(e) => cands.len() == 0 && e == PartError::NoMatch,
            }
        }),
{
    let w = inductor_window(request);
    let exact = find_in_range(catalog, Family::Inductor, w.nominal, w.nominal, &request.package);
    let candidates = if exact.len() > 0 {
        exact
    } else {
        find_in_range(catalog, Family::Inductor, w.low, w.high, &request.package)
    };
    if candidates.len() == 0 {
        Err(PartError::NoMatch)
    } else {
        Ok(sort_components(candidates))
    }
}

/// What resolving a inductor request returns: a validation error for a
/// malformed tolerance specification, the negative outcome when both query
/// phases are empty, and otherwise the best-ranked candidate of the winning
/// phase. A function of the catalog snapshot and the request alone:
/// resolving the same request twice against an unchanged catalog yields the
/// identical result.
pub open spec fn spec_resolve_inductor(cat: Seq<Component>, request: InductorRequest) -> Result<
    PartMatch,
    PartError,
> {
    match request.spec_fault() {
        Some(f) => Err(PartError::Validation(f)),
        None => spec_select(cat, Family::Inductor, request.spec_window(), request.package),
    }
}

/// Resolves a inductor request against the catalog snapshot: validate,
/// convert, compute the window, search in two phases, rank, select.
pub fn resolve_inductor(catalog: &Vec<Component>, request: &InductorRequest) -> (r: Result<
    PartMatch,
    PartError,
>)
    ensures
        r == spec_resolve_inductor(catalog@, *request),
{
    match validate_tolerance(
        &request.tolerance_percentage,
        request.absolute_tolerance.is_some(),
        request.absolute_tolerance_unit.is_some(),
    ) {
        Some(f) => Err(PartError::Validation(f)),
        None => {
            let w = inductor_window(request);
            select_part(catalog, Family::Inductor, w, &request.package)
        },
    }
}

/// Tier priority for inductor resolution: when a well-shaped request finds
/// some row declared at exactly its nominal value, resolution selects an
/// exact-tier part declared at exactly that value, regardless of the stock
/// or preference of any in-window row.
pub proof fn lemma_resolve_inductor_exact_priority(
    cat: Seq<Component>,
    request: InductorRequest,
    witness: int,
)
    requires
        request.valid(),
        0 <= witness < cat.len(),
        spec_matches(
            cat[witness],
            Family::Inductor,
            request.spec_window().nominal as int,
            request.spec_window().nominal as int,
            request.package,
        ),
    ensures
        spec_resolve_inductor(cat, request) matches Ok(m) && m.tier == MatchTier::Exact
            && crate::catalog::spec_declared_value(m.component, Family::Inductor) == Some(
            request.spec_window().nominal,
        ),
{
    lemma_exact_tier_priority(
        cat,
        Family::Inductor,
        request.spec_window(),
        request.package,
        witness,
    );
}

} // verus!
