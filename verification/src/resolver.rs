//! Two-phase selection of the best catalog part.
//!
//! A part declared at exactly the requested nominal value always beats any
//! merely in-window neighbour, whatever their stock or preference flags, so
//! the search runs in two phases: first a zero-width window at the nominal
//! value, then, only if that found nothing, the full tolerance window. The
//! winning phase's candidates are ranked and the best one returned.

use vstd::prelude::*;
use crate::catalog::{
    find_in_range, lemma_find_in_range_members, lemma_find_in_range_nonempty, spec_declared_value,
    spec_find_in_range, spec_matches, Component,
};
use crate::errors::PartError;
use crate::ranking::{lemma_rank_ensures, lemma_rank_members, sort_components, spec_rank};
use crate::units::Family;
use crate::window::NormalizedValue;

verus! {

/// Which query phase produced the selected part.
#[derive(Clone, Copy, PartialEq, Eq, Structural, Debug)]
pub enum MatchTier {
    Exact,
    Range,
}

/// A successful resolution: the selected part, the phase that found it, and
/// the normalized window that was searched.
#[derive(Debug)]
pub struct PartMatch {
    pub component: Component,
    pub tier: MatchTier,
    pub normalized: NormalizedValue,
}

/// The two-phase candidate set: the rows declared exactly at the nominal
/// value, or, only when there are none, the rows inside the full window.
pub open spec fn spec_candidates(
    cat: Seq<Component>,
    family: Family,
    w: NormalizedValue,
    filter: Option<String>,
) -> Seq<Component> {
    let exact = spec_find_in_range(cat, family, w.nominal as int, w.nominal as int, filter);
    if exact.len() > 0 {
        exact
    } else {
        spec_find_in_range(cat, family, w.low as int, w.high as int, filter)
    }
}

/// The tier of the winning phase.
pub open spec fn spec_tier(
    cat: Seq<Component>,
    family: Family,
    w: NormalizedValue,
    filter: Option<String>,
) -> MatchTier {
    if spec_find_in_range(cat, family, w.nominal as int, w.nominal as int, filter).len() > 0 {
        MatchTier::Exact
    } else {
        MatchTier::Range
    }
}

/// What selection returns: the best-ranked candidate of the winning phase,
/// or the negative outcome when both phases are empty. A function of the
/// catalog snapshot and the window alone, so resolving the same request
/// against an unchanged catalog always yields the identical result.
pub open spec fn spec_select(
    cat: Seq<Component>,
    family: Family,
    w: NormalizedValue,
    filter: Option<String>,
) -> Result<PartMatch, PartError> {
    let cands = spec_candidates(cat, family, w, filter);
    if cands.len() == 0 {
        Err(PartError::NoMatch)
    } else {
        Ok(
            PartMatch {
                component: spec_rank(cands)[0],
                tier: spec_tier(cat, family, w, filter),
                normalized: w,
            },
        )
    }
}

/// Runs the two-phase search over the catalog snapshot and picks the
/// best-ranked candidate.
pub fn select_part(
    catalog: &Vec<Component>,
    family: Family,
    w: NormalizedValue,
    package: &Option<String>,
) -> (r: Result<PartMatch, PartError>)
    ensures
        r == spec_select(catalog@, family, w, *package),
{
    let exact = find_in_range(catalog, family, w.nominal, w.nominal, package);
    let (candidates, tier) = if exact.len() > 0 {
        (exact, MatchTier::Exact)
    } else {
        (find_in_range(catalog, family, w.low, w.high, package), MatchTier::Range)
    };
    if candidates.len() == 0 {
        Err(PartError::NoMatch)
    } else {
        proof {
            lemma_rank_ensures(candidates@);
        }
        let ranked = sort_components(candidates);
        let best = ranked[0].clone();
        Ok(PartMatch { component: best, tier, normalized: w })
    }
}

/// Tier priority: whenever some catalog row is declared at exactly the
/// nominal value (and passes the family and package filters), selection
/// succeeds, reports the exact tier, and returns a part declared at exactly
/// the nominal value - regardless of any in-window row's stock or
/// preference.
pub proof fn lemma_exact_tier_priority(
    cat: Seq<Component>,
    family: Family,
    w: NormalizedValue,
    filter: Option<String>,
    witness: int,
)
    requires
        0 <= witness < cat.len(),
        spec_matches(cat[witness], family, w.nominal as int, w.nominal as int, filter),
    ensures
        spec_select(cat, family, w, filter) matches Ok(m) && m.tier == MatchTier::Exact
            && spec_declared_value(m.component, family) == Some(w.nominal),
{
    lemma_find_in_range_nonempty(cat, family, w.nominal as int, w.nominal as int, filter, witness);
    let exact = spec_find_in_range(cat, family, w.nominal as int, w.nominal as int, filter);
    lemma_rank_ensures(exact);
    lemma_rank_members(exact, 0);
    let best = spec_rank(exact)[0];
    let k = choose|k: int| 0 <= k < exact.len() && exact[k] == best;
    lemma_find_in_range_members(cat, family, w.nominal as int, w.nominal as int, filter);
    assert(spec_matches(exact[k], family, w.nominal as int, w.nominal as int, filter));
}

} // verus!
