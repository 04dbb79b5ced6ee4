//! The error taxonomy and its mapping to a transport-level payload.
//!
//! A malformed tolerance specification is a validation error; an unknown
//! unit label is reported as "nothing of this description exists"; an empty
//! search is a normal negative outcome; a failing catalog store is a server
//! fault and must never masquerade as "not found".

use vstd::prelude::*;
use crate::units::Family;

verus! {

/// The ways a tolerance specification can be malformed.
#[derive(Clone, Copy, PartialEq, Eq, Structural, Debug)]
pub enum ValidationFault {
    PercentageOutOfRange,
    BothTolerances,
    NoTolerance,
    MissingAbsoluteUnit,
}

/// Everything that can end a resolution without a part.
#[derive(Debug)]
pub enum PartError {
    /// The request's tolerance specification is malformed.
    Validation(ValidationFault),
    /// The unit label is not in the family's conversion table; carries the
    /// family and the offending label.
    UnsupportedUnit(Family, String),
    /// Both query phases came back empty: a normal negative result.
    NoMatch,
    /// The catalog store itself failed; never to be confused with an empty
    /// result.
    CatalogUnavailable,
}

/// The "no part found" payload the transport layer sends on failure.
#[derive(Debug)]
pub struct NoPartFound {
    pub code: i64,
    pub message: String,
}

/// Shape check for a tolerance specification: exactly one of the percentage
/// or the absolute amount must be present, a percentage stays within one
/// hundred, and an absolute amount carries its own unit.
pub open spec fn spec_validate(
    pct: Option<u64>,
    abs_set: bool,
    abs_unit_set: bool,
) -> Option<ValidationFault> {
    if (match pct {
        Some(p) => p > 100,
        None => false,
    }) {
        Some(ValidationFault::PercentageOutOfRange)
    } else if pct is Some && abs_set {
        Some(ValidationFault::BothTolerances)
    } else if pct is None && !abs_set {
        Some(ValidationFault::NoTolerance)
    } else if abs_set && !abs_unit_set {
        Some(ValidationFault::MissingAbsoluteUnit)
    } else {
        None
    }
}

pub fn validate_tolerance(pct: &Option<u64>, abs_set: bool, abs_unit_set: bool) -> (r: Option<
    ValidationFault,
>)
    ensures
        r == spec_validate(*pct, abs_set, abs_unit_set),
{
    let pct_too_large = match pct {
        Some(p) => *p > 100,
        None => false,
    };
    if pct_too_large {
        Some(ValidationFault::PercentageOutOfRange)
    } else if pct.is_some() && abs_set {
        Some(ValidationFault::BothTolerances)
    } else if pct.is_none() && !abs_set {
        Some(ValidationFault::NoTolerance)
    } else if abs_set && !abs_unit_set {
        Some(ValidationFault::MissingAbsoluteUnit)
    } else {
        None
    }
}

pub open spec fn spec_family_name(family: Family) -> Seq<char> {
    match family {
        Family::Resistor => "resistor"@,
        Family::Capacitor => "capacitor"@,
        Family::Inductor => "inductor"@,
    }
}

pub fn family_name(family: Family) -> (r: &'static str)
    ensures
        r@ == spec_family_name(family),
{
    match family {
        Family::Resistor => "resistor",
        Family::Capacitor => "capacitor",
        Family::Inductor => "inductor",
    }
}

/// The transport status code for each outcome: a malformed request is the
/// caller's fault, an unknown unit or an empty search is "not found", and a
/// failing store is a server error.
pub open spec fn spec_error_code(e: PartError) -> int {
    match e {
        PartError::Validation(_) => 400,
        PartError::UnsupportedUnit(_, _) => 404,
        PartError::NoMatch => 404,
        PartError::CatalogUnavailable => 500,
    }
}

pub fn error_code(e: &PartError) -> (code: i64)
    ensures
        code == spec_error_code(*e),
{
    match e {
        PartError::Validation(_) => 400,
        PartError::UnsupportedUnit(_, _) => 404,
        PartError::NoMatch => 404,
        PartError::CatalogUnavailable => 500,
    }
}

pub open spec fn spec_error_message(e: PartError) -> Seq<char> {
    match e {
        PartError::Validation(ValidationFault::PercentageOutOfRange) => {
            "Tolerance percentage must be between 0 and 100"@
        },
        PartError::Validation(ValidationFault::BothTolerances) => {
            "Either absolute_tolerance or tolerance_percentage must be set, not both"@
        },
        PartError::Validation(ValidationFault::NoTolerance) => {
            "Either absolute_tolerance or tolerance_percentage must be set, not neither"@
        },
        PartError::Validation(ValidationFault::MissingAbsoluteUnit) => {
            "If absolute_tolerance is set, absolute_tolerance_unit must also be set"@
        },
        PartError::UnsupportedUnit(family, label) => {
            "Unsupported "@ + spec_family_name(family) + " unit: "@ + label@
        },
        PartError::NoMatch => "No part found"@,
        PartError::CatalogUnavailable => "Catalog unavailable"@,
    }
}

pub fn error_message(e: &PartError) -> (message: String)
    ensures
        message@ == spec_error_message(*e),
{
    match e {
        PartError::Validation(ValidationFault::PercentageOutOfRange) => {
            String::from_str("Tolerance percentage must be between 0 and 100")
        },
        PartError::Validation(ValidationFault::BothTolerances) => {
            String::from_str("Either absolute_tolerance or tolerance_percentage must be set, not both")
        },
        PartError::Validation(ValidationFault::NoTolerance) => {
            String::from_str("Either absolute_tolerance or tolerance_percentage must be set, not neither")
        },
        PartError::Validation(ValidationFault::MissingAbsoluteUnit) => {
            String::from_str("If absolute_tolerance is set, absolute_tolerance_unit must also be set")
        },
        PartError::UnsupportedUnit(family, label) => {
            String::from_str("Unsupported ").concat(family_name(*family)).concat(
                " unit: ",
            ).concat(label.as_str())
        },
        PartError::NoMatch => String::from_str("No part found"),
        PartError::CatalogUnavailable => String::from_str("Catalog unavailable"),
    }
}

/// The failure payload for an outcome: its status code and its message.
pub fn no_part_found(e: &PartError) -> (r: NoPartFound)
    ensures
        r.code == spec_error_code(*e),
        r.message@ == spec_error_message(*e),
{
    NoPartFound { code: error_code(e), message: error_message(e) }
}

} // verus!
