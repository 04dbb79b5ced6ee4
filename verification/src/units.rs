//! Unit vocabulary and exact base-unit conversion.
//!
//! Every family (resistor, capacitor, inductor) accepts the same ladder of
//! power-of-ten prefixes, from pico to mega. Values are normalized to an
//! integer count of the family's smallest unit (picoohm, picofarad,
//! picohenry), so every conversion is an exact multiplication by a power of
//! ten and round-trips without loss.

use vstd::prelude::*;
use crate::errors::PartError;
use crate::ext::str_eq;
use vstd::arithmetic::div_mod::{lemma_div_multiples_vanish, lemma_mod_multiples_basic};
use vstd::arithmetic::mul::lemma_mul_upper_bound;

verus! {

/// The component families the engine understands.
#[derive(Clone, Copy, PartialEq, Eq, Structural, Debug)]
pub enum Family {
    Resistor,
    Capacitor,
    Inductor,
}

/// Resistance unit labels, each a power of ten above one picoohm.
#[derive(Clone, Copy, PartialEq, Eq, Structural, Debug)]
pub enum ResistorUnit {
    MegaOhm,
    KiloOhm,
    Ohm,
    MilliOhm,
    MicroOhm,
    NanoOhm,
    PicoOhm,
}

/// Capacitance unit labels, each a power of ten above one picofarad.
#[derive(Clone, Copy, PartialEq, Eq, Structural, Debug)]
pub enum CapacitorUnit {
    PicoFarad,
    NanoFarad,
    MicroFarad,
    MilliFarad,
    Farad,
    KiloFarad,
    MegaFarad,
}

/// Inductance unit labels, each a power of ten above one picohenry.
#[derive(Clone, Copy, PartialEq, Eq, Structural, Debug)]
pub enum InductorUnit {
    PicoHenry,
    NanoHenry,
    MicroHenry,
    MilliHenry,
    Henry,
    KiloHenry,
    MegaHenry,
}

/// The largest multiplier in the ladder: mega is eighteen decimal orders of
/// magnitude above pico.
pub open spec fn max_multiplier() -> int {
    1_000_000_000_000_000_000
}

/// The largest base-unit magnitude any request can produce: a full 64-bit
/// mantissa scaled by the mega multiplier. Every window bound stays below
/// twice this, so all window arithmetic fits in a `u128`.
pub open spec fn max_base() -> int {
    18_446_744_073_709_551_615int * 1_000_000_000_000_000_000
}

impl ResistorUnit {
    /// The power of ten that takes one unit of this label to picoohms.
    pub open spec fn spec_multiplier(self) -> int {
        match self {
            ResistorUnit::PicoOhm => 1,
            ResistorUnit::NanoOhm => 1_000,
            ResistorUnit::MicroOhm => 1_000_000,
            ResistorUnit::MilliOhm => 1_000_000_000,
            ResistorUnit::Ohm => 1_000_000_000_000,
            ResistorUnit::KiloOhm => 1_000_000_000_000_000,
            ResistorUnit::MegaOhm => 1_000_000_000_000_000_000,
        }
    }

    pub fn multiplier(self) -> (m: u64)
        ensures
            m == self.spec_multiplier(),
            1 <= m <= max_multiplier(),
    {
        match self {
            ResistorUnit::PicoOhm => 1,
            ResistorUnit::NanoOhm => 1_000,
            ResistorUnit::MicroOhm => 1_000_000,
            ResistorUnit::MilliOhm => 1_000_000_000,
            ResistorUnit::Ohm => 1_000_000_000_000,
            ResistorUnit::KiloOhm => 1_000_000_000_000_000,
            ResistorUnit::MegaOhm => 1_000_000_000_000_000_000,
        }
    }
}

impl CapacitorUnit {
    /// The power of ten that takes one unit of this label to picofarads.
    pub open spec fn spec_multiplier(self) -> int {
        match self {
            CapacitorUnit::PicoFarad => 1,
            CapacitorUnit::NanoFarad => 1_000,
            CapacitorUnit::MicroFarad => 1_000_000,
            CapacitorUnit::MilliFarad => 1_000_000_000,
            CapacitorUnit::Farad => 1_000_000_000_000,
            CapacitorUnit::KiloFarad => 1_000_000_000_000_000,
            CapacitorUnit::MegaFarad => 1_000_000_000_000_000_000,
        }
    }

    pub fn multiplier(self) -> (m: u64)
        ensures
            m == self.spec_multiplier(),
            1 <= m <= max_multiplier(),
    {
        match self {
            CapacitorUnit::PicoFarad => 1,
            CapacitorUnit::NanoFarad => 1_000,
            CapacitorUnit::MicroFarad => 1_000_000,
            CapacitorUnit::MilliFarad => 1_000_000_000,
            CapacitorUnit::Farad => 1_000_000_000_000,
            CapacitorUnit::KiloFarad => 1_000_000_000_000_000,
            CapacitorUnit::MegaFarad => 1_000_000_000_000_000_000,
        }
    }
}

impl InductorUnit {
    /// The power of ten that takes one unit of this label to picohenries.
    pub open spec fn spec_multiplier(self) -> int {
        match self {
            InductorUnit::PicoHenry => 1,
            InductorUnit::NanoHenry => 1_000,
            InductorUnit::MicroHenry => 1_000_000,
            InductorUnit::MilliHenry => 1_000_000_000,
            InductorUnit::Henry => 1_000_000_000_000,
            InductorUnit::KiloHenry => 1_000_000_000_000_000,
            InductorUnit::MegaHenry => 1_000_000_000_000_000_000,
        }
    }

    pub fn multiplier(self) -> (m: u64)
        ensures
            m == self.spec_multiplier(),
            1 <= m <= max_multiplier(),
    {
        match self {
            InductorUnit::PicoHenry => 1,
            InductorUnit::NanoHenry => 1_000,
            InductorUnit::MicroHenry => 1_000_000,
            InductorUnit::MilliHenry => 1_000_000_000,
            InductorUnit::Henry => 1_000_000_000_000,
            InductorUnit::KiloHenry => 1_000_000_000_000_000,
            InductorUnit::MegaHenry => 1_000_000_000_000_000_000,
        }
    }
}

/// A magnitude expressed in base units, scaled back down by a unit's
/// multiplier: defined exactly when the division is lossless and the result
/// fits a 64-bit mantissa.
pub open spec fn spec_from_base(base: int, multiplier: int) -> Option<u64>
    recommends
        multiplier >= 1,
{
    if base % multiplier == 0 && base / multiplier <= u64::MAX {
        Some((base / multiplier) as u64)
    } else {
        None
    }
}

/// Scales a base-unit magnitude back to the given multiplier's unit.
/// Returns `None` when the magnitude is not a whole number of that unit or
/// does not fit a 64-bit mantissa.
pub fn from_base(base: u128, multiplier: u64) -> (r: Option<u64>)
    requires
        multiplier >= 1,
    ensures
        r == spec_from_base(base as int, multiplier as int),
{
    let q = base / (multiplier as u128);
    let rem = base % (multiplier as u128);
    if rem == 0 && q <= u64::MAX as u128 {
        Some(q as u64)
    } else {
        None
    }
}

/// Round-trip law: scaling a mantissa up by a unit's multiplier and back
/// down again returns the mantissa exactly, for every unit in the ladder.
pub proof fn lemma_round_trip(v: u64, multiplier: int)
    requires
        multiplier >= 1,
    ensures
        spec_from_base(v as int * multiplier, multiplier) == Some(v),
{
    lemma_mod_multiples_basic(v as int, multiplier);
    lemma_div_multiples_vanish(v as int, multiplier);
    assert(multiplier * v as int == v as int * multiplier) by (nonlinear_arith);
}

/// Round trip for every accepted resistance unit: a mantissa converted to
/// picoohms and back under the same unit is returned exactly.
pub proof fn lemma_resistor_round_trip(v: u64, unit: ResistorUnit)
    ensures
        spec_from_base(v as int * unit.spec_multiplier(), unit.spec_multiplier()) == Some(v),
{
    lemma_round_trip(v, unit.spec_multiplier());
}

/// Round trip for every accepted capacitance unit.
pub proof fn lemma_capacitor_round_trip(v: u64, unit: CapacitorUnit)
    ensures
        spec_from_base(v as int * unit.spec_multiplier(), unit.spec_multiplier()) == Some(v),
{
    lemma_round_trip(v, unit.spec_multiplier());
}

/// Round trip for every accepted inductance unit.
pub proof fn lemma_inductor_round_trip(v: u64, unit: InductorUnit)
    ensures
        spec_from_base(v as int * unit.spec_multiplier(), unit.spec_multiplier()) == Some(v),
{
    lemma_round_trip(v, unit.spec_multiplier());
}

/// The labels accepted for resistance values: a symbol and a spelled-out
/// synonym for each prefix.
pub open spec fn spec_parse_resistor_unit(label: Seq<char>) -> Option<ResistorUnit> {
    if label == "pΩ"@ || label == "picoohm"@ {
        Some(ResistorUnit::PicoOhm)
    } else if label == "nΩ"@ || label == "nanoohm"@ {
        Some(ResistorUnit::NanoOhm)
    } else if label == "μΩ"@ || label == "uΩ"@ || label == "microohm"@ {
        Some(ResistorUnit::MicroOhm)
    } else if label == "mΩ"@ || label == "milliohm"@ {
        Some(ResistorUnit::MilliOhm)
    } else if label == "kΩ"@ || label == "kiloohm"@ {
        Some(ResistorUnit::KiloOhm)
    } else if label == "MΩ"@ || label == "megaohm"@ {
        Some(ResistorUnit::MegaOhm)
    } else if label == "Ω"@ || label == "ohm"@ {
        Some(ResistorUnit::Ohm)
    } else {
        None
    }
}

pub fn parse_resistor_unit(label: &str) -> (r: Option<ResistorUnit>)
    ensures
        r == spec_parse_resistor_unit(label@),
{
    if str_eq(label, "pΩ") || str_eq(label, "picoohm") {
        Some(ResistorUnit::PicoOhm)
    } else if str_eq(label, "nΩ") || str_eq(label, "nanoohm") {
        Some(ResistorUnit::NanoOhm)
    } else if str_eq(label, "μΩ") || str_eq(label, "uΩ") || str_eq(label, "microohm") {
        Some(ResistorUnit::MicroOhm)
    } else if str_eq(label, "mΩ") || str_eq(label, "milliohm") {
        Some(ResistorUnit::MilliOhm)
    } else if str_eq(label, "kΩ") || str_eq(label, "kiloohm") {
        Some(ResistorUnit::KiloOhm)
    } else if str_eq(label, "MΩ") || str_eq(label, "megaohm") {
        Some(ResistorUnit::MegaOhm)
    } else if str_eq(label, "Ω") || str_eq(label, "ohm") {
        Some(ResistorUnit::Ohm)
    } else {
        None
    }
}

/// The labels accepted for capacitance values.
pub open spec fn spec_parse_capacitor_unit(label: Seq<char>) -> Option<CapacitorUnit> {
    if label == "pF"@ || label == "picofarad"@ {
        Some(CapacitorUnit::PicoFarad)
    } else if label == "nF"@ || label == "nanofarad"@ {
        Some(CapacitorUnit::NanoFarad)
    } else if label == "μF"@ || label == "uF"@ || label == "microfarad"@ {
        Some(CapacitorUnit::MicroFarad)
    } else if label == "mF"@ || label == "millifarad"@ {
        Some(CapacitorUnit::MilliFarad)
    } else if label == "kF"@ || label == "kilofarad"@ {
        Some(CapacitorUnit::KiloFarad)
    } else if label == "MF"@ || label == "megafarad"@ {
        Some(CapacitorUnit::MegaFarad)
    } else if label == "F"@ || label == "farad"@ {
        Some(CapacitorUnit::Farad)
    } else {
        None
    }
}

pub fn parse_capacitor_unit(label: &str) -> (r: Option<CapacitorUnit>)
    ensures
        r == spec_parse_capacitor_unit(label@),
{
    if str_eq(label, "pF") || str_eq(label, "picofarad") {
        Some(CapacitorUnit::PicoFarad)
    } else if str_eq(label, "nF") || str_eq(label, "nanofarad") {
        Some(CapacitorUnit::NanoFarad)
    } else if str_eq(label, "μF") || str_eq(label, "uF") || str_eq(label, "microfarad") {
        Some(CapacitorUnit::MicroFarad)
    } else if str_eq(label, "mF") || str_eq(label, "millifarad") {
        Some(CapacitorUnit::MilliFarad)
    } else if str_eq(label, "kF") || str_eq(label, "kilofarad") {
        Some(CapacitorUnit::KiloFarad)
    } else if str_eq(label, "MF") || str_eq(label, "megafarad") {
        Some(CapacitorUnit::MegaFarad)
    } else if str_eq(label, "F") || str_eq(label, "farad") {
        Some(CapacitorUnit::Farad)
    } else {
        None
    }
}

/// The labels accepted for inductance values.
pub open spec fn spec_parse_inductor_unit(label: Seq<char>) -> Option<InductorUnit> {
    if label == "pH"@ || label == "picohenry"@ {
        Some(InductorUnit::PicoHenry)
    } else if label == "nH"@ || label == "nanohenry"@ {
        Some(InductorUnit::NanoHenry)
    } else if label == "μH"@ || label == "uH"@ || label == "microhenry"@ {
        Some(InductorUnit::MicroHenry)
    } else if label == "mH"@ || label == "millihenry"@ {
        Some(InductorUnit::MilliHenry)
    } else if label == "kH"@ || label == "kilohenry"@ {
        Some(InductorUnit::KiloHenry)
    } else if label == "MH"@ || label == "megahenry"@ {
        Some(InductorUnit::MegaHenry)
    } else if label == "H"@ || label == "henry"@ {
        Some(InductorUnit::Henry)
    } else {
        None
    }
}

pub fn parse_inductor_unit(label: &str) -> (r: Option<InductorUnit>)
    ensures
        r == spec_parse_inductor_unit(label@),
{
    if str_eq(label, "pH") || str_eq(label, "picohenry") {
        Some(InductorUnit::PicoHenry)
    } else if str_eq(label, "nH") || str_eq(label, "nanohenry") {
        Some(InductorUnit::NanoHenry)
    } else if str_eq(label, "μH") || str_eq(label, "uH") || str_eq(label, "microhenry") {
        Some(InductorUnit::MicroHenry)
    } else if str_eq(label, "mH") || str_eq(label, "millihenry") {
        Some(InductorUnit::MilliHenry)
    } else if str_eq(label, "kH") || str_eq(label, "kilohenry") {
        Some(InductorUnit::KiloHenry)
    } else if str_eq(label, "MH") || str_eq(label, "megahenry") {
        Some(InductorUnit::MegaHenry)
    } else if str_eq(label, "H") || str_eq(label, "henry") {
        Some(InductorUnit::Henry)
    } else {
        None
    }
}

/// The multiplier a label denotes for a family, if the label is in the
/// family's table.
pub open spec fn spec_label_multiplier(family: Family, label: Seq<char>) -> Option<int> {
    match family {
        Family::Resistor => match spec_parse_resistor_unit(label) {
            Some(u) => Some(u.spec_multiplier()),
            None => None,
        },
        Family::Capacitor => match spec_parse_capacitor_unit(label) {
            Some(u) => Some(u.spec_multiplier()),
            None => None,
        },
        Family::Inductor => match spec_parse_inductor_unit(label) {
            Some(u) => Some(u.spec_multiplier()),
            None => None,
        },
    }
}

/// Converts a magnitude under a unit label into the family's base unit.
/// A label outside the family's table fails, carrying the family and the
/// offending label; a known label converts exactly, by one multiplication.
pub fn to_base(family: Family, value: u64, label: &str) -> (r: Result<u128, PartError>)
    ensures
        match spec_label_multiplier(family, label@) {
            Some(m) => r matches Ok(b) && b == value as int * m && b <= max_base(),
            None => r matches Err(e) && (e matches PartError::UnsupportedUnit(f, l) && f == family
                && l@ == label@),
        },
{
    let multiplier: Option<u64> = match family {
        Family::Resistor => match parse_resistor_unit(label) {
            Some(u) => Some(u.multiplier()),
            None => None,
        },
        Family::Capacitor => match parse_capacitor_unit(label) {
            Some(u) => Some(u.multiplier()),
            None => None,
        },
        Family::Inductor => match parse_inductor_unit(label) {
            Some(u) => Some(u.multiplier()),
            None => None,
        },
    };
    match multiplier {
        Some(m) => {
            proof {
                lemma_mul_upper_bound(value as int, u64::MAX as int, m as int, max_multiplier());
            }
            Ok((value as u128) * (m as u128))
        },
        None => Err(PartError::UnsupportedUnit(family, label.to_owned())),
    }
}

} // verus!
