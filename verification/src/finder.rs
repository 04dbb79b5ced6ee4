//! The string-labelled request API and its response shape.
//!
//! Requests name their family ("resistor", "capacitor", "inductor") and
//! unit by string label. The response reports the selected part together
//! with the normalized window that found it, in base units (picoohm,
//! picofarad, picohenry) under the matching label.

use vstd::prelude::*;
use crate::catalog::{clone_opt_string, Component};
use crate::errors::{spec_family_name, family_name};
use crate::ext::{new_uuid, str_eq};
use crate::ranking::{sort_components, spec_rank};
use crate::resolver::{select_part, spec_candidates};
use crate::units::{spec_label_multiplier, to_base, Family};
use crate::window::{pct_delta, spec_high, spec_low, spec_pct_delta, window, NormalizedValue};

verus! {

/// A physical magnitude with its unit label and tolerance. In a request the
/// nominal value is a mantissa in the labelled unit and `min_val`/`max_val`
/// are informational only: the engine recomputes the window from the
/// nominal value and the tolerance percentage. In a response all three
/// values are in base units under a base-unit label.
#[derive(Debug)]
pub struct JLCValue {
    pub unit: String,
    pub min_val: u128,
    pub max_val: u128,
    pub nominal: u128,
    pub tolerance_pct: u64,
}

/// A request against the string-labelled API.
#[derive(Debug)]
pub struct JLCPartRequest {
    pub designator_prefix: String,
    pub mpn: String,
    pub type_field: String,
    pub value: JLCValue,
    pub package: Option<String>,
}

/// A voltage rating reported with the selected part.
#[derive(Debug)]
pub struct Voltage {
    pub min_val: i64,
    pub unit: String,
    pub max_val: i64,
}

/// The footprint name derived from the family and package.
#[derive(Debug)]
pub struct Footprint {
    pub kicad: String,
}

/// Where the footprint definition comes from.
#[derive(Debug)]
pub struct FootprintData {
    pub kicad: String,
}

/// The selected part as the transport layer reports it.
#[derive(Debug)]
pub struct BestComponent {
    pub description: String,
    pub type_field: String,
    pub uuid: String,
    pub value: JLCValue,
    pub stock: u64,
    pub code: String,
    pub voltage: Voltage,
    pub price_usd: Option<u64>,
    pub area: Option<u64>,
    pub footprint: Footprint,
    pub mpn: String,
    pub datasheet: String,
    pub category: String,
    pub lcsc_id: String,
    pub package: String,
    pub footprint_data: FootprintData,
    pub dielectric: Option<String>,
    pub basic_part: bool,
}

/// A successful response: the best matching part.
#[derive(Debug)]
pub struct JLCPartResponse {
    pub best_component: BestComponent,
}

/// The contents of an optional string, or the empty sequence.
pub open spec fn spec_or_empty(o: Option<String>) -> Seq<char> {
    match o {
        Some(s) => s@,
        None => Seq::empty(),
    }
}

fn or_empty(o: &Option<String>) -> (r: String)
    ensures
        r@ == spec_or_empty(*o),
{
    match o {
        Some(s) => s.clone(),
        None => String::new(),
    }
}

/// The family a request names, if any.
pub open spec fn spec_request_family(type_field: Seq<char>) -> Option<Family> {
    if type_field == "resistor"@ {
        Some(Family::Resistor)
    } else if type_field == "capacitor"@ {
        Some(Family::Capacitor)
    } else if type_field == "inductor"@ {
        Some(Family::Inductor)
    } else {
        None
    }
}

/// The base-unit label under which a response reports its values.
pub open spec fn spec_base_unit_label(family: Family) -> Seq<char> {
    match family {
        Family::Resistor => "pΩ"@,
        Family::Capacitor => "pF"@,
        Family::Inductor => "pH"@,
    }
}

fn base_unit_label(family: Family) -> (r: &'static str)
    ensures
        r@ == spec_base_unit_label(family),
{
    match family {
        Family::Resistor => "pΩ",
        Family::Capacitor => "pF",
        Family::Inductor => "pH",
    }
}

/// The footprint name: the package prefixed by "R" or "C" for resistors and
/// capacitors, a bare "L" for inductors, empty for anything else.
pub open spec fn spec_kicad_footprint(type_field: Seq<char>, package: Option<String>) -> Seq<
    char,
> {
    if type_field == "resistor"@ {
        "R"@ + spec_or_empty(package)
    } else if type_field == "capacitor"@ {
        "C"@ + spec_or_empty(package)
    } else if type_field == "inductor"@ {
        "L"@
    } else {
        Seq::empty()
    }
}

fn kicad_footprint(type_field: &String, package: &Option<String>) -> (r: String)
    ensures
        r@ == spec_kicad_footprint(type_field@, *package),
{
    if str_eq(type_field.as_str(), "resistor") {
        let pkg = or_empty(package);
        String::from_str("R").concat(pkg.as_str())
    } else if str_eq(type_field.as_str(), "capacitor") {
        let pkg = or_empty(package);
        String::from_str("C").concat(pkg.as_str())
    } else if str_eq(type_field.as_str(), "inductor") {
        String::from_str("L")
    } else {
        String::new()
    }
}

/// How every reported field except the value block derives from the request
/// and the selected part. The identifier is fresh per response, so only its
/// length is determined.
pub open spec fn spec_best_fields(b: BestComponent, type_field: Seq<char>, c: Component) -> bool {
    &&& b.description@ == spec_or_empty(c.description)
    &&& b.type_field@ == type_field
    &&& b.uuid@.len() == 36
    &&& b.stock == c.stock
    &&& b.code@ == "200"@
    &&& b.voltage.min_val == 0
    &&& b.voltage.max_val == 0
    &&& b.voltage.unit@ == "V"@
    &&& b.price_usd == c.price
    &&& b.area is None
    &&& b.footprint.kicad@ == spec_kicad_footprint(type_field, c.package)
    &&& b.mpn@ == spec_or_empty(c.mfr)
    &&& b.datasheet@ == spec_or_empty(c.datasheet)
    &&& b.category@ == "Resistors"@
    &&& b.lcsc_id@ == c.lcsc@
    &&& b.package@ == spec_or_empty(c.package)
    &&& b.footprint_data.kicad@ == "standard-library"@
    &&& b.dielectric == c.dielectric
    &&& b.basic_part == c.basic
}

/// Builds the reported fields for one selected part.
fn build_best_component(type_field: &String, component: &Component, value: JLCValue) -> (b:
    BestComponent)
    ensures
        spec_best_fields(b, type_field@, *component),
        b.value == value,
{
    let kicad = kicad_footprint(type_field, &component.package);
    BestComponent {
        description: or_empty(&component.description),
        type_field: type_field.clone(),
        uuid: new_uuid(),
        value,
        stock: component.stock,
        code: String::from_str("200"),
        voltage: Voltage { min_val: 0, unit: String::from_str("V"), max_val: 0 },
        price_usd: component.price,
        area: None,
        footprint: Footprint { kicad },
        mpn: or_empty(&component.mfr),
        datasheet: or_empty(&component.datasheet),
        category: String::from_str("Resistors"),
        lcsc_id: component.lcsc.clone(),
        package: or_empty(&component.package),
        footprint_data: FootprintData { kicad: String::from_str("standard-library") },
        dielectric: clone_opt_string(&component.dielectric),
        basic_part: component.basic,
    }
}

/// Ranks a candidate list and reports its best part: the response carries
/// the fields of the best-ranked candidate and the value block handed in.
pub fn component_vec_to_jlcpb_part_response(
    request: &JLCPartRequest,
    components: Vec<Component>,
    jlc_value: JLCValue,
) -> (r: JLCPartResponse)
    requires
        components@.len() > 0,
    ensures
        spec_best_fields(
            r.best_component,
            request.type_field@,
            spec_rank(components@)[0],
        ),
        r.best_component.value == jlc_value,
{
    proof {
        crate::ranking::lemma_rank_ensures(components@);
    }
    let ranked = sort_components(components);
    let best = &ranked[0];
    JLCPartResponse { best_component: build_best_component(&request.type_field, best, jlc_value) }
}

/// What resolving a string-labelled request decides: which family was
/// named, whether the label and percentage were acceptable, and which part
/// the two-phase search selected under which window.
pub enum FindOutcome {
    /// The request names no known family.
    UnsupportedType,
    /// The unit label is not in the family's table, or both query phases
    /// came back empty.
    NotFound(Family),
    /// The tolerance percentage exceeds one hundred.
    BadPercentage,
    /// The best-ranked candidate and the window that found it.
    Found(Family, Component, NormalizedValue),
}

/// The outcome of a string-labelled request against a catalog snapshot: a
/// function of the two alone, so resolving the same request twice against
/// an unchanged catalog decides the same outcome.
pub open spec fn spec_find_part(cat: Seq<Component>, request: JLCPartRequest) -> FindOutcome {
    match spec_request_family(request.type_field@) {
        None => FindOutcome::UnsupportedType,
        Some(f) => match spec_label_multiplier(f, request.value.unit@) {
            None => FindOutcome::NotFound(f),
            Some(m) => {
                if request.value.tolerance_pct > 100 {
                    FindOutcome::BadPercentage
                } else {
                    let nominal = request.value.nominal as int * m;
                    let delta = spec_pct_delta(nominal, request.value.tolerance_pct as int);
                    let w = NormalizedValue {
                        nominal: nominal as u128,
                        low: spec_low(nominal, delta) as u128,
                        high: spec_high(nominal, delta) as u128,
                    };
                    let cands = spec_candidates(cat, f, w, request.package);
                    if cands.len() == 0 {
                        FindOutcome::NotFound(f)
                    } else {
                        FindOutcome::Found(f, spec_rank(cands)[0], w)
                    }
                }
            },
        },
    }
}

fn not_found_message(family: Family) -> (r: String)
    ensures
        r@ == "No "@ + spec_family_name(family) + " found"@,
{
    String::from_str("No ").concat(family_name(family)).concat(" found")
}

/// Resolves a string-labelled request: dispatch on the named family, parse
/// the unit label, check the percentage, convert, window, search in two
/// phases, rank, and report the best part. Each failure carries the exact
/// message the outcome prescribes.
pub fn find_part(catalog: &Vec<Component>, request: &JLCPartRequest) -> (r: Result<
    JLCPartResponse,
    String,
>)
    requires
        request.value.nominal <= u64::MAX,
    ensures
        ({
            match spec_find_part(catalog@, *request) {
                FindOutcome::UnsupportedType => match r {
                    Ok(_) => false,
                    Err(msg) => msg@ == "Unsupported part type"@,
                },
                FindOutcome::BadPercentage => match r {
                    Ok(_) => false,
                    Err(msg) => msg@ == "Tolerance percentage must be between 0 and 100"@,
                },
                FindOutcome::NotFound(f) => match r {
                    Ok(_) => false,
                    Err(msg) => msg@ == "No "@ + spec_family_name(f) + " found"@,
                },
                FindOutcome::Found(f, c, w) => match r {
                    Ok(resp) => {
                        &&& spec_best_fields(resp.best_component, request.type_field@, c)
                        &&& resp.best_component.value.unit@ == spec_base_unit_label(f)
                        &&& resp.best_component.value.nominal == w.nominal
                        &&& resp.best_component.value.min_val == w.low
                        &&& resp.best_component.value.max_val == w.high
                        &&& resp.best_component.value.tolerance_pct == request.value.tolerance_pct
                    },
                    Err(_) => false,
                },
            }
        }),
{
    let tf = request.type_field.as_str();
    let family = if str_eq(tf, "resistor") {
        Family::Resistor
    } else if str_eq(tf, "capacitor") {
        Family::Capacitor
    } else if str_eq(tf, "inductor") {
        Family::Inductor
    } else {
        return Err(String::from_str("Unsupported part type"));
    };
    let label = request.value.unit.as_str();
    let mantissa = request.value.nominal as u64;
    let nominal = match to_base(family, mantissa, label) {
        Ok(b) => b,
        Err(_) => return Err(not_found_message(family)),
    };
    if request.value.tolerance_pct > 100 {
        return Err(String::from_str("Tolerance percentage must be between 0 and 100"));
    }
    let delta = pct_delta(nominal, request.value.tolerance_pct);
    let w = window(nominal, delta);
    match select_part(catalog, family, w, &request.package) {
        Err(_) => Err(not_found_message(family)),
        Ok(m) => {
            let jlc_value = JLCValue {
                unit: String::from_str(base_unit_label(family)),
                min_val: w.low,
                max_val: w.high,
                nominal: w.nominal,
                tolerance_pct: request.value.tolerance_pct,
            };
            Ok(
                JLCPartResponse {
                    best_component: build_best_component(
                        &request.type_field,
                        &m.component,
                        jlc_value,
                    ),
                },
            )
        },
    }
}

} // verus!
