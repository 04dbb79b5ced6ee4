use jlc_parts::catalog::Component;
use jlc_parts::errors::{no_part_found, PartError, ValidationFault};
use jlc_parts::finder::{find_part, component_vec_to_jlcpb_part_response, JLCPartRequest, JLCValue};
use jlc_parts::capacitor::{resolve_capacitor, CapacitorRequest};
use jlc_parts::inductor::{find_inductor, InductorRequest};
use jlc_parts::resistor::{find_resistor, resolve_resistor, ResistorRequest};
use jlc_parts::resolver::MatchTier;
use jlc_parts::units::{CapacitorUnit, InductorUnit, ResistorUnit};

fn part(
    id: u64,
    category_id: u64,
    value_pico: u128,
    basic: bool,
    stock: u64,
    package: Option<&str>,
) -> Component {
    Component {
        id,
        lcsc: format!("C{}", id),
        category_id,
        mfr: Some(format!("MFR-{}", id)),
        package: package.map(|p| p.to_string()),
        joints: 2,
        manufacturer: "ACME".to_string(),
        basic,
        description: Some("test part".to_string()),
        datasheet: Some("https://example.com/ds.pdf".to_string()),
        stock,
        price: Some(1_000),
        resistance: if category_id == 46 { Some(value_pico) } else { None },
        inductance: if category_id == 12 { Some(value_pico) } else { None },
        capacitance: if category_id == 27 { Some(value_pico) } else { None },
        dielectric: None,
    }
}

fn resistor_request_pct(value: u64, unit: ResistorUnit, pct: u64) -> ResistorRequest {
    ResistorRequest {
        unit,
        value,
        package: None,
        tolerance_percentage: Some(pct),
        absolute_tolerance: None,
        absolute_tolerance_unit: None,
    }
}

const KILOOHM: u128 = 1_000_000_000_000_000;
const OHM: u128 = 1_000_000_000_000;

#[test]
fn exact_tier_beats_stock_and_preference() {
    // A part declared at exactly 1000 ohm wins over an in-window part with
    // far more stock.
    let catalog = vec![
        part(1, 46, 1_000 * OHM, true, 500, Some("0402")),
        part(2, 46, 980 * OHM, false, 10_000, Some("0402")),
    ];
    let request = resistor_request_pct(1, ResistorUnit::KiloOhm, 5);
    let m = resolve_resistor(&catalog, &request).unwrap();
    assert_eq!(m.tier, MatchTier::Exact);
    assert_eq!(m.component.id, 1);
    assert_eq!(m.normalized.nominal, KILOOHM);
    assert_eq!(m.normalized.low, 950 * OHM);
    assert_eq!(m.normalized.high, 1_050 * OHM);
}

#[test]
fn exact_tier_wins_even_without_preference() {
    // The exact part is neither preferred nor well stocked; it still wins.
    let catalog = vec![
        part(1, 46, 1_000 * OHM, false, 1, None),
        part(2, 46, 990 * OHM, true, 100_000, None),
    ];
    let request = resistor_request_pct(1, ResistorUnit::KiloOhm, 5);
    let m = resolve_resistor(&catalog, &request).unwrap();
    assert_eq!(m.tier, MatchTier::Exact);
    assert_eq!(m.component.id, 1);
}

#[test]
fn range_tier_prefers_basic_over_stock() {
    // No exact part: two in-window parts, the preferred one wins although
    // the other has far more stock.
    let catalog = vec![
        part(1, 46, 975 * OHM, true, 5, None),
        part(2, 46, 1_020 * OHM, false, 5_000, None),
    ];
    let request = resistor_request_pct(1, ResistorUnit::KiloOhm, 5);
    let m = resolve_resistor(&catalog, &request).unwrap();
    assert_eq!(m.tier, MatchTier::Range);
    assert_eq!(m.component.id, 1);
}

#[test]
fn absolute_tolerance_capacitor_window() {
    // 100 nF with an absolute tolerance of 10 nF searches [90 nF, 110 nF].
    let catalog = vec![
        part(1, 27, 105_000, false, 10, None),
        part(2, 27, 89_999, true, 10_000, None),
        part(3, 27, 110_001, true, 10_000, None),
    ];
    let request = CapacitorRequest {
        unit: CapacitorUnit::NanoFarad,
        value: 100,
        package: None,
        tolerance_percentage: None,
        absolute_tolerance: Some(10),
        absolute_tolerance_unit: Some(CapacitorUnit::NanoFarad),
    };
    let m = resolve_capacitor(&catalog, &request).unwrap();
    assert_eq!(m.component.id, 1);
    assert_eq!(m.normalized.low, 90_000);
    assert_eq!(m.normalized.high, 110_000);
    assert_eq!(m.tier, MatchTier::Range);
}

#[test]
fn both_tolerance_modes_is_a_validation_error() {
    // Even with an exactly matching part in the catalog the request is
    // rejected before any query.
    let catalog = vec![part(1, 46, 1_000 * OHM, true, 500, None)];
    let request = ResistorRequest {
        unit: ResistorUnit::KiloOhm,
        value: 1,
        package: None,
        tolerance_percentage: Some(5),
        absolute_tolerance: Some(10),
        absolute_tolerance_unit: Some(ResistorUnit::Ohm),
    };
    let err = resolve_resistor(&catalog, &request).unwrap_err();
    assert!(matches!(err, PartError::Validation(ValidationFault::BothTolerances)));
    assert_eq!(no_part_found(&err).code, 400);
}

#[test]
fn neither_tolerance_mode_is_a_validation_error() {
    let catalog = vec![part(1, 46, 1_000 * OHM, true, 500, None)];
    let request = ResistorRequest {
        unit: ResistorUnit::KiloOhm,
        value: 1,
        package: None,
        tolerance_percentage: None,
        absolute_tolerance: None,
        absolute_tolerance_unit: None,
    };
    let err = resolve_resistor(&catalog, &request).unwrap_err();
    assert!(matches!(err, PartError::Validation(ValidationFault::NoTolerance)));
}

#[test]
fn oversized_percentage_is_a_validation_error() {
    let catalog = vec![part(1, 46, 1_000 * OHM, true, 500, None)];
    let request = resistor_request_pct(1, ResistorUnit::KiloOhm, 101);
    let err = resolve_resistor(&catalog, &request).unwrap_err();
    assert!(matches!(err, PartError::Validation(ValidationFault::PercentageOutOfRange)));
}

#[test]
fn absolute_tolerance_without_unit_is_a_validation_error() {
    let catalog = vec![part(1, 46, 1_000 * OHM, true, 500, None)];
    let request = ResistorRequest {
        unit: ResistorUnit::KiloOhm,
        value: 1,
        package: None,
        tolerance_percentage: None,
        absolute_tolerance: Some(10),
        absolute_tolerance_unit: None,
    };
    let err = resolve_resistor(&catalog, &request).unwrap_err();
    assert!(matches!(err, PartError::Validation(ValidationFault::MissingAbsoluteUnit)));
}

#[test]
fn resolving_twice_yields_the_identical_result() {
    let catalog = vec![
        part(1, 46, 990 * OHM, false, 7, None),
        part(2, 46, 1_010 * OHM, false, 7, None),
        part(3, 46, 1_020 * OHM, true, 3, None),
    ];
    let request = resistor_request_pct(1, ResistorUnit::KiloOhm, 5);
    let first = resolve_resistor(&catalog, &request).unwrap();
    let second = resolve_resistor(&catalog, &request).unwrap();
    assert_eq!(first.component.id, second.component.id);
    assert_eq!(first.tier, second.tier);
    assert_eq!(first.normalized, second.normalized);
    assert_eq!(first.component.id, 3);
}

#[test]
fn no_match_when_both_phases_are_empty() {
    let catalog = vec![part(1, 46, 2_000 * OHM, true, 500, None)];
    let request = resistor_request_pct(1, ResistorUnit::KiloOhm, 5);
    let err = resolve_resistor(&catalog, &request).unwrap_err();
    assert!(matches!(err, PartError::NoMatch));
    assert_eq!(no_part_found(&err).code, 404);
}

#[test]
fn package_filter_restricts_both_phases() {
    let catalog = vec![
        part(1, 46, 1_000 * OHM, true, 500, Some("0603")),
        part(2, 46, 990 * OHM, false, 10, Some("0402")),
    ];
    let mut request = resistor_request_pct(1, ResistorUnit::KiloOhm, 5);
    request.package = Some("0402".to_string());
    let m = resolve_resistor(&catalog, &request).unwrap();
    assert_eq!(m.component.id, 2);
    assert_eq!(m.tier, MatchTier::Range);
}

fn jlc_request(type_field: &str, unit: &str, nominal: u128, pct: u64) -> JLCPartRequest {
    JLCPartRequest {
        designator_prefix: "R".to_string(),
        mpn: "generic".to_string(),
        type_field: type_field.to_string(),
        value: JLCValue {
            unit: unit.to_string(),
            min_val: 0,
            max_val: 0,
            nominal,
            tolerance_pct: pct,
        },
        package: None,
    }
}

#[test]
fn find_part_reports_base_units_and_part_fields() {
    let catalog = vec![
        part(1, 46, 1_000 * OHM, true, 500, Some("0402")),
        part(2, 46, 980 * OHM, false, 10_000, Some("0402")),
    ];
    let mut request = jlc_request("resistor", "kiloohm", 1, 5);
    request.package = Some("0402".to_string());
    let response = find_part(&catalog, &request).unwrap();
    let best = &response.best_component;
    assert_eq!(best.lcsc_id, "C1");
    assert_eq!(best.type_field, "resistor");
    assert_eq!(best.value.unit, "pΩ");
    assert_eq!(best.value.nominal, KILOOHM);
    assert_eq!(best.value.min_val, 950 * OHM);
    assert_eq!(best.value.max_val, 1_050 * OHM);
    assert_eq!(best.value.tolerance_pct, 5);
    assert_eq!(best.stock, 500);
    assert_eq!(best.code, "200");
    assert_eq!(best.package, "0402");
    assert_eq!(best.footprint.kicad, "R0402");
    assert_eq!(best.footprint_data.kicad, "standard-library");
    assert_eq!(best.category, "Resistors");
    assert_eq!(best.uuid.len(), 36);
    assert!(best.basic_part);
}

#[test]
fn find_part_unknown_family_is_rejected() {
    let catalog = vec![part(1, 46, 1_000 * OHM, true, 500, None)];
    let request = jlc_request("diode", "ohm", 1, 5);
    let err = find_part(&catalog, &request).unwrap_err();
    assert_eq!(err, "Unsupported part type");
}

#[test]
fn find_part_unsupported_unit_reads_as_not_found() {
    // The label is not in the table, so nothing of this description exists:
    // the catalog is never searched, even though it holds an exact match.
    let catalog = vec![part(1, 46, 1_000 * OHM, true, 500, None)];
    let request = jlc_request("resistor", "exaohm", 1, 5);
    let err = find_part(&catalog, &request).unwrap_err();
    assert_eq!(err, "No resistor found");
}

#[test]
fn find_part_oversized_percentage_is_rejected() {
    let catalog = vec![part(1, 46, 1_000 * OHM, true, 500, None)];
    let request = jlc_request("resistor", "kiloohm", 1, 150);
    let err = find_part(&catalog, &request).unwrap_err();
    assert_eq!(err, "Tolerance percentage must be between 0 and 100");
}

#[test]
fn find_part_empty_catalog_is_not_found() {
    let catalog: Vec<Component> = Vec::new();
    let request = jlc_request("capacitor", "nanofarad", 100, 10);
    let err = find_part(&catalog, &request).unwrap_err();
    assert_eq!(err, "No capacitor found");
}

#[test]
fn response_builder_ranks_before_selecting() {
    let request = jlc_request("capacitor", "nanofarad", 100, 10);
    let components = vec![
        part(5, 27, 100_000, false, 9_000, Some("0603")),
        part(4, 27, 100_000, true, 20, Some("0603")),
    ];
    let value = JLCValue {
        unit: "pF".to_string(),
        min_val: 90_000,
        max_val: 110_000,
        nominal: 100_000,
        tolerance_pct: 10,
    };
    let response = component_vec_to_jlcpb_part_response(&request, components, value);
    let best = &response.best_component;
    assert_eq!(best.lcsc_id, "C4");
    assert_eq!(best.footprint.kicad, "C0603");
    assert_eq!(best.value.nominal, 100_000);
}

#[test]
fn test_resistor() {
    let catalog = vec![
        part(1, 46, 4_200_000 * OHM, true, 50, Some("0603")),
        part(2, 46, 4_500_000 * OHM, false, 10, Some("0402")),
    ];
    let request = ResistorRequest {
        unit: ResistorUnit::KiloOhm,
        value: 4_500,
        package: Some("0603".to_string()),
        tolerance_percentage: Some(10),
        absolute_tolerance: None,
        absolute_tolerance_unit: None,
    };
    let resistor_result = find_resistor(&catalog, &request);
    assert!(resistor_result.is_ok());
    let component_vec = resistor_result.unwrap();
    assert!(component_vec.len() > 0);
    assert!(component_vec[0].package == Some("0603".to_string()));
}

#[test]
fn test_capacitor() {
    let catalog = vec![
        part(1, 27, 4_500_000, true, 50, Some("0603")),
        part(2, 27, 4_500_000, false, 10, Some("0402")),
    ];
    let request = CapacitorRequest {
        unit: CapacitorUnit::MicroFarad,
        value: 4,
        package: Some("0603".to_string()),
        tolerance_percentage: Some(15),
        absolute_tolerance: None,
        absolute_tolerance_unit: None,
    };
    let capacitor_result = jlc_parts::capacitor::find_capacitor(&catalog, &request);
    assert!(capacitor_result.is_ok());
    let component_vec = capacitor_result.unwrap();
    assert!(component_vec.len() > 0);
    assert!(component_vec[0].package == Some("0603".to_string()));
}

#[test]
fn test_inductor() {
    let catalog = vec![
        part(1, 12, 4_500_000, true, 50, Some("0603")),
        part(2, 12, 4_500_000, false, 10, Some("0402")),
    ];
    let request = InductorRequest {
        unit: InductorUnit::MicroHenry,
        value: 4,
        package: Some("0603".to_string()),
        tolerance_percentage: Some(15),
        absolute_tolerance: None,
        absolute_tolerance_unit: None,
    };
    let inductor_result = find_inductor(&catalog, &request);
    assert!(inductor_result.is_ok());
    let component_vec = inductor_result.unwrap();
    assert!(component_vec.len() > 0);
    assert!(component_vec[0].package == Some("0603".to_string()));
}

#[test]
fn test_part_request() {
    // Four requests against one snapshot, one per family plus the
    // zero-width kiloohm case.
    let catalog = vec![
        part(1, 46, 5_000_000 * OHM, true, 50, Some("0402")),
        part(2, 46, 1_000 * OHM, true, 500, None),
        part(3, 27, 100_000, true, 40, Some("0402")),
        part(4, 12, 100_000, true, 30, None),
    ];
    let mut resistor_mega = jlc_request("resistor", "megaohm", 5, 2);
    resistor_mega.package = Some("0402".to_string());
    assert!(find_part(&catalog, &resistor_mega).is_ok());

    let resistor_kilo = jlc_request("resistor", "kiloohm", 1, 5);
    assert!(find_part(&catalog, &resistor_kilo).is_ok());

    let mut capacitor = jlc_request("capacitor", "nanofarad", 100, 20);
    capacitor.package = Some("0402".to_string());
    assert!(find_part(&catalog, &capacitor).is_ok());

    let inductor = jlc_request("inductor", "nanohenry", 100, 20);
    assert!(find_part(&catalog, &inductor).is_ok());
}
