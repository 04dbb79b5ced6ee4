use jlc_parts::catalog::{family_category_id, find_in_range, Component};
use jlc_parts::errors::{
    error_code, error_message, no_part_found, validate_tolerance, PartError, ValidationFault,
};
use jlc_parts::ranking::sort_components;
use jlc_parts::units::{
    from_base, parse_capacitor_unit, parse_inductor_unit, parse_resistor_unit, to_base,
    CapacitorUnit, Family, InductorUnit, ResistorUnit,
};
use jlc_parts::window::{pct_delta, window, Tolerance};
use jlc_parts::capacitor::{get_capacitor_tolerance, get_capacitor_value, CapacitorRequest};
use jlc_parts::inductor::{get_inductor_value, InductorRequest};
use jlc_parts::resistor::{get_resistor_tolerance, get_resistor_value, ResistorRequest};

fn part(
    id: u64,
    category_id: u64,
    value_pico: u128,
    basic: bool,
    stock: u64,
    package: Option<&str>,
) -> Component {
    Component {
        id,
        lcsc: format!("C{}", id),
        category_id,
        mfr: Some(format!("MFR-{}", id)),
        package: package.map(|p| p.to_string()),
        joints: 2,
        manufacturer: "ACME".to_string(),
        basic,
        description: Some("test part".to_string()),
        datasheet: None,
        stock,
        price: Some(1_000),
        resistance: if category_id == 46 { Some(value_pico) } else { None },
        inductance: if category_id == 12 { Some(value_pico) } else { None },
        capacitance: if category_id == 27 { Some(value_pico) } else { None },
        dielectric: None,
    }
}

#[test]
fn resistor_unit_multipliers_are_powers_of_ten() {
    assert_eq!(get_resistor_value(1, ResistorUnit::PicoOhm), 1);
    assert_eq!(get_resistor_value(1, ResistorUnit::NanoOhm), 1_000);
    assert_eq!(get_resistor_value(1, ResistorUnit::MicroOhm), 1_000_000);
    assert_eq!(get_resistor_value(1, ResistorUnit::MilliOhm), 1_000_000_000);
    assert_eq!(get_resistor_value(1, ResistorUnit::Ohm), 1_000_000_000_000);
    assert_eq!(get_resistor_value(1, ResistorUnit::KiloOhm), 1_000_000_000_000_000);
    assert_eq!(get_resistor_value(1, ResistorUnit::MegaOhm), 1_000_000_000_000_000_000);
}

#[test]
fn capacitor_and_inductor_values_scale_from_pico() {
    assert_eq!(get_capacitor_value(100, CapacitorUnit::NanoFarad), 100_000);
    assert_eq!(get_capacitor_value(3, CapacitorUnit::Farad), 3_000_000_000_000);
    assert_eq!(get_inductor_value(100, InductorUnit::NanoHenry), 100_000);
    assert_eq!(get_inductor_value(7, InductorUnit::MicroHenry), 7_000_000);
}

#[test]
fn round_trip_every_resistor_unit() {
    let units = [
        ResistorUnit::PicoOhm,
        ResistorUnit::NanoOhm,
        ResistorUnit::MicroOhm,
        ResistorUnit::MilliOhm,
        ResistorUnit::Ohm,
        ResistorUnit::KiloOhm,
        ResistorUnit::MegaOhm,
    ];
    for unit in units {
        let base = get_resistor_value(47, unit);
        assert_eq!(from_base(base, unit.multiplier()), Some(47));
    }
}

#[test]
fn round_trip_every_capacitor_unit() {
    let units = [
        CapacitorUnit::PicoFarad,
        CapacitorUnit::NanoFarad,
        CapacitorUnit::MicroFarad,
        CapacitorUnit::MilliFarad,
        CapacitorUnit::Farad,
        CapacitorUnit::KiloFarad,
        CapacitorUnit::MegaFarad,
    ];
    for unit in units {
        let base = get_capacitor_value(220, unit);
        assert_eq!(from_base(base, unit.multiplier()), Some(220));
    }
}

#[test]
fn round_trip_every_inductor_unit() {
    let units = [
        InductorUnit::PicoHenry,
        InductorUnit::NanoHenry,
        InductorUnit::MicroHenry,
        InductorUnit::MilliHenry,
        InductorUnit::Henry,
        InductorUnit::KiloHenry,
        InductorUnit::MegaHenry,
    ];
    for unit in units {
        let base = get_inductor_value(68, unit);
        assert_eq!(from_base(base, unit.multiplier()), Some(68));
    }
}

#[test]
fn from_base_rejects_fractional_and_oversized_results() {
    assert_eq!(from_base(1_500, 1_000), None);
    assert_eq!(from_base(u64::MAX as u128 + 1, 1), None);
    assert_eq!(from_base(2_000, 1_000), Some(2));
}

#[test]
fn parse_accepts_symbol_and_spelled_out_labels() {
    assert_eq!(parse_resistor_unit("kΩ"), Some(ResistorUnit::KiloOhm));
    assert_eq!(parse_resistor_unit("kiloohm"), Some(ResistorUnit::KiloOhm));
    assert_eq!(parse_resistor_unit("Ω"), Some(ResistorUnit::Ohm));
    assert_eq!(parse_resistor_unit("uΩ"), Some(ResistorUnit::MicroOhm));
    assert_eq!(parse_resistor_unit("exaohm"), None);
    assert_eq!(parse_capacitor_unit("nF"), Some(CapacitorUnit::NanoFarad));
    assert_eq!(parse_capacitor_unit("farad"), Some(CapacitorUnit::Farad));
    assert_eq!(parse_inductor_unit("mH"), Some(InductorUnit::MilliHenry));
    assert_eq!(parse_inductor_unit("henry"), Some(InductorUnit::Henry));
    assert_eq!(parse_inductor_unit("furlong"), None);
}

#[test]
fn to_base_converts_known_labels_and_names_unknown_ones() {
    assert_eq!(to_base(Family::Resistor, 1, "kiloohm").unwrap(), 1_000_000_000_000_000);
    assert_eq!(to_base(Family::Capacitor, 100, "nF").unwrap(), 100_000);
    assert_eq!(to_base(Family::Inductor, 2, "henry").unwrap(), 2_000_000_000_000);
    let err = to_base(Family::Resistor, 1, "exaohm").unwrap_err();
    match &err {
        PartError::UnsupportedUnit(family, label) => {
            assert_eq!(*family, Family::Resistor);
            assert_eq!(label, "exaohm");
        }
        other => panic!("expected an unsupported-unit error, got {:?}", other),
    }
    let payload = no_part_found(&err);
    assert_eq!(payload.code, 404);
    assert_eq!(payload.message, "Unsupported resistor unit: exaohm");
}

#[test]
fn pct_delta_is_exact_floor() {
    assert_eq!(pct_delta(1_000_000_000_000_000, 5), 50_000_000_000_000);
    assert_eq!(pct_delta(101, 10), 10);
    assert_eq!(pct_delta(0, 100), 0);
    assert_eq!(pct_delta(7, 0), 0);
}

#[test]
fn window_brackets_nominal_and_clamps_at_zero() {
    let w = window(1_000, 100);
    assert_eq!((w.low, w.nominal, w.high), (900, 1_000, 1_100));
    let clamped = window(50, 80);
    assert_eq!((clamped.low, clamped.nominal, clamped.high), (0, 50, 130));
    assert!(clamped.low <= clamped.nominal && clamped.nominal <= clamped.high);
}

#[test]
fn percentage_window_bounds_via_tolerance_api() {
    let request = ResistorRequest {
        unit: ResistorUnit::KiloOhm,
        value: 1,
        package: None,
        tolerance_percentage: Some(5),
        absolute_tolerance: None,
        absolute_tolerance_unit: None,
    };
    let up = get_resistor_tolerance(&request, Tolerance::Up);
    let down = get_resistor_tolerance(&request, Tolerance::Down);
    assert_eq!(up, 1_050_000_000_000_000);
    assert_eq!(down, 950_000_000_000_000);
}

#[test]
fn absolute_window_exact_math_for_capacitor() {
    let request = CapacitorRequest {
        unit: CapacitorUnit::NanoFarad,
        value: 100,
        package: None,
        tolerance_percentage: None,
        absolute_tolerance: Some(10),
        absolute_tolerance_unit: Some(CapacitorUnit::NanoFarad),
    };
    let up = get_capacitor_tolerance(&request, Tolerance::Up);
    let down = get_capacitor_tolerance(&request, Tolerance::Down);
    assert_eq!(down, 90_000);
    assert_eq!(up, 110_000);
}

#[test]
fn absolute_window_clamps_low_side_at_zero() {
    let request = CapacitorRequest {
        unit: CapacitorUnit::PicoFarad,
        value: 5,
        package: None,
        tolerance_percentage: None,
        absolute_tolerance: Some(10),
        absolute_tolerance_unit: Some(CapacitorUnit::PicoFarad),
    };
    assert_eq!(get_capacitor_tolerance(&request, Tolerance::Down), 0);
    assert_eq!(get_capacitor_tolerance(&request, Tolerance::Up), 15);
}

#[test]
fn ranking_orders_basic_then_stock_then_id() {
    let candidates = vec![
        part(3, 46, 1, false, 10_000, None),
        part(1, 46, 1, true, 1, None),
        part(2, 46, 1, true, 9, None),
        part(4, 46, 1, false, 10_000, None),
    ];
    let ranked = sort_components(candidates);
    let ids: Vec<u64> = ranked.iter().map(|c| c.id).collect();
    assert_eq!(ids, vec![2, 1, 3, 4]);
}

#[test]
fn ranking_is_deterministic_across_calls() {
    let build = || {
        vec![
            part(9, 46, 1, false, 3, None),
            part(4, 46, 1, true, 3, None),
            part(7, 46, 1, true, 50, None),
        ]
    };
    let first: Vec<u64> = sort_components(build()).iter().map(|c| c.id).collect();
    let second: Vec<u64> = sort_components(build()).iter().map(|c| c.id).collect();
    assert_eq!(first, second);
    assert_eq!(first, vec![7, 4, 9]);
}

#[test]
fn find_in_range_is_inclusive_and_respects_family_and_package() {
    let catalog = vec![
        part(1, 46, 900, false, 5, Some("0402")),
        part(2, 46, 1_000, false, 5, Some("0402")),
        part(3, 46, 1_100, false, 5, Some("0603")),
        part(4, 27, 1_000, false, 5, Some("0402")),
        part(5, 46, 1_101, false, 5, Some("0402")),
    ];
    let hits = find_in_range(&catalog, Family::Resistor, 900, 1_100, &None);
    let ids: Vec<u64> = hits.iter().map(|c| c.id).collect();
    assert_eq!(ids, vec![1, 2, 3]);

    let filtered = find_in_range(&catalog, Family::Resistor, 900, 1_100, &Some("0402".to_string()));
    let filtered_ids: Vec<u64> = filtered.iter().map(|c| c.id).collect();
    assert_eq!(filtered_ids, vec![1, 2]);
}

#[test]
fn find_in_range_caps_the_row_count() {
    let mut catalog = Vec::new();
    for id in 0..250u64 {
        catalog.push(part(id, 46, 1_000, false, 1, None));
    }
    let hits = find_in_range(&catalog, Family::Resistor, 1_000, 1_000, &None);
    assert_eq!(hits.len(), 100);
    assert_eq!(hits[0].id, 0);
    assert_eq!(hits[99].id, 99);
}

#[test]
fn category_ids_per_family() {
    assert_eq!(family_category_id(Family::Resistor), 46);
    assert_eq!(family_category_id(Family::Capacitor), 27);
    assert_eq!(family_category_id(Family::Inductor), 12);
}

#[test]
fn validation_faults_in_priority_order() {
    assert_eq!(
        validate_tolerance(&Some(101), false, false),
        Some(ValidationFault::PercentageOutOfRange)
    );
    assert_eq!(validate_tolerance(&Some(5), true, true), Some(ValidationFault::BothTolerances));
    assert_eq!(validate_tolerance(&None, false, false), Some(ValidationFault::NoTolerance));
    assert_eq!(validate_tolerance(&None, true, false), Some(ValidationFault::MissingAbsoluteUnit));
    assert_eq!(validate_tolerance(&Some(100), false, false), None);
    assert_eq!(validate_tolerance(&None, true, true), None);
}

#[test]
fn error_codes_and_messages() {
    let validation = PartError::Validation(ValidationFault::BothTolerances);
    assert_eq!(error_code(&validation), 400);
    assert_eq!(
        error_message(&validation),
        "Either absolute_tolerance or tolerance_percentage must be set, not both"
    );

    let unsupported = PartError::UnsupportedUnit(Family::Resistor, "exaohm".to_string());
    let payload = no_part_found(&unsupported);
    assert_eq!(payload.code, 404);
    assert_eq!(payload.message, "Unsupported resistor unit: exaohm");

    assert_eq!(error_code(&PartError::NoMatch), 404);
    assert_eq!(error_message(&PartError::NoMatch), "No part found");
    assert_eq!(error_code(&PartError::CatalogUnavailable), 500);
}
