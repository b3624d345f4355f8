use ohm::{Formula, OhmError, Operation, OperationResult, QuantityKind};

fn resolve(
    requested: &str,
    tag_1: &str,
    tag_2: &str,
    v1: f64,
    v2: f64,
) -> Result<OperationResult<f64>, OhmError> {
    Operation {
        operation_type: requested.to_string(),
        unknown_1: tag_1.to_string(),
        unknown_2: tag_2.to_string(),
        value_unknown_1: v1,
        value_unknown_2: v2,
    }
    .new()
}

/// Evaluate a selected formula over the two known values, as the
/// application layer does.
fn eval(formula: Formula, a: f64, b: f64) -> f64 {
    match formula {
        Formula::Product => a * b,
        Formula::SquareOverSecond => a.powf(2.0) / b,
        Formula::ProductWithSquare => a * b.powf(2.0),
        Formula::Quotient => a / b,
        Formula::SqrtOfQuotient => (a / b).sqrt(),
        Formula::QuotientBySquare => a / b.powf(2.0),
    }
}

fn assert_resolves(
    requested: &str,
    tag_1: &str,
    tag_2: &str,
    v1: f64,
    v2: f64,
    formula: Formula,
    kind: QuantityKind,
    value: f64,
) {
    let r = resolve(requested, tag_1, tag_2, v1, v2).unwrap();
    assert_eq!(r.formula, formula);
    assert_eq!(r.constant, kind);
    assert_eq!(r.value_1, v1);
    assert_eq!(r.value_2, v2);
    assert!((eval(r.formula, r.value_1, r.value_2) - value).abs() < 1e-12);
}

#[test]
fn power_from_voltage_and_current() {
    assert_resolves("P", "V", "I", 10.0, 2.0, Formula::Product, QuantityKind::Power, 20.0);
}

#[test]
fn power_from_voltage_and_resistance() {
    assert_resolves("P", "V", "R", 10.0, 5.0, Formula::SquareOverSecond, QuantityKind::Power, 20.0);
}

#[test]
fn power_from_resistance_and_current() {
    assert_resolves("P", "R", "I", 5.0, 2.0, Formula::ProductWithSquare, QuantityKind::Power, 20.0);
}

#[test]
fn current_from_voltage_and_resistance() {
    assert_resolves("I", "V", "R", 10.0, 4.0, Formula::Quotient, QuantityKind::Current, 2.5);
}

#[test]
fn current_from_power_and_voltage() {
    assert_resolves("I", "P", "V", 10.0, 5.0, Formula::Quotient, QuantityKind::Current, 2.0);
}

#[test]
fn current_from_power_and_resistance() {
    assert_resolves("I", "P", "R", 16.0, 4.0, Formula::SqrtOfQuotient, QuantityKind::Current, 2.0);
}

#[test]
fn voltage_from_power_and_current() {
    assert_resolves("V", "P", "I", 10.0, 2.0, Formula::Quotient, QuantityKind::Voltage, 5.0);
}

#[test]
fn voltage_from_power_and_resistance() {
    assert_resolves("V", "P", "R", 16.0, 4.0, Formula::SqrtOfQuotient, QuantityKind::Voltage, 2.0);
}

#[test]
fn voltage_from_resistance_and_current() {
    assert_resolves("V", "R", "I", 5.0, 2.0, Formula::Product, QuantityKind::Voltage, 10.0);
}

#[test]
fn resistance_from_voltage_and_current() {
    assert_resolves("R", "V", "I", 10.0, 2.0, Formula::Quotient, QuantityKind::Resistance, 5.0);
}

#[test]
fn resistance_from_voltage_and_power() {
    assert_resolves(
        "R",
        "V",
        "P",
        10.0,
        20.0,
        Formula::SquareOverSecond,
        QuantityKind::Resistance,
        5.0,
    );
}

#[test]
fn resistance_from_power_and_current() {
    assert_resolves(
        "R",
        "P",
        "I",
        20.0,
        2.0,
        Formula::QuotientBySquare,
        QuantityKind::Resistance,
        5.0,
    );
}

#[test]
fn reversed_known_order_is_unsupported() {
    // Each of the twelve table entries, with its two known tags swapped.
    let reversed = [
        ("P", "I", "V"),
        ("P", "R", "V"),
        ("P", "I", "R"),
        ("I", "R", "V"),
        ("I", "V", "P"),
        ("I", "R", "P"),
        ("V", "I", "P"),
        ("V", "R", "P"),
        ("V", "I", "R"),
        ("R", "I", "V"),
        ("R", "P", "V"),
        ("R", "I", "P"),
    ];
    for (requested, tag_1, tag_2) in reversed {
        let r = resolve(requested, tag_1, tag_2, 2.0, 10.0);
        assert!(matches!(r, Err(OhmError::UnsupportedCombination)));
    }
}

#[test]
fn requested_kind_equal_to_a_known_kind_is_unsupported() {
    let r = resolve("P", "P", "I", 10.0, 2.0);
    assert!(matches!(r, Err(OhmError::UnsupportedCombination)));
}

#[test]
fn resolution_is_idempotent() {
    let first = resolve("I", "P", "R", 16.0, 4.0).unwrap();
    let second = resolve("I", "P", "R", 16.0, 4.0).unwrap();
    assert_eq!(first.formula, second.formula);
    assert_eq!(first.constant, second.constant);
    assert_eq!(first.value_1, second.value_1);
    assert_eq!(first.value_2, second.value_2);
    assert_eq!(
        eval(first.formula, first.value_1, first.value_2),
        eval(second.formula, second.value_1, second.value_2)
    );
}

#[test]
fn division_by_zero_yields_infinity_not_an_error() {
    let r = resolve("I", "V", "R", 5.0, 0.0).unwrap();
    assert_eq!(r.formula, Formula::Quotient);
    let value = eval(r.formula, r.value_1, r.value_2);
    assert!(value.is_infinite());
    assert!(value > 0.0);
}

#[test]
fn lower_case_tags_resolve_like_upper_case_ones() {
    let lower = resolve("p", "v", "i", 10.0, 2.0).unwrap();
    let upper = resolve("P", "V", "I", 10.0, 2.0).unwrap();
    assert_eq!(lower.formula, upper.formula);
    assert_eq!(lower.constant, upper.constant);
    assert_eq!(eval(lower.formula, lower.value_1, lower.value_2), 20.0);
}

#[test]
fn negative_square_root_argument_yields_nan_not_an_error() {
    let r = resolve("V", "P", "R", -16.0, 4.0).unwrap();
    assert_eq!(r.formula, Formula::SqrtOfQuotient);
    assert!(eval(r.formula, r.value_1, r.value_2).is_nan());
}

#[test]
fn result_operation_rejects_unsupported_triples_directly() {
    let o = Operation {
        operation_type: "P".to_string(),
        unknown_1: "V".to_string(),
        unknown_2: "I".to_string(),
        value_unknown_1: 1.0,
        value_unknown_2: 2.0,
    };
    let unknowns = o.check_unknowns("I", "V", 2.0, 10.0).unwrap();
    let r = o.result_operation(QuantityKind::Power, unknowns);
    assert!(matches!(r, Err(OhmError::UnsupportedCombination)));
}
