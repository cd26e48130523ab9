use unitconvert::convert::{get_converter, AnyConverter};
use unitconvert::error::ConvertError;
use unitconvert::rational::Rational;

fn as_f64(r: &Rational) -> f64 {
    r.num as f64 / r.den as f64
}

fn assert_approx_eq(a: f64, b: f64, tol: f64) {
    assert!(
        (a - b).abs() < tol,
        "Expected {} to be within {} of {}",
        a,
        tol,
        b
    );
}

#[test]
fn resolves_each_category() {
    assert!(matches!(
        get_converter("m", "ft"),
        Ok(AnyConverter::Distance(_))
    ));
    assert!(matches!(
        get_converter("kg", "lb"),
        Ok(AnyConverter::Mass(_))
    ));
    assert!(matches!(
        get_converter("c", "f"),
        Ok(AnyConverter::Temperature(_))
    ));
}

#[test]
fn cross_category_is_rejected() {
    let result = get_converter("m", "kg");
    match result {
        Err(ConvertError::UnsupportedConversion(from, to)) => {
            assert_eq!(from, "m");
            assert_eq!(to, "kg");
        }
        other => panic!("Expected UnsupportedConversion, got {:?}", other),
    }
}

#[test]
fn unknown_unit_is_rejected() {
    let result = get_converter("banana", "ft");
    match result {
        Err(ConvertError::InvalidUnit(unit)) => {
            assert_eq!(unit, "banana");
        }
        other => panic!("Expected InvalidUnit, got {:?}", other),
    }
}

#[test]
fn unknown_target_unit_is_rejected() {
    let result = get_converter("ft", "banana");
    match result {
        Err(ConvertError::InvalidUnit(unit)) => {
            assert_eq!(unit, "banana");
        }
        other => panic!("Expected InvalidUnit, got {:?}", other),
    }
}

#[test]
fn resolved_converter_converts() {
    let converter = get_converter("m", "ft").unwrap();
    let result = converter
        .convert(Rational::from_int(2), "m", "ft")
        .unwrap();
    assert_approx_eq(as_f64(&result), 6.561679790026246, 1e-9);
}

#[test]
fn resolved_converter_lists_and_displays() {
    let converter = get_converter("c", "k").unwrap();
    assert_eq!(converter.get_unit_string("kelvin"), "°K");
    assert_eq!(converter.supported_units(), vec!["°C", "°F", "°K"]);
    let converter = get_converter("g", "st").unwrap();
    assert_eq!(converter.get_unit_string("G"), "g");
    assert_eq!(converter.supported_units().len(), 5);
}

#[test]
fn case_does_not_matter_to_the_resolver() {
    assert!(matches!(
        get_converter("Meters", "FT"),
        Ok(AnyConverter::Distance(_))
    ));
}
