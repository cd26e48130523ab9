use unitconvert::distance::{DistanceConverter, DistanceUnit};
use unitconvert::error::ConvertError;
use unitconvert::rational::Rational;

fn as_f64(r: &Rational) -> f64 {
    r.num as f64 / r.den as f64
}

fn assert_approx_eq(a: f64, b: f64, tol: f64) {
    assert!(
        (a - b).abs() < tol,
        "Expected {} to be within {} of {}",
        a,
        tol,
        b
    );
}

#[test]
fn test_m_to_ft() {
    let converter = DistanceConverter;
    let result = converter
        .convert(Rational::from_int(1), "m", "ft")
        .unwrap();
    assert_approx_eq(as_f64(&result), 3.28084, 1e-5);
}

#[test]
fn test_ft_to_m() {
    let converter = DistanceConverter;
    let value = Rational::parse_number("3.28084").unwrap();
    let result = converter.convert(value, "ft", "m").unwrap();
    assert_approx_eq(as_f64(&result), 1.0, 1e-5);
}

#[test]
fn test_invalid_unit() {
    let converter = DistanceConverter;
    let result = converter.convert(Rational::from_int(1), "banana", "ft");
    assert!(result.is_err(), "Expected error, got {:?}", result);
    let err = result.unwrap_err();
    assert!(matches!(err, ConvertError::InvalidUnit(_)));
}

#[test]
fn test_unit_parsing() {
    assert_eq!(DistanceUnit::from_str("m"), Ok(DistanceUnit::Meter));
    assert_eq!(DistanceUnit::from_str("ft"), Ok(DistanceUnit::Foot));
    let result = DistanceUnit::from_str("unknown");
    assert!(result.is_err(), "Expected error, got {:?}", result);
    let err = result.unwrap_err();
    assert!(matches!(err, ConvertError::InvalidUnit(_)));
}

#[test]
fn distance_identity_is_exact() {
    let converter = DistanceConverter;
    let value = Rational::parse_number("123.456").unwrap();
    let result = converter.convert(value, "mi", "mi").unwrap();
    // Equal as rational numbers: cross multiplication matches exactly.
    assert_eq!(result.num * value.den, value.num * result.den);
}

#[test]
fn distance_round_trip_is_exact() {
    let converter = DistanceConverter;
    let value = Rational::parse_number("7.25").unwrap();
    let there = converter.convert(value, "m", "ft").unwrap();
    let back = converter.convert(there, "ft", "m").unwrap();
    assert_eq!(back.num * value.den, value.num * back.den);
}

#[test]
fn distance_conversion_through_intermediate_agrees() {
    let converter = DistanceConverter;
    let value = Rational::parse_number("0.125").unwrap();
    let via = converter.convert(value, "mi", "km").unwrap();
    let via = converter.convert(via, "km", "in").unwrap();
    let direct = converter.convert(value, "mi", "in").unwrap();
    assert_eq!(via.num * direct.den, direct.num * via.den);
}

#[test]
fn distance_aliases_and_case_agree() {
    assert_eq!(DistanceUnit::from_str("m"), Ok(DistanceUnit::Meter));
    assert_eq!(DistanceUnit::from_str("meter"), Ok(DistanceUnit::Meter));
    assert_eq!(DistanceUnit::from_str("metre"), Ok(DistanceUnit::Meter));
    assert_eq!(DistanceUnit::from_str("meters"), Ok(DistanceUnit::Meter));
    assert_eq!(DistanceUnit::from_str("METER"), Ok(DistanceUnit::Meter));
    assert_eq!(DistanceUnit::from_str("Feet"), Ok(DistanceUnit::Foot));
    assert_eq!(
        DistanceUnit::from_str("KILOMETRES"),
        Ok(DistanceUnit::Kilometer)
    );
}

#[test]
fn distance_symbols_and_listing() {
    let converter = DistanceConverter;
    assert_eq!(converter.get_unit_string("METER"), "m");
    assert_eq!(converter.get_unit_string("feet"), "ft");
    assert_eq!(converter.get_unit_string("banana"), "banana");
    let units = converter.supported_units();
    assert_eq!(units, vec!["cm", "ft", "in", "km", "m", "mi", "mm"]);
}

#[test]
fn distance_known_conversions() {
    let converter = DistanceConverter;
    let km = converter
        .convert(Rational::from_int(1), "km", "m")
        .unwrap();
    assert_eq!(as_f64(&km), 1000.0);
    let inch = converter
        .convert(Rational::from_int(2), "in", "cm")
        .unwrap();
    assert_approx_eq(as_f64(&inch), 5.08, 1e-9);
    let mile = converter
        .convert(Rational::from_int(1), "mi", "m")
        .unwrap();
    assert_approx_eq(as_f64(&mile), 1609.34, 1e-9);
}
