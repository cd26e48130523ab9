use unitconvert::error::ConvertError;
use unitconvert::mass::{MassConverter, MassUnit};
use unitconvert::rational::Rational;

fn as_f64(r: &Rational) -> f64 {
    r.num as f64 / r.den as f64
}

fn assert_approx_eq(a: f64, b: f64, tol: f64) {
    assert!(
        (a - b).abs() < tol,
        "Expected {} to be within {} of {}",
        a,
        tol,
        b
    );
}

#[test]
fn test_kg_to_lb() {
    let converter = MassConverter;
    let value = Rational::parse_number("2.5").unwrap();
    let result = converter.convert(value, "kg", "lb").unwrap();
    assert_approx_eq(5.51155, as_f64(&result), 1e-4);
}

#[test]
fn mass_round_trip_is_exact() {
    let converter = MassConverter;
    let value = Rational::parse_number("2.5").unwrap();
    let there = converter.convert(value, "kg", "lb").unwrap();
    let back = converter.convert(there, "lb", "kg").unwrap();
    assert_eq!(back.num * value.den, value.num * back.den);
}

#[test]
fn mass_identity_is_exact() {
    let converter = MassConverter;
    let value = Rational::parse_number("0.07").unwrap();
    let result = converter.convert(value, "oz", "oz").unwrap();
    assert_eq!(result.num * value.den, value.num * result.den);
}

#[test]
fn mass_conversion_through_intermediate_agrees() {
    let converter = MassConverter;
    let value = Rational::parse_number("3.5").unwrap();
    let via = converter.convert(value, "st", "g").unwrap();
    let via = converter.convert(via, "g", "oz").unwrap();
    let direct = converter.convert(value, "st", "oz").unwrap();
    assert_eq!(via.num * direct.den, direct.num * via.den);
}

#[test]
fn mass_aliases_and_case_agree() {
    assert_eq!(MassUnit::from_str("kg"), Ok(MassUnit::Kilogram));
    assert_eq!(MassUnit::from_str("kilogram"), Ok(MassUnit::Kilogram));
    assert_eq!(MassUnit::from_str("KILOGRAMS"), Ok(MassUnit::Kilogram));
    assert_eq!(MassUnit::from_str("Pounds"), Ok(MassUnit::Pound));
    assert_eq!(MassUnit::from_str("sT"), Ok(MassUnit::Stone));
    let err = MassUnit::from_str("metric ton");
    assert!(matches!(err, Err(ConvertError::InvalidUnit(_))));
}

#[test]
fn mass_symbols_and_listing() {
    let converter = MassConverter;
    assert_eq!(converter.get_unit_string("Ounces"), "oz");
    assert_eq!(converter.get_unit_string("gram"), "g");
    assert_eq!(converter.get_unit_string("parsec"), "parsec");
    let units = converter.supported_units();
    assert_eq!(units, vec!["g", "kg", "lb", "oz", "st"]);
}

#[test]
fn mass_known_conversions() {
    let converter = MassConverter;
    let g = converter
        .convert(Rational::from_int(1), "kg", "g")
        .unwrap();
    assert_eq!(as_f64(&g), 1000.0);
    let lb = converter
        .convert(Rational::from_int(1), "lb", "g")
        .unwrap();
    assert_approx_eq(as_f64(&lb), 453.59291, 1e-9);
    let st = converter
        .convert(Rational::from_int(1), "st", "g")
        .unwrap();
    assert_approx_eq(as_f64(&st), 6350.29497, 1e-9);
}
