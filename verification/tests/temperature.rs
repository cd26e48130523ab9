use unitconvert::error::ConvertError;
use unitconvert::rational::Rational;
use unitconvert::temperature::{TemperatureConverter, TemperatureUnit};

fn as_f64(r: &Rational) -> f64 {
    r.num as f64 / r.den as f64
}

fn assert_approx_eq(a: f64, b: f64, tol: f64) {
    assert!(
        (a - b).abs() < tol,
        "Expected {} to be within {} of {}",
        a,
        tol,
        b
    );
}

#[test]
fn basic_temperature_conversions() {
    let tests = [
        (0.0, "c", "f", 32.0),
        (0.0, "f", "c", -17.7778),
        (0.0, "c", "k", 273.15),
    ];
    let converter = TemperatureConverter;
    for (value, from, to, expected) in tests {
        let value = Rational::parse_number(&value.to_string()).unwrap();
        let result = converter.convert(value, from, to).unwrap();
        assert_approx_eq(as_f64(&result), expected, 1e-4);
    }
}

#[test]
fn freezing_point_is_exact() {
    let converter = TemperatureConverter;
    let result = converter
        .convert(Rational::from_int(0), "c", "f")
        .unwrap();
    assert_eq!(as_f64(&result), 32.0);
}

#[test]
fn fahrenheit_kelvin_routes_through_celsius() {
    let converter = TemperatureConverter;
    let value = Rational::from_int(100);
    let via = converter.convert(value, "f", "c").unwrap();
    let via = converter.convert(via, "c", "k").unwrap();
    let direct = converter.convert(value, "f", "k").unwrap();
    assert_eq!(via.num * direct.den, direct.num * via.den);
    assert_approx_eq(as_f64(&direct), 310.927778, 1e-4);
}

#[test]
fn temperature_round_trip_is_exact() {
    let converter = TemperatureConverter;
    let value = Rational::parse_number("-40.5").unwrap();
    let there = converter.convert(value, "f", "k").unwrap();
    let back = converter.convert(there, "k", "f").unwrap();
    assert_eq!(back.num * value.den, value.num * back.den);
}

#[test]
fn temperature_identity_is_exact() {
    let converter = TemperatureConverter;
    let value = Rational::parse_number("36.6").unwrap();
    let result = converter.convert(value, "f", "f").unwrap();
    assert_eq!(result.num * value.den, value.num * result.den);
}

#[test]
fn temperature_aliases_and_case_agree() {
    assert_eq!(
        TemperatureUnit::from_str("c"),
        Ok(TemperatureUnit::Celsius)
    );
    assert_eq!(
        TemperatureUnit::from_str("CELSIUS"),
        Ok(TemperatureUnit::Celsius)
    );
    assert_eq!(
        TemperatureUnit::from_str("Fahrenheit"),
        Ok(TemperatureUnit::Fahrenheit)
    );
    assert_eq!(
        TemperatureUnit::from_str("K"),
        Ok(TemperatureUnit::Kelvin)
    );
    let err = TemperatureUnit::from_str("rankine");
    assert!(matches!(err, Err(ConvertError::InvalidUnit(_))));
}

#[test]
fn temperature_symbols_and_listing() {
    let converter = TemperatureConverter;
    assert_eq!(converter.get_unit_string("celsius"), "°C");
    assert_eq!(converter.get_unit_string("F"), "°F");
    assert_eq!(converter.get_unit_string("banana"), "banana");
    let units = converter.supported_units();
    assert_eq!(units, vec!["°C", "°F", "°K"]);
}
