use unitconvert::error::ConvertError;
use unitconvert::rational::Rational;

#[test]
fn parses_integers_and_fractions_exactly() {
    let q = Rational::parse_number("10").unwrap();
    assert_eq!((q.num, q.den), (10, 1));
    let q = Rational::parse_number("2.5").unwrap();
    assert_eq!((q.num, q.den), (25, 10));
    let q = Rational::parse_number("-0.304").unwrap();
    assert_eq!((q.num, q.den), (-304, 1000));
    let q = Rational::parse_number("+7").unwrap();
    assert_eq!((q.num, q.den), (7, 1));
}

#[test]
fn parses_bare_point_forms() {
    let q = Rational::parse_number(".5").unwrap();
    assert_eq!((q.num, q.den), (5, 10));
    let q = Rational::parse_number("3.").unwrap();
    assert_eq!((q.num, q.den), (3, 1));
}

#[test]
fn rejects_malformed_numbers() {
    assert!(Rational::parse_number("").is_none());
    assert!(Rational::parse_number("-").is_none());
    assert!(Rational::parse_number(".").is_none());
    assert!(Rational::parse_number("1.2.3").is_none());
    assert!(Rational::parse_number("1e3").is_none());
    assert!(Rational::parse_number("12a").is_none());
    assert!(Rational::parse_number(" 1").is_none());
}

#[test]
fn rejects_oversized_numbers() {
    assert!(Rational::parse_number("123456789012345678").is_some());
    assert!(Rational::parse_number("1234567890123456789").is_none());
    assert!(Rational::parse_number("1.23456789012345678").is_some());
    assert!(Rational::parse_number("1.234567890123456789").is_none());
}

#[test]
fn rational_constructors() {
    let q = Rational::from_int(-3);
    assert_eq!((q.num, q.den), (-3, 1));
    let q = Rational::new(5, 2);
    assert_eq!((q.num, q.den), (5, 2));
    let z = Rational::zero();
    assert_eq!((z.num, z.den), (0, 1));
}

#[test]
fn error_equality_and_messages() {
    let a = ConvertError::InvalidUnit("banana".to_string());
    let b = ConvertError::InvalidUnit("banana".to_string());
    let c = ConvertError::InvalidUnit("apple".to_string());
    assert!(a == b);
    assert!(a != c);
    assert!(a != ConvertError::ParseError("banana".to_string()));
    assert_eq!(a.message(), "Invalid unit: 'banana'");
    let u = ConvertError::UnsupportedConversion("m".to_string(), "kg".to_string());
    assert_eq!(u.message(), "Conversion from 'm' to 'kg' not supported");
    let p = ConvertError::ParseError("Invalid number".to_string());
    assert_eq!(p.message(), "Error parsing an expression: Invalid number");
}
