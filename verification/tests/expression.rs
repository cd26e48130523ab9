use unitconvert::error::ConvertError;
use unitconvert::expression::{get_all_unit_strings, parse_expression, suggest_unit};
use unitconvert::rational::Rational;

fn as_f64(r: &Rational) -> f64 {
    r.num as f64 / r.den as f64
}

#[test]
fn parses_valid_expression() {
    let result = parse_expression("10C -> F").unwrap();
    assert_eq!(as_f64(&result.value), 10.0);
    assert_eq!(result.from, "c".to_string());
    assert_eq!(result.to, "f".to_string());
}

#[test]
fn handles_invalid_format() {
    let result = parse_expression("10C into F");
    assert!(result.is_err(), "Expected error, got {:?}", result);
    let err = result.unwrap_err();
    assert!(matches!(err, ConvertError::ParseError(_)));
}

#[test]
fn handles_non_numeric_input() {
    let result = parse_expression("abcC -> F");
    assert!(result.is_err(), "Expected error, got {:?}", result);
    let err = result.unwrap_err();
    assert!(matches!(err, ConvertError::ParseError(_)));
}

#[test]
fn test_parse_expression_valid() {
    let expr = "10C -> F";
    let parsed = parse_expression(expr).unwrap();
    assert_eq!(as_f64(&parsed.value), 10.0);
    assert_eq!(parsed.from, "c".to_string());
    assert_eq!(parsed.to, "f".to_string());
}

#[test]
fn test_parse_expression_invalid_format() {
    let result = parse_expression("10C into F");
    assert!(result.is_err(), "Expected error, got: {:?}", result);
    let err = result.unwrap_err();
    assert!(matches!(err, ConvertError::ParseError(_)));
}

#[test]
fn test_parse_expression_non_numberic_value() {
    let result = parse_expression("abcC -> F");
    assert!(result.is_err(), "Expected error, got: {:?}", result);
    let err = result.unwrap_err();
    assert!(matches!(err, ConvertError::ParseError(_)));
}

#[test]
fn accepts_word_separator_as_whole_token() {
    let parsed = parse_expression("2.5kg to lb").unwrap();
    assert_eq!(as_f64(&parsed.value), 2.5);
    assert_eq!(parsed.from, "kg");
    assert_eq!(parsed.to, "lb");
    let parsed = parse_expression("1 m TO ft").unwrap();
    assert_eq!(as_f64(&parsed.value), 1.0);
    assert_eq!(parsed.from, "m");
    assert_eq!(parsed.to, "ft");
}

#[test]
fn word_separator_inside_a_word_does_not_split() {
    // "stone" contains "to"; only a free-standing separator splits.
    let parsed = parse_expression("3 stone -> kg").unwrap();
    assert_eq!(parsed.from, "stone");
    assert_eq!(parsed.to, "kg");
}

#[test]
fn two_separators_fail() {
    let result = parse_expression("1 m -> ft -> km");
    assert!(matches!(result, Err(ConvertError::ParseError(_))));
}

#[test]
fn misspelled_unit_gets_a_suggestion() {
    let result = parse_expression("10 fute -> celsius");
    let err = result.unwrap_err();
    match err {
        ConvertError::ParseError(msg) => {
            assert!(
                msg.contains("Unknown unit 'fute'"),
                "unexpected message: {}",
                msg
            );
            assert!(
                msg.contains("Did you mean 'ft'?"),
                "unexpected message: {}",
                msg
            );
        }
        other => panic!("Expected ParseError, got {:?}", other),
    }
}

#[test]
fn far_misspelling_gets_no_suggestion() {
    let result = parse_expression("10 xylophone -> m");
    let err = result.unwrap_err();
    match err {
        ConvertError::ParseError(msg) => {
            assert!(
                msg.contains("Unknown unit 'xylophone'"),
                "unexpected message: {}",
                msg
            );
            assert!(!msg.contains("Did you mean"), "unexpected message: {}", msg);
        }
        other => panic!("Expected ParseError, got {:?}", other),
    }
}

#[test]
fn suggest_unit_picks_the_closest_alias() {
    let valid = get_all_unit_strings();
    assert_eq!(suggest_unit("metrr", &valid), Some("meter".to_string()));
    assert_eq!(suggest_unit("kelvim", &valid), Some("kelvin".to_string()));
    assert_eq!(suggest_unit("xylophone", &valid), None);
}

#[test]
fn all_unit_strings_cover_every_category() {
    let valid = get_all_unit_strings();
    assert_eq!(valid.len(), 50);
    assert!(valid.iter().any(|u| u == "m"));
    assert!(valid.iter().any(|u| u == "kilograms"));
    assert!(valid.iter().any(|u| u == "fahrenheit"));
}

#[test]
fn tolerates_extra_whitespace_and_no_spaces() {
    let parsed = parse_expression("  10 m  ->  ft  ").unwrap();
    assert_eq!(as_f64(&parsed.value), 10.0);
    assert_eq!(parsed.from, "m");
    assert_eq!(parsed.to, "ft");
    let parsed = parse_expression("10C->F").unwrap();
    assert_eq!(parsed.from, "c");
    assert_eq!(parsed.to, "f");
}

#[test]
fn empty_and_separatorless_input_fail() {
    assert!(matches!(
        parse_expression(""),
        Err(ConvertError::ParseError(_))
    ));
    assert!(matches!(
        parse_expression("10 m ft"),
        Err(ConvertError::ParseError(_))
    ));
}

#[test]
fn missing_unit_in_left_segment_fails() {
    let err = parse_expression("10 -> ft").unwrap_err();
    match err {
        ConvertError::ParseError(msg) => {
            assert_eq!(msg, "Missing unit in expression");
        }
        other => panic!("Expected ParseError, got {:?}", other),
    }
}

#[test]
fn expression_value_is_parsed_exactly() {
    let parsed = parse_expression("0.1m -> cm").unwrap();
    assert_eq!(parsed.value.num, 1);
    assert_eq!(parsed.value.den, 10);
}
