//! The error domain of the conversion engine.

use vstd::prelude::*;

verus! {

/// Everything that can go wrong while resolving units, converting a
/// value, or parsing a conversion expression.
#[derive(Debug, Clone)]
pub enum ConvertError {
    /// The text names no known unit in any category.
    InvalidUnit(String),
    /// Both texts name units, but no single category accepts them both.
    UnsupportedConversion(String, String),
    /// A free-text expression does not have the `<value><unit> -> <unit>`
    /// shape, its value is not a number, or a unit in it is unknown.
    ParseError(String),
}

impl ConvertError {
    /// A human-readable description of the error.
    pub fn message(&self) -> (r: String)
        ensures
            (match self {
                ConvertError::InvalidUnit(u) => r@ == "Invalid unit: '"@ + u@ + "'"@,
                ConvertError::UnsupportedConversion(f, t) => r@ == "Conversion from '"@ + f@
                    + "' to '"@ + t@ + "' not supported"@,
                ConvertError::ParseError(d) => r@ == "Error parsing an expression: "@ + d@,
            }),
    {
        match self {
            ConvertError::InvalidUnit(u) => {
                let mut m = ("Invalid unit: '").to_owned();
                m.append(u.as_str());
                m.append("'");
                m
            },
            ConvertError::UnsupportedConversion(f, t) => {
                let mut m = ("Conversion from '").to_owned();
                m.append(f.as_str());
                m.append("' to '");
                m.append(t.as_str());
                m.append("' not supported");
                m
            },
            ConvertError::ParseError(d) => {
                let mut m = ("Error parsing an expression: ").to_owned();
                m.append(d.as_str());
                m
            },
        }
    }
}

impl PartialEq for ConvertError {
    fn eq(&self, other: &Self) -> (r: bool) {
        match (self, other) {
            (ConvertError::InvalidUnit(a), ConvertError::InvalidUnit(b)) => crate::text::str_eq(
                a.as_str(),
                b.as_str(),
            ),
            (
                ConvertError::UnsupportedConversion(a1, a2),
                ConvertError::UnsupportedConversion(b1, b2),
            ) => crate::text::str_eq(a1.as_str(), b1.as_str()) && crate::text::str_eq(
                a2.as_str(),
                b2.as_str(),
            ),
            (ConvertError::ParseError(a), ConvertError::ParseError(b)) => crate::text::str_eq(
                a.as_str(),
                b.as_str(),
            ),
            _ => false,
        }
    }
}

impl vstd::std_specs::cmp::PartialEqSpecImpl for ConvertError {
    open spec fn obeys_eq_spec() -> bool {
        true
    }

    open spec fn eq_spec(&self, other: &ConvertError) -> bool {
        match (self, other) {
            (ConvertError::InvalidUnit(a), ConvertError::InvalidUnit(b)) => a@ == b@,
            (
                ConvertError::UnsupportedConversion(a1, a2),
                ConvertError::UnsupportedConversion(b1, b2),
            ) => a1@ == b1@ && a2@ == b2@,
            (ConvertError::ParseError(a), ConvertError::ParseError(b)) => a@ == b@,
            _ => false,
        }
    }
}

} // verus!
