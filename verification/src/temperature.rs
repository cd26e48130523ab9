//! Temperature units and their converter. Temperature scales are not
//! related by pure scaling: each unit carries an affine map (a scale and
//! an offset) to the category's base unit, the degree Celsius. A
//! conversion normalizes the value to Celsius and takes it back out to
//! the target unit, so Fahrenheit and Kelvin convert through Celsius.

use vstd::prelude::*;

use crate::error::ConvertError;
use crate::rational::{
    affine_convert, affine_to, bounded_offset, bounded_scale, mid_bounded, rat_eq, rat_wf,
    lemma_affine_convert_chain, lemma_affine_convert_identity, lemma_affine_convert_round_trip,
    Rat, Rational,
};
use crate::text::{seq_lower, str_eq_ignore_case};

verus! {

/// The temperature units the engine understands.
#[derive(Clone, Copy, Debug, PartialEq, Eq, Hash, Structural)]
pub enum TemperatureUnit {
    Celsius,
    Fahrenheit,
    Kelvin,
}

/// The unit a lower-cased alias names, if any.
pub open spec fn temperature_unit_of(l: Seq<char>) -> Option<TemperatureUnit> {
    if l == "c"@ || l == "celsius"@ {
        Some(TemperatureUnit::Celsius)
    } else if l == "f"@ || l == "fahrenheit"@ {
        Some(TemperatureUnit::Fahrenheit)
    } else if l == "k"@ || l == "kelvin"@ {
        Some(TemperatureUnit::Kelvin)
    } else {
        None
    }
}

/// The scale of a unit's affine map to Celsius. A Fahrenheit degree is
/// five ninths of a Celsius degree; a Kelvin is one Celsius degree.
pub open spec fn temperature_scale(u: TemperatureUnit) -> Rat {
    match u {
        TemperatureUnit::Celsius => Rat { num: 1, den: 1 },
        TemperatureUnit::Fahrenheit => Rat { num: 5, den: 9 },
        TemperatureUnit::Kelvin => Rat { num: 1, den: 1 },
    }
}

/// The offset of a unit's affine map to Celsius: `v` of the unit is
/// `v * scale + offset` degrees Celsius. Zero Fahrenheit is -160/9
/// Celsius; zero Kelvin is -273.15 Celsius.
pub open spec fn temperature_offset(u: TemperatureUnit) -> Rat {
    match u {
        TemperatureUnit::Celsius => Rat { num: 0, den: 1 },
        TemperatureUnit::Fahrenheit => Rat { num: -160, den: 9 },
        TemperatureUnit::Kelvin => Rat { num: -27315, den: 100 },
    }
}

/// The canonical display symbol of a unit.
pub open spec fn temperature_symbol(u: TemperatureUnit) -> Seq<char> {
    match u {
        TemperatureUnit::Celsius => "°C"@,
        TemperatureUnit::Fahrenheit => "°F"@,
        TemperatureUnit::Kelvin => "°K"@,
    }
}

/// What a temperature conversion returns: the value, normalized to
/// Celsius by the source unit's affine map, taken back out by the target
/// unit's.
pub open spec fn spec_temperature_convert(
    v: Rat,
    from: TemperatureUnit,
    to: TemperatureUnit,
) -> Rat {
    affine_convert(
        v,
        temperature_scale(from),
        temperature_offset(from),
        temperature_scale(to),
        temperature_offset(to),
    )
}

/// Every temperature scale is positive and small, and every offset is
/// small.
pub proof fn lemma_temperature_maps_bounded(u: TemperatureUnit)
    ensures
        bounded_scale(temperature_scale(u)),
        bounded_offset(temperature_offset(u)),
{
}

proof fn lemma_temperature_aliases_lower()
    ensures
        seq_lower("c"@) == "c"@,
        seq_lower("celsius"@) == "celsius"@,
        seq_lower("f"@) == "f"@,
        seq_lower("fahrenheit"@) == "fahrenheit"@,
        seq_lower("k"@) == "k"@,
        seq_lower("kelvin"@) == "kelvin"@,
{
    reveal_strlit("c");
    reveal_strlit("celsius");
    reveal_strlit("f");
    reveal_strlit("fahrenheit");
    reveal_strlit("k");
    reveal_strlit("kelvin");
    assert(seq_lower("c"@) =~= "c"@);
    assert(seq_lower("celsius"@) =~= "celsius"@);
    assert(seq_lower("f"@) =~= "f"@);
    assert(seq_lower("fahrenheit"@) =~= "fahrenheit"@);
    assert(seq_lower("k"@) =~= "k"@);
    assert(seq_lower("kelvin"@) =~= "kelvin"@);
}

impl TemperatureUnit {
    /// Parses a unit alias, case-insensitively.
    pub fn from_str(s: &str) -> (r: Result<TemperatureUnit, ConvertError>)
        ensures
            (match r {
                Ok(u) => temperature_unit_of(seq_lower(s@)) == Some(u),
                Err(e) => {
                    &&& temperature_unit_of(seq_lower(s@)) is None
                    &&& e matches ConvertError::InvalidUnit(t) && t@ == s@
                },
            }),
    {
        proof {
            lemma_temperature_aliases_lower();
        }
        if str_eq_ignore_case(s, "c") || str_eq_ignore_case(s, "celsius") {
            Ok(TemperatureUnit::Celsius)
        } else if str_eq_ignore_case(s, "f") || str_eq_ignore_case(s, "fahrenheit") {
            Ok(TemperatureUnit::Fahrenheit)
        } else if str_eq_ignore_case(s, "k") || str_eq_ignore_case(s, "kelvin") {
            Ok(TemperatureUnit::Kelvin)
        } else {
            Err(ConvertError::InvalidUnit(s.to_owned()))
        }
    }

    /// The canonical display symbol.
    pub fn symbol(&self) -> (r: String)
        ensures
            r@ == temperature_symbol(*self),
    {
        match self {
            TemperatureUnit::Celsius => ("°C").to_owned(),
            TemperatureUnit::Fahrenheit => ("°F").to_owned(),
            TemperatureUnit::Kelvin => ("°K").to_owned(),
        }
    }

    /// The scale of the affine map to Celsius.
    fn scale(&self) -> (r: Rational)
        ensures
            r@ == temperature_scale(*self),
    {
        match self {
            TemperatureUnit::Celsius => Rational::new(1, 1),
            TemperatureUnit::Fahrenheit => Rational::new(5, 9),
            TemperatureUnit::Kelvin => Rational::new(1, 1),
        }
    }

    /// The offset of the affine map to Celsius.
    fn offset(&self) -> (r: Rational)
        ensures
            r@ == temperature_offset(*self),
    {
        match self {
            TemperatureUnit::Celsius => Rational::new(0, 1),
            TemperatureUnit::Fahrenheit => Rational::new(-160, 9),
            TemperatureUnit::Kelvin => Rational::new(-27315, 100),
        }
    }
}

/// Converts between temperature units through the degree Celsius.
#[derive(Debug)]
pub struct TemperatureConverter;

impl TemperatureConverter {
    /// The display symbol for a unit alias; text that names no
    /// temperature unit comes back unchanged.
    pub fn get_unit_string(&self, unit_str: &str) -> (r: String)
        ensures
            (match temperature_unit_of(seq_lower(unit_str@)) {
                Some(u) => r@ == temperature_symbol(u),
                None => r@ == unit_str@,
            }),
    {
        match TemperatureUnit::from_str(unit_str) {
            Ok(unit) => unit.symbol(),
            Err(_) => unit_str.to_owned(),
        }
    }

    fn to_celsius(value: Rational, unit: &TemperatureUnit) -> (r: Rational)
        requires
            value.wf(),
            value.bounded(),
        ensures
            r@ == affine_to(value@, temperature_scale(*unit), temperature_offset(*unit)),
            rat_wf(r@),
            mid_bounded(r@),
    {
        proof {
            lemma_temperature_maps_bounded(*unit);
        }
        value.affine_to(unit.scale(), unit.offset())
    }

    fn from_celsius(celsius: Rational, unit: &TemperatureUnit) -> (r: Rational)
        requires
            rat_wf(celsius@),
            mid_bounded(celsius@),
        ensures
            r@ == crate::rational::affine_from(
                celsius@,
                temperature_scale(*unit),
                temperature_offset(*unit),
            ),
            rat_wf(r@),
    {
        proof {
            lemma_temperature_maps_bounded(*unit);
        }
        celsius.affine_from(unit.scale(), unit.offset())
    }

    /// Converts `value` from one temperature unit to another, both given
    /// as aliases. Succeeds exactly when both aliases name temperature
    /// units.
    pub fn convert(&self, value: Rational, from: &str, to: &str) -> (r: Result<
        Rational,
        ConvertError,
    >)
        requires
            value.wf(),
            value.bounded(),
        ensures
            (match r {
                Ok(out) => temperature_unit_of(seq_lower(from@)) matches Some(fu)
                    && temperature_unit_of(seq_lower(to@)) matches Some(tu) && out@
                    == spec_temperature_convert(value@, fu, tu) && rat_wf(out@),
                Err(e) => (match e {
                    ConvertError::InvalidUnit(t) => (temperature_unit_of(
                        seq_lower(from@),
                    ) is None && t@ == from@) || (temperature_unit_of(seq_lower(from@)) is Some
                        && temperature_unit_of(seq_lower(to@)) is None && t@ == to@),
                    _ => false,
                }),
            }),
    {
        let from_unit = match TemperatureUnit::from_str(from) {
            Ok(u) => u,
            Err(e) => return Err(e),
        };
        let to_unit = match TemperatureUnit::from_str(to) {
            Ok(u) => u,
            Err(e) => return Err(e),
        };
        let celsius = Self::to_celsius(value, &from_unit);
        Ok(Self::from_celsius(celsius, &to_unit))
    }

    /// All temperature unit symbols, sorted lexicographically.
    pub fn supported_units(&self) -> (r: Vec<String>)
        ensures
            r@.len() == 3,
            r@[0]@ == "°C"@,
            r@[1]@ == "°F"@,
            r@[2]@ == "°K"@,
    {
        let mut units: Vec<String> = Vec::new();
        units.push(("°C").to_owned());
        units.push(("°F").to_owned());
        units.push(("°K").to_owned());
        units
    }
}

/// Converting a temperature to a unit and back returns the original
/// value exactly.
pub proof fn lemma_temperature_round_trip(v: Rat, u1: TemperatureUnit, u2: TemperatureUnit)
    requires
        rat_wf(v),
    ensures
        rat_eq(spec_temperature_convert(spec_temperature_convert(v, u1, u2), u2, u1), v),
{
    lemma_temperature_maps_bounded(u1);
    lemma_temperature_maps_bounded(u2);
    lemma_affine_convert_round_trip(
        v,
        temperature_scale(u1),
        temperature_offset(u1),
        temperature_scale(u2),
        temperature_offset(u2),
    );
}

/// Converting a temperature from a unit to the same unit returns the
/// value exactly.
pub proof fn lemma_temperature_identity(v: Rat, u: TemperatureUnit)
    requires
        rat_wf(v),
    ensures
        rat_eq(spec_temperature_convert(v, u, u), v),
{
    lemma_temperature_maps_bounded(u);
    lemma_affine_convert_identity(v, temperature_scale(u), temperature_offset(u));
}

/// Converting a temperature through an intermediate unit agrees with
/// converting directly: every path goes through Celsius.
pub proof fn lemma_temperature_consistency(
    v: Rat,
    u1: TemperatureUnit,
    u2: TemperatureUnit,
    u3: TemperatureUnit,
)
    requires
        rat_wf(v),
    ensures
        rat_eq(
            spec_temperature_convert(spec_temperature_convert(v, u1, u2), u2, u3),
            spec_temperature_convert(v, u1, u3),
        ),
{
    lemma_temperature_maps_bounded(u1);
    lemma_temperature_maps_bounded(u2);
    lemma_temperature_maps_bounded(u3);
    lemma_affine_convert_chain(
        v,
        temperature_scale(u1),
        temperature_offset(u1),
        temperature_scale(u2),
        temperature_offset(u2),
        temperature_scale(u3),
        temperature_offset(u3),
    );
}

} // verus!
