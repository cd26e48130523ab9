//! Distance units and their converter. Every unit carries a fixed scale
//! to the category's base unit, the meter; a conversion normalizes the
//! value to meters and takes it back out to the target unit.

use vstd::prelude::*;

use crate::error::ConvertError;
use crate::rational::{
    affine_convert, affine_to, bounded_scale, mid_bounded, rat_eq, rat_wf, rat_zero,
    lemma_affine_convert_chain, lemma_affine_convert_identity, lemma_affine_convert_round_trip,
    Rat, Rational,
};
use crate::text::{seq_lower, str_eq_ignore_case};

verus! {

/// The distance units the engine understands.
#[derive(Clone, Copy, Debug, PartialEq, Eq, Hash, Structural)]
pub enum DistanceUnit {
    Meter,
    Kilometer,
    Foot,
    Mile,
    Inch,
    Centimeter,
    Millimeter,
}

/// The unit a lower-cased alias names, if any.
pub open spec fn distance_unit_of(l: Seq<char>) -> Option<DistanceUnit> {
    if l == "m"@ || l == "meter"@ || l == "metre"@ || l == "meters"@ || l == "metres"@ {
        Some(DistanceUnit::Meter)
    } else if l == "km"@ || l == "kilometer"@ || l == "kilometre"@ || l == "kilometers"@ || l
        == "kilometres"@ {
        Some(DistanceUnit::Kilometer)
    } else if l == "ft"@ || l == "foot"@ || l == "feet"@ {
        Some(DistanceUnit::Foot)
    } else if l == "mi"@ || l == "mile"@ || l == "miles"@ {
        Some(DistanceUnit::Mile)
    } else if l == "in"@ || l == "inch"@ || l == "inches"@ {
        Some(DistanceUnit::Inch)
    } else if l == "cm"@ || l == "centimeter"@ || l == "centimeters"@ || l == "centimetre"@ || l
        == "centimetres"@ {
        Some(DistanceUnit::Centimeter)
    } else if l == "mm"@ || l == "millimeter"@ || l == "millimeters"@ || l == "millimetre"@ || l
        == "millimetres"@ {
        Some(DistanceUnit::Millimeter)
    } else {
        None
    }
}

/// The scale of a unit relative to the meter: one of the unit is this
/// many meters.
pub open spec fn distance_scale(u: DistanceUnit) -> Rat {
    match u {
        DistanceUnit::Meter => Rat { num: 1, den: 1 },
        DistanceUnit::Kilometer => Rat { num: 1000, den: 1 },
        DistanceUnit::Foot => Rat { num: 3048, den: 10000 },
        DistanceUnit::Mile => Rat { num: 160934, den: 100 },
        DistanceUnit::Inch => Rat { num: 254, den: 10000 },
        DistanceUnit::Centimeter => Rat { num: 1, den: 100 },
        DistanceUnit::Millimeter => Rat { num: 1, den: 1000 },
    }
}

/// The canonical display symbol of a unit.
pub open spec fn distance_symbol(u: DistanceUnit) -> Seq<char> {
    match u {
        DistanceUnit::Meter => "m"@,
        DistanceUnit::Kilometer => "km"@,
        DistanceUnit::Foot => "ft"@,
        DistanceUnit::Mile => "mi"@,
        DistanceUnit::Inch => "in"@,
        DistanceUnit::Centimeter => "cm"@,
        DistanceUnit::Millimeter => "mm"@,
    }
}

/// What a distance conversion returns: the value, normalized to meters
/// by the source unit's scale, taken back out by the target unit's.
pub open spec fn spec_distance_convert(v: Rat, from: DistanceUnit, to: DistanceUnit) -> Rat {
    affine_convert(v, distance_scale(from), rat_zero(), distance_scale(to), rat_zero())
}

/// Every distance scale is positive and small.
pub proof fn lemma_distance_scale_positive(u: DistanceUnit)
    ensures
        bounded_scale(distance_scale(u)),
{
}

proof fn lemma_distance_aliases_lower()
    ensures
        seq_lower("m"@) == "m"@,
        seq_lower("meter"@) == "meter"@,
        seq_lower("metre"@) == "metre"@,
        seq_lower("meters"@) == "meters"@,
        seq_lower("metres"@) == "metres"@,
        seq_lower("km"@) == "km"@,
        seq_lower("kilometer"@) == "kilometer"@,
        seq_lower("kilometre"@) == "kilometre"@,
        seq_lower("kilometers"@) == "kilometers"@,
        seq_lower("kilometres"@) == "kilometres"@,
        seq_lower("ft"@) == "ft"@,
        seq_lower("foot"@) == "foot"@,
        seq_lower("feet"@) == "feet"@,
        seq_lower("mi"@) == "mi"@,
        seq_lower("mile"@) == "mile"@,
        seq_lower("miles"@) == "miles"@,
        seq_lower("in"@) == "in"@,
        seq_lower("inch"@) == "inch"@,
        seq_lower("inches"@) == "inches"@,
        seq_lower("cm"@) == "cm"@,
        seq_lower("centimeter"@) == "centimeter"@,
        seq_lower("centimeters"@) == "centimeters"@,
        seq_lower("centimetre"@) == "centimetre"@,
        seq_lower("centimetres"@) == "centimetres"@,
        seq_lower("mm"@) == "mm"@,
        seq_lower("millimeter"@) == "millimeter"@,
        seq_lower("millimeters"@) == "millimeters"@,
        seq_lower("millimetre"@) == "millimetre"@,
        seq_lower("millimetres"@) == "millimetres"@,
{
    reveal_strlit("m");
    reveal_strlit("meter");
    reveal_strlit("metre");
    reveal_strlit("meters");
    reveal_strlit("metres");
    reveal_strlit("km");
    reveal_strlit("kilometer");
    reveal_strlit("kilometre");
    reveal_strlit("kilometers");
    reveal_strlit("kilometres");
    reveal_strlit("ft");
    reveal_strlit("foot");
    reveal_strlit("feet");
    reveal_strlit("mi");
    reveal_strlit("mile");
    reveal_strlit("miles");
    reveal_strlit("in");
    reveal_strlit("inch");
    reveal_strlit("inches");
    reveal_strlit("cm");
    reveal_strlit("centimeter");
    reveal_strlit("centimeters");
    reveal_strlit("centimetre");
    reveal_strlit("centimetres");
    reveal_strlit("mm");
    reveal_strlit("millimeter");
    reveal_strlit("millimeters");
    reveal_strlit("millimetre");
    reveal_strlit("millimetres");
    assert(seq_lower("m"@) =~= "m"@);
    assert(seq_lower("meter"@) =~= "meter"@);
    assert(seq_lower("metre"@) =~= "metre"@);
    assert(seq_lower("meters"@) =~= "meters"@);
    assert(seq_lower("metres"@) =~= "metres"@);
    assert(seq_lower("km"@) =~= "km"@);
    assert(seq_lower("kilometer"@) =~= "kilometer"@);
    assert(seq_lower("kilometre"@) =~= "kilometre"@);
    assert(seq_lower("kilometers"@) =~= "kilometers"@);
    assert(seq_lower("kilometres"@) =~= "kilometres"@);
    assert(seq_lower("ft"@) =~= "ft"@);
    assert(seq_lower("foot"@) =~= "foot"@);
    assert(seq_lower("feet"@) =~= "feet"@);
    assert(seq_lower("mi"@) =~= "mi"@);
    assert(seq_lower("mile"@) =~= "mile"@);
    assert(seq_lower("miles"@) =~= "miles"@);
    assert(seq_lower("in"@) =~= "in"@);
    assert(seq_lower("inch"@) =~= "inch"@);
    assert(seq_lower("inches"@) =~= "inches"@);
    assert(seq_lower("cm"@) =~= "cm"@);
    assert(seq_lower("centimeter"@) =~= "centimeter"@);
    assert(seq_lower("centimeters"@) =~= "centimeters"@);
    assert(seq_lower("centimetre"@) =~= "centimetre"@);
    assert(seq_lower("centimetres"@) =~= "centimetres"@);
    assert(seq_lower("mm"@) =~= "mm"@);
    assert(seq_lower("millimeter"@) =~= "millimeter"@);
    assert(seq_lower("millimeters"@) =~= "millimeters"@);
    assert(seq_lower("millimetre"@) =~= "millimetre"@);
    assert(seq_lower("millimetres"@) =~= "millimetres"@);
}

impl DistanceUnit {
    /// Parses a unit alias, case-insensitively.
    pub fn from_str(s: &str) -> (r: Result<DistanceUnit, ConvertError>)
        ensures
            (match r {
                Ok(u) => distance_unit_of(seq_lower(s@)) == Some(u),
                Err(e) => {
                    &&& distance_unit_of(seq_lower(s@)) is None
                    &&& e matches ConvertError::InvalidUnit(t) && t@ == s@
                },
            }),
    {
        proof {
            lemma_distance_aliases_lower();
        }
        if str_eq_ignore_case(s, "m") || str_eq_ignore_case(s, "meter") || str_eq_ignore_case(
            s,
            "metre",
        ) || str_eq_ignore_case(s, "meters") || str_eq_ignore_case(s, "metres") {
            Ok(DistanceUnit::Meter)
        } else if str_eq_ignore_case(s, "km") || str_eq_ignore_case(s, "kilometer")
            || str_eq_ignore_case(s, "kilometre") || str_eq_ignore_case(s, "kilometers")
            || str_eq_ignore_case(s, "kilometres") {
            Ok(DistanceUnit::Kilometer)
        } else if str_eq_ignore_case(s, "ft") || str_eq_ignore_case(s, "foot")
            || str_eq_ignore_case(s, "feet") {
            Ok(DistanceUnit::Foot)
        } else if str_eq_ignore_case(s, "mi") || str_eq_ignore_case(s, "mile")
            || str_eq_ignore_case(s, "miles") {
            Ok(DistanceUnit::Mile)
        } else if str_eq_ignore_case(s, "in") || str_eq_ignore_case(s, "inch")
            || str_eq_ignore_case(s, "inches") {
            Ok(DistanceUnit::Inch)
        } else if str_eq_ignore_case(s, "cm") || str_eq_ignore_case(s, "centimeter")
            || str_eq_ignore_case(s, "centimeters") || str_eq_ignore_case(s, "centimetre")
            || str_eq_ignore_case(s, "centimetres") {
            Ok(DistanceUnit::Centimeter)
        } else if str_eq_ignore_case(s, "mm") || str_eq_ignore_case(s, "millimeter")
            || str_eq_ignore_case(s, "millimeters") || str_eq_ignore_case(s, "millimetre")
            || str_eq_ignore_case(s, "millimetres") {
            Ok(DistanceUnit::Millimeter)
        } else {
            Err(ConvertError::InvalidUnit(s.to_owned()))
        }
    }

    /// The canonical display symbol.
    pub fn symbol(&self) -> (r: String)
        ensures
            r@ == distance_symbol(*self),
    {
        match self {
            DistanceUnit::Meter => ("m").to_owned(),
            DistanceUnit::Kilometer => ("km").to_owned(),
            DistanceUnit::Foot => ("ft").to_owned(),
            DistanceUnit::Mile => ("mi").to_owned(),
            DistanceUnit::Inch => ("in").to_owned(),
            DistanceUnit::Centimeter => ("cm").to_owned(),
            DistanceUnit::Millimeter => ("mm").to_owned(),
        }
    }

    /// The scale to the meter, as an executable rational.
    fn scale(&self) -> (r: Rational)
        ensures
            r@ == distance_scale(*self),
    {
        match self {
            DistanceUnit::Meter => Rational::new(1, 1),
            DistanceUnit::Kilometer => Rational::new(1000, 1),
            DistanceUnit::Foot => Rational::new(3048, 10000),
            DistanceUnit::Mile => Rational::new(160934, 100),
            DistanceUnit::Inch => Rational::new(254, 10000),
            DistanceUnit::Centimeter => Rational::new(1, 100),
            DistanceUnit::Millimeter => Rational::new(1, 1000),
        }
    }
}

/// Converts between distance units through the meter.
#[derive(Debug)]
pub struct DistanceConverter;

impl DistanceConverter {
    /// The display symbol for a unit alias; text that names no distance
    /// unit comes back unchanged.
    pub fn get_unit_string(&self, unit_str: &str) -> (r: String)
        ensures
            (match distance_unit_of(seq_lower(unit_str@)) {
                Some(u) => r@ == distance_symbol(u),
                None => r@ == unit_str@,
            }),
    {
        match DistanceUnit::from_str(unit_str) {
            Ok(unit) => unit.symbol(),
            Err(_) => unit_str.to_owned(),
        }
    }

    fn to_meter(value: Rational, unit: &DistanceUnit) -> (r: Rational)
        requires
            value.wf(),
            value.bounded(),
        ensures
            r@ == affine_to(value@, distance_scale(*unit), rat_zero()),
            rat_wf(r@),
            mid_bounded(r@),
    {
        proof {
            lemma_distance_scale_positive(*unit);
        }
        value.affine_to(unit.scale(), Rational::zero())
    }

    fn from_meter(meters: Rational, unit: &DistanceUnit) -> (r: Rational)
        requires
            rat_wf(meters@),
            mid_bounded(meters@),
        ensures
            r@ == crate::rational::affine_from(meters@, distance_scale(*unit), rat_zero()),
            rat_wf(r@),
    {
        proof {
            lemma_distance_scale_positive(*unit);
        }
        meters.affine_from(unit.scale(), Rational::zero())
    }

    /// Converts `value` from one distance unit to another, both given as
    /// aliases. Succeeds exactly when both aliases name distance units.
    pub fn convert(&self, value: Rational, from: &str, to: &str) -> (r: Result<
        Rational,
        ConvertError,
    >)
        requires
            value.wf(),
            value.bounded(),
        ensures
            (match r {
                Ok(out) => distance_unit_of(seq_lower(from@)) matches Some(fu)
                    && distance_unit_of(seq_lower(to@)) matches Some(tu) && out@
                    == spec_distance_convert(value@, fu, tu) && rat_wf(out@),
                Err(e) => (match e {
                    ConvertError::InvalidUnit(t) => (distance_unit_of(seq_lower(from@)) is None
                        && t@ == from@) || (distance_unit_of(seq_lower(from@)) is Some
                        && distance_unit_of(seq_lower(to@)) is None && t@ == to@),
                    _ => false,
                }),
            }),
    {
        let from_unit = match DistanceUnit::from_str(from) {
            Ok(u) => u,
            Err(e) => return Err(e),
        };
        let to_unit = match DistanceUnit::from_str(to) {
            Ok(u) => u,
            Err(e) => return Err(e),
        };
        let meters = Self::to_meter(value, &from_unit);
        Ok(Self::from_meter(meters, &to_unit))
    }

    /// All distance unit symbols, sorted lexicographically.
    pub fn supported_units(&self) -> (r: Vec<String>)
        ensures
            r@.len() == 7,
            r@[0]@ == "cm"@,
            r@[1]@ == "ft"@,
            r@[2]@ == "in"@,
            r@[3]@ == "km"@,
            r@[4]@ == "m"@,
            r@[5]@ == "mi"@,
            r@[6]@ == "mm"@,
    {
        let mut units: Vec<String> = Vec::new();
        units.push(("cm").to_owned());
        units.push(("ft").to_owned());
        units.push(("in").to_owned());
        units.push(("km").to_owned());
        units.push(("m").to_owned());
        units.push(("mi").to_owned());
        units.push(("mm").to_owned());
        units
    }
}

/// Converting a distance to a unit and back returns the original value
/// exactly.
pub proof fn lemma_distance_round_trip(v: Rat, u1: DistanceUnit, u2: DistanceUnit)
    requires
        rat_wf(v),
    ensures
        rat_eq(spec_distance_convert(spec_distance_convert(v, u1, u2), u2, u1), v),
{
    lemma_distance_scale_positive(u1);
    lemma_distance_scale_positive(u2);
    lemma_affine_convert_round_trip(
        v,
        distance_scale(u1),
        rat_zero(),
        distance_scale(u2),
        rat_zero(),
    );
}

/// Converting a distance from a unit to the same unit returns the value
/// exactly.
pub proof fn lemma_distance_identity(v: Rat, u: DistanceUnit)
    requires
        rat_wf(v),
    ensures
        rat_eq(spec_distance_convert(v, u, u), v),
{
    lemma_distance_scale_positive(u);
    lemma_affine_convert_identity(v, distance_scale(u), rat_zero());
}

/// Converting a distance through an intermediate unit agrees with
/// converting directly: every path goes through the meter.
pub proof fn lemma_distance_consistency(v: Rat, u1: DistanceUnit, u2: DistanceUnit, u3: DistanceUnit)
    requires
        rat_wf(v),
    ensures
        rat_eq(
            spec_distance_convert(spec_distance_convert(v, u1, u2), u2, u3),
            spec_distance_convert(v, u1, u3),
        ),
{
    lemma_distance_scale_positive(u1);
    lemma_distance_scale_positive(u2);
    lemma_distance_scale_positive(u3);
    lemma_affine_convert_chain(
        v,
        distance_scale(u1),
        rat_zero(),
        distance_scale(u2),
        rat_zero(),
        distance_scale(u3),
        rat_zero(),
    );
}

} // verus!
