//! Mass units and their converter. Every unit carries a fixed scale to
//! the category's base unit, the gram; a conversion normalizes the value
//! to grams and takes it back out to the target unit.

use vstd::prelude::*;

use crate::error::ConvertError;
use crate::rational::{
    affine_convert, affine_to, bounded_scale, mid_bounded, rat_eq, rat_wf, rat_zero,
    lemma_affine_convert_chain, lemma_affine_convert_identity, lemma_affine_convert_round_trip,
    Rat, Rational,
};
use crate::text::{seq_lower, str_eq_ignore_case};

verus! {

/// The mass units the engine understands.
#[derive(Clone, Copy, Debug, PartialEq, Eq, Hash, Structural)]
pub enum MassUnit {
    Kilogram,
    Pound,
    Stone,
    Ounce,
    Gram,
}

/// The unit a lower-cased alias names, if any.
pub open spec fn mass_unit_of(l: Seq<char>) -> Option<MassUnit> {
    if l == "kg"@ || l == "kilogram"@ || l == "kilograms"@ {
        Some(MassUnit::Kilogram)
    } else if l == "lb"@ || l == "pound"@ || l == "pounds"@ {
        Some(MassUnit::Pound)
    } else if l == "st"@ || l == "stone"@ || l == "stones"@ {
        Some(MassUnit::Stone)
    } else if l == "oz"@ || l == "ounce"@ || l == "ounces"@ {
        Some(MassUnit::Ounce)
    } else if l == "g"@ || l == "gram"@ || l == "grams"@ {
        Some(MassUnit::Gram)
    } else {
        None
    }
}

/// The scale of a unit relative to the gram: one of the unit is this
/// many grams.
pub open spec fn mass_scale(u: MassUnit) -> Rat {
    match u {
        MassUnit::Kilogram => Rat { num: 1000, den: 1 },
        MassUnit::Pound => Rat { num: 45359291, den: 100000 },
        MassUnit::Stone => Rat { num: 635029497, den: 100000 },
        MassUnit::Ounce => Rat { num: 2834949, den: 100000 },
        MassUnit::Gram => Rat { num: 1, den: 1 },
    }
}

/// The canonical display symbol of a unit.
pub open spec fn mass_symbol(u: MassUnit) -> Seq<char> {
    match u {
        MassUnit::Kilogram => "kg"@,
        MassUnit::Pound => "lb"@,
        MassUnit::Stone => "st"@,
        MassUnit::Ounce => "oz"@,
        MassUnit::Gram => "g"@,
    }
}

/// What a mass conversion returns: the value, normalized to grams by the
/// source unit's scale, taken back out by the target unit's.
pub open spec fn spec_mass_convert(v: Rat, from: MassUnit, to: MassUnit) -> Rat {
    affine_convert(v, mass_scale(from), rat_zero(), mass_scale(to), rat_zero())
}

/// Every mass scale is positive and small.
pub proof fn lemma_mass_scale_positive(u: MassUnit)
    ensures
        bounded_scale(mass_scale(u)),
{
}

proof fn lemma_mass_aliases_lower()
    ensures
        seq_lower("kg"@) == "kg"@,
        seq_lower("kilogram"@) == "kilogram"@,
        seq_lower("kilograms"@) == "kilograms"@,
        seq_lower("lb"@) == "lb"@,
        seq_lower("pound"@) == "pound"@,
        seq_lower("pounds"@) == "pounds"@,
        seq_lower("st"@) == "st"@,
        seq_lower("stone"@) == "stone"@,
        seq_lower("stones"@) == "stones"@,
        seq_lower("oz"@) == "oz"@,
        seq_lower("ounce"@) == "ounce"@,
        seq_lower("ounces"@) == "ounces"@,
        seq_lower("g"@) == "g"@,
        seq_lower("gram"@) == "gram"@,
        seq_lower("grams"@) == "grams"@,
{
    reveal_strlit("kg");
    reveal_strlit("kilogram");
    reveal_strlit("kilograms");
    reveal_strlit("lb");
    reveal_strlit("pound");
    reveal_strlit("pounds");
    reveal_strlit("st");
    reveal_strlit("stone");
    reveal_strlit("stones");
    reveal_strlit("oz");
    reveal_strlit("ounce");
    reveal_strlit("ounces");
    reveal_strlit("g");
    reveal_strlit("gram");
    reveal_strlit("grams");
    assert(seq_lower("kg"@) =~= "kg"@);
    assert(seq_lower("kilogram"@) =~= "kilogram"@);
    assert(seq_lower("kilograms"@) =~= "kilograms"@);
    assert(seq_lower("lb"@) =~= "lb"@);
    assert(seq_lower("pound"@) =~= "pound"@);
    assert(seq_lower("pounds"@) =~= "pounds"@);
    assert(seq_lower("st"@) =~= "st"@);
    assert(seq_lower("stone"@) =~= "stone"@);
    assert(seq_lower("stones"@) =~= "stones"@);
    assert(seq_lower("oz"@) =~= "oz"@);
    assert(seq_lower("ounce"@) =~= "ounce"@);
    assert(seq_lower("ounces"@) =~= "ounces"@);
    assert(seq_lower("g"@) =~= "g"@);
    assert(seq_lower("gram"@) =~= "gram"@);
    assert(seq_lower("grams"@) =~= "grams"@);
}

impl MassUnit {
    /// Parses a unit alias, case-insensitively.
    pub fn from_str(s: &str) -> (r: Result<MassUnit, ConvertError>)
        ensures
            (match r {
                Ok(u) => mass_unit_of(seq_lower(s@)) == Some(u),
                Err(e) => {
                    &&& mass_unit_of(seq_lower(s@)) is None
                    &&& e matches ConvertError::InvalidUnit(t) && t@ == s@
                },
            }),
    {
        proof {
            lemma_mass_aliases_lower();
        }
        if str_eq_ignore_case(s, "kg") || str_eq_ignore_case(s, "kilogram") || str_eq_ignore_case(
            s,
            "kilograms",
        ) {
            Ok(MassUnit::Kilogram)
        } else if str_eq_ignore_case(s, "lb") || str_eq_ignore_case(s, "pound")
            || str_eq_ignore_case(s, "pounds") {
            Ok(MassUnit::Pound)
        } else if str_eq_ignore_case(s, "st") || str_eq_ignore_case(s, "stone")
            || str_eq_ignore_case(s, "stones") {
            Ok(MassUnit::Stone)
        } else if str_eq_ignore_case(s, "oz") || str_eq_ignore_case(s, "ounce")
            || str_eq_ignore_case(s, "ounces") {
            Ok(MassUnit::Ounce)
        } else if str_eq_ignore_case(s, "g") || str_eq_ignore_case(s, "gram")
            || str_eq_ignore_case(s, "grams") {
            Ok(MassUnit::Gram)
        } else {
            Err(ConvertError::InvalidUnit(s.to_owned()))
        }
    }

    /// The canonical display symbol.
    pub fn symbol(&self) -> (r: String)
        ensures
            r@ == mass_symbol(*self),
    {
        match self {
            MassUnit::Kilogram => ("kg").to_owned(),
            MassUnit::Pound => ("lb").to_owned(),
            MassUnit::Stone => ("st").to_owned(),
            MassUnit::Ounce => ("oz").to_owned(),
            MassUnit::Gram => ("g").to_owned(),
        }
    }

    /// The scale to the gram, as an executable rational.
    fn scale(&self) -> (r: Rational)
        ensures
            r@ == mass_scale(*self),
    {
        match self {
            MassUnit::Kilogram => Rational::new(1000, 1),
            MassUnit::Pound => Rational::new(45359291, 100000),
            MassUnit::Stone => Rational::new(635029497, 100000),
            MassUnit::Ounce => Rational::new(2834949, 100000),
            MassUnit::Gram => Rational::new(1, 1),
        }
    }
}

/// Converts between mass units through the gram.
#[derive(Debug)]
pub struct MassConverter;

impl MassConverter {
    /// The display symbol for a unit alias; text that names no mass unit
    /// comes back unchanged.
    pub fn get_unit_string(&self, unit_str: &str) -> (r: String)
        ensures
            (match mass_unit_of(seq_lower(unit_str@)) {
                Some(u) => r@ == mass_symbol(u),
                None => r@ == unit_str@,
            }),
    {
        match MassUnit::from_str(unit_str) {
            Ok(unit) => unit.symbol(),
            Err(_) => unit_str.to_owned(),
        }
    }

    fn to_grams(value: Rational, unit: &MassUnit) -> (r: Rational)
        requires
            value.wf(),
            value.bounded(),
        ensures
            r@ == affine_to(value@, mass_scale(*unit), rat_zero()),
            rat_wf(r@),
            mid_bounded(r@),
    {
        proof {
            lemma_mass_scale_positive(*unit);
        }
        value.affine_to(unit.scale(), Rational::zero())
    }

    fn from_grams(grams: Rational, unit: &MassUnit) -> (r: Rational)
        requires
            rat_wf(grams@),
            mid_bounded(grams@),
        ensures
            r@ == crate::rational::affine_from(grams@, mass_scale(*unit), rat_zero()),
            rat_wf(r@),
    {
        proof {
            lemma_mass_scale_positive(*unit);
        }
        grams.affine_from(unit.scale(), Rational::zero())
    }

    /// Converts `value` from one mass unit to another, both given as
    /// aliases. Succeeds exactly when both aliases name mass units.
    pub fn convert(&self, value: Rational, from: &str, to: &str) -> (r: Result<
        Rational,
        ConvertError,
    >)
        requires
            value.wf(),
            value.bounded(),
        ensures
            (match r {
                Ok(out) => mass_unit_of(seq_lower(from@)) matches Some(fu) && mass_unit_of(
                    seq_lower(to@),
                ) matches Some(tu) && out@ == spec_mass_convert(value@, fu, tu) && rat_wf(out@),
                Err(e) => (match e {
                    ConvertError::InvalidUnit(t) => (mass_unit_of(seq_lower(from@)) is None && t@
                        == from@) || (mass_unit_of(seq_lower(from@)) is Some && mass_unit_of(
                        seq_lower(to@),
                    ) is None && t@ == to@),
                    _ => false,
                }),
            }),
    {
        let from_unit = match MassUnit::from_str(from) {
            Ok(u) => u,
            Err(e) => return Err(e),
        };
        let to_unit = match MassUnit::from_str(to) {
            Ok(u) => u,
            Err(e) => return Err(e),
        };
        let grams = Self::to_grams(value, &from_unit);
        Ok(Self::from_grams(grams, &to_unit))
    }

    /// All mass unit symbols, sorted lexicographically.
    pub fn supported_units(&self) -> (r: Vec<String>)
        ensures
            r@.len() == 5,
            r@[0]@ == "g"@,
            r@[1]@ == "kg"@,
            r@[2]@ == "lb"@,
            r@[3]@ == "oz"@,
            r@[4]@ == "st"@,
    {
        let mut units: Vec<String> = Vec::new();
        units.push(("g").to_owned());
        units.push(("kg").to_owned());
        units.push(("lb").to_owned());
        units.push(("oz").to_owned());
        units.push(("st").to_owned());
        units
    }
}

/// Converting a mass to a unit and back returns the original value
/// exactly.
pub proof fn lemma_mass_round_trip(v: Rat, u1: MassUnit, u2: MassUnit)
    requires
        rat_wf(v),
    ensures
        rat_eq(spec_mass_convert(spec_mass_convert(v, u1, u2), u2, u1), v),
{
    lemma_mass_scale_positive(u1);
    lemma_mass_scale_positive(u2);
    lemma_affine_convert_round_trip(v, mass_scale(u1), rat_zero(), mass_scale(u2), rat_zero());
}

/// Converting a mass from a unit to the same unit returns the value
/// exactly.
pub proof fn lemma_mass_identity(v: Rat, u: MassUnit)
    requires
        rat_wf(v),
    ensures
        rat_eq(spec_mass_convert(v, u, u), v),
{
    lemma_mass_scale_positive(u);
    lemma_affine_convert_identity(v, mass_scale(u), rat_zero());
}

/// Converting a mass through an intermediate unit agrees with converting
/// directly: every path goes through the gram.
pub proof fn lemma_mass_consistency(v: Rat, u1: MassUnit, u2: MassUnit, u3: MassUnit)
    requires
        rat_wf(v),
    ensures
        rat_eq(
            spec_mass_convert(spec_mass_convert(v, u1, u2), u2, u3),
            spec_mass_convert(v, u1, u3),
        ),
{
    lemma_mass_scale_positive(u1);
    lemma_mass_scale_positive(u2);
    lemma_mass_scale_positive(u3);
    lemma_affine_convert_chain(
        v,
        mass_scale(u1),
        rat_zero(),
        mass_scale(u2),
        rat_zero(),
        mass_scale(u3),
        rat_zero(),
    );
}

} // verus!
