//! The converter resolver: given two unit aliases, picks the category
//! converter that accepts both, trying distance, then mass, then
//! temperature. The categories' alias sets are disjoint (proved below),
//! so at most one category ever accepts a given alias.

use vstd::prelude::*;

use crate::distance::{distance_unit_of, distance_symbol, DistanceConverter, DistanceUnit};
use crate::error::ConvertError;
use crate::mass::{mass_unit_of, mass_symbol, MassConverter, MassUnit};
use crate::rational::{rat_wf, Rational};
use crate::temperature::{
    temperature_unit_of, temperature_symbol, TemperatureConverter, TemperatureUnit,
};
use crate::text::seq_lower;

verus! {

/// Whether a lower-cased alias names a unit of any category.
pub open spec fn known_unit(l: Seq<char>) -> bool {
    distance_unit_of(l) is Some || mass_unit_of(l) is Some || temperature_unit_of(l) is Some
}

/// Whether one category accepts both lower-cased aliases.
pub open spec fn spec_resolves(lf: Seq<char>, lt: Seq<char>) -> bool {
    (distance_unit_of(lf) is Some && distance_unit_of(lt) is Some) || (mass_unit_of(lf) is Some
        && mass_unit_of(lt) is Some) || (temperature_unit_of(lf) is Some && temperature_unit_of(
        lt,
    ) is Some)
}

/// The converter of whichever category the resolver picked.
#[derive(Debug)]
pub enum AnyConverter {
    Distance(DistanceConverter),
    Mass(MassConverter),
    Temperature(TemperatureConverter),
}

/// Picks the category converter that accepts both unit aliases, trying
/// distance, then mass, then temperature. A text that names no unit in
/// any category fails as an invalid unit (the source text first); two
/// known units that share no category fail as an unsupported conversion.
pub fn get_converter(from: &str, to: &str) -> (r: Result<AnyConverter, ConvertError>)
    ensures
        ({
            let lf = seq_lower(from@);
            let lt = seq_lower(to@);
            match r {
                Ok(c) => (match c {
                    AnyConverter::Distance(_) => distance_unit_of(lf) is Some && distance_unit_of(
                        lt,
                    ) is Some,
                    AnyConverter::Mass(_) => !(distance_unit_of(lf) is Some && distance_unit_of(
                        lt,
                    ) is Some) && mass_unit_of(lf) is Some && mass_unit_of(lt) is Some,
                    AnyConverter::Temperature(_) => !(distance_unit_of(lf) is Some
                        && distance_unit_of(lt) is Some) && !(mass_unit_of(lf) is Some
                        && mass_unit_of(lt) is Some) && temperature_unit_of(lf) is Some
                        && temperature_unit_of(lt) is Some,
                }),
                Err(e) => !spec_resolves(lf, lt) && (match e {
                    ConvertError::InvalidUnit(t) => (!known_unit(lf) && t@ == from@) || (known_unit(
                        lf,
                    ) && !known_unit(lt) && t@ == to@),
                    ConvertError::UnsupportedConversion(f, t) => known_unit(lf) && known_unit(lt)
                        && f@ == from@ && t@ == to@,
                    _ => false,
                }),
            }
        }),
{
    let from_distance = DistanceUnit::from_str(from).is_ok();
    let to_distance = DistanceUnit::from_str(to).is_ok();
    let from_mass = MassUnit::from_str(from).is_ok();
    let to_mass = MassUnit::from_str(to).is_ok();
    let from_temperature = TemperatureUnit::from_str(from).is_ok();
    let to_temperature = TemperatureUnit::from_str(to).is_ok();
    if from_distance && to_distance {
        Ok(AnyConverter::Distance(DistanceConverter))
    } else if from_mass && to_mass {
        Ok(AnyConverter::Mass(MassConverter))
    } else if from_temperature && to_temperature {
        Ok(AnyConverter::Temperature(TemperatureConverter))
    } else if !from_distance && !from_mass && !from_temperature {
        Err(ConvertError::InvalidUnit(from.to_owned()))
    } else if !to_distance && !to_mass && !to_temperature {
        Err(ConvertError::InvalidUnit(to.to_owned()))
    } else {
        Err(ConvertError::UnsupportedConversion(from.to_owned(), to.to_owned()))
    }
}

impl AnyConverter {
    /// Converts `value` between the two unit aliases with the resolved
    /// category's converter.
    pub fn convert(&self, value: Rational, from: &str, to: &str) -> (r: Result<
        Rational,
        ConvertError,
    >)
        requires
            value.wf(),
            value.bounded(),
        ensures
            ({
                let lf = seq_lower(from@);
                let lt = seq_lower(to@);
                match self {
                    AnyConverter::Distance(_) => (match r {
                        Ok(out) => distance_unit_of(lf) matches Some(fu) && distance_unit_of(
                            lt,
                        ) matches Some(tu) && out@ == crate::distance::spec_distance_convert(
                            value@,
                            fu,
                            tu,
                        ) && rat_wf(out@),
                        Err(e) => (match e {
                            ConvertError::InvalidUnit(t) => (distance_unit_of(lf) is None && t@
                                == from@) || (distance_unit_of(lf) is Some && distance_unit_of(
                                lt,
                            ) is None && t@ == to@),
                            _ => false,
                        }),
                    }),
                    AnyConverter::Mass(_) => (match r {
                        Ok(out) => mass_unit_of(lf) matches Some(fu) && mass_unit_of(
                            lt,
                        ) matches Some(tu) && out@ == crate::mass::spec_mass_convert(
                            value@,
                            fu,
                            tu,
                        ) && rat_wf(out@),
                        Err(e) => (match e {
                            ConvertError::InvalidUnit(t) => (mass_unit_of(lf) is None && t@
                                == from@) || (mass_unit_of(lf) is Some && mass_unit_of(lt) is None
                                && t@ == to@),
                            _ => false,
                        }),
                    }),
                    AnyConverter::Temperature(_) => (match r {
                        Ok(out) => temperature_unit_of(lf) matches Some(fu) && temperature_unit_of(
                            lt,
                        ) matches Some(tu) && out@ == crate::temperature::spec_temperature_convert(
                            value@,
                            fu,
                            tu,
                        ) && rat_wf(out@),
                        Err(e) => (match e {
                            ConvertError::InvalidUnit(t) => (temperature_unit_of(lf) is None && t@
                                == from@) || (temperature_unit_of(lf) is Some
                                && temperature_unit_of(lt) is None && t@ == to@),
                            _ => false,
                        }),
                    }),
                }
            }),
    {
        match self {
            AnyConverter::Distance(c) => c.convert(value, from, to),
            AnyConverter::Mass(c) => c.convert(value, from, to),
            AnyConverter::Temperature(c) => c.convert(value, from, to),
        }
    }

    /// The resolved category's unit symbols, sorted lexicographically.
    pub fn supported_units(&self) -> (r: Vec<String>)
        ensures
            (match self {
                AnyConverter::Distance(_) => r@.len() == 7 && r@[0]@ == "cm"@ && r@[1]@ == "ft"@
                    && r@[2]@ == "in"@ && r@[3]@ == "km"@ && r@[4]@ == "m"@ && r@[5]@ == "mi"@
                    && r@[6]@ == "mm"@,
                AnyConverter::Mass(_) => r@.len() == 5 && r@[0]@ == "g"@ && r@[1]@ == "kg"@
                    && r@[2]@ == "lb"@ && r@[3]@ == "oz"@ && r@[4]@ == "st"@,
                AnyConverter::Temperature(_) => r@.len() == 3 && r@[0]@ == "°C"@ && r@[1]@ == "°F"@
                    && r@[2]@ == "°K"@,
            }),
    {
        match self {
            AnyConverter::Distance(c) => c.supported_units(),
            AnyConverter::Mass(c) => c.supported_units(),
            AnyConverter::Temperature(c) => c.supported_units(),
        }
    }

    /// The resolved category's display symbol for a unit alias; text the
    /// category does not know comes back unchanged.
    pub fn get_unit_string(&self, unit_str: &str) -> (r: String)
        ensures
            ({
                let l = seq_lower(unit_str@);
                match self {
                    AnyConverter::Distance(_) => (match distance_unit_of(l) {
                        Some(u) => r@ == distance_symbol(u),
                        None => r@ == unit_str@,
                    }),
                    AnyConverter::Mass(_) => (match mass_unit_of(l) {
                        Some(u) => r@ == mass_symbol(u),
                        None => r@ == unit_str@,
                    }),
                    AnyConverter::Temperature(_) => (match temperature_unit_of(l) {
                        Some(u) => r@ == temperature_symbol(u),
                        None => r@ == unit_str@,
                    }),
                }
            }),
    {
        match self {
            AnyConverter::Distance(c) => c.get_unit_string(unit_str),
            AnyConverter::Mass(c) => c.get_unit_string(unit_str),
            AnyConverter::Temperature(c) => c.get_unit_string(unit_str),
        }
    }
}

/// The categories' alias sets are disjoint: no text names units in two
/// categories, so which converter the resolver picks never depends on
/// the order the categories are tried in, and a conversion can never
/// silently cross categories.
#[verifier::rlimit(100)]
pub proof fn lemma_categories_disjoint(l: Seq<char>)
    ensures
        !(distance_unit_of(l) is Some && mass_unit_of(l) is Some),
        !(distance_unit_of(l) is Some && temperature_unit_of(l) is Some),
        !(mass_unit_of(l) is Some && temperature_unit_of(l) is Some),
{
    broadcast use vstd::string::group_string_axioms;

    reveal_strlit("m");
    reveal_strlit("meter");
    reveal_strlit("metre");
    reveal_strlit("meters");
    reveal_strlit("metres");
    reveal_strlit("km");
    reveal_strlit("kilometer");
    reveal_strlit("kilometre");
    reveal_strlit("kilometers");
    reveal_strlit("kilometres");
    reveal_strlit("ft");
    reveal_strlit("foot");
    reveal_strlit("feet");
    reveal_strlit("mi");
    reveal_strlit("mile");
    reveal_strlit("miles");
    reveal_strlit("in");
    reveal_strlit("inch");
    reveal_strlit("inches");
    reveal_strlit("cm");
    reveal_strlit("centimeter");
    reveal_strlit("centimeters");
    reveal_strlit("centimetre");
    reveal_strlit("centimetres");
    reveal_strlit("mm");
    reveal_strlit("millimeter");
    reveal_strlit("millimeters");
    reveal_strlit("millimetre");
    reveal_strlit("millimetres");
    reveal_strlit("kg");
    reveal_strlit("kilogram");
    reveal_strlit("kilograms");
    reveal_strlit("lb");
    reveal_strlit("pound");
    reveal_strlit("pounds");
    reveal_strlit("st");
    reveal_strlit("stone");
    reveal_strlit("stones");
    reveal_strlit("oz");
    reveal_strlit("ounce");
    reveal_strlit("ounces");
    reveal_strlit("g");
    reveal_strlit("gram");
    reveal_strlit("grams");
    reveal_strlit("c");
    reveal_strlit("celsius");
    reveal_strlit("f");
    reveal_strlit("fahrenheit");
    reveal_strlit("k");
    reveal_strlit("kelvin");
    assert("m"@.len() == 1 && "m"@[0] == 'm');
    assert("meter"@.len() == 5 && "meter"@[0] == 'm');
    assert("metre"@.len() == 5 && "metre"@[0] == 'm');
    assert("meters"@.len() == 6 && "meters"@[0] == 'm');
    assert("metres"@.len() == 6 && "metres"@[0] == 'm');
    assert("km"@.len() == 2 && "km"@[0] == 'k');
    assert("kilometer"@.len() == 9 && "kilometer"@[0] == 'k');
    assert("kilometre"@.len() == 9 && "kilometre"@[0] == 'k');
    assert("kilometers"@.len() == 10 && "kilometers"@[0] == 'k');
    assert("kilometres"@.len() == 10 && "kilometres"@[0] == 'k');
    assert("ft"@.len() == 2 && "ft"@[0] == 'f');
    assert("foot"@.len() == 4 && "foot"@[0] == 'f');
    assert("feet"@.len() == 4 && "feet"@[0] == 'f');
    assert("mi"@.len() == 2 && "mi"@[0] == 'm');
    assert("mile"@.len() == 4 && "mile"@[0] == 'm');
    assert("miles"@.len() == 5 && "miles"@[0] == 'm');
    assert("in"@.len() == 2 && "in"@[0] == 'i');
    assert("inch"@.len() == 4 && "inch"@[0] == 'i');
    assert("inches"@.len() == 6 && "inches"@[0] == 'i');
    assert("cm"@.len() == 2 && "cm"@[0] == 'c');
    assert("centimeter"@.len() == 10 && "centimeter"@[0] == 'c');
    assert("centimeters"@.len() == 11 && "centimeters"@[0] == 'c');
    assert("centimetre"@.len() == 10 && "centimetre"@[0] == 'c');
    assert("centimetres"@.len() == 11 && "centimetres"@[0] == 'c');
    assert("mm"@.len() == 2 && "mm"@[0] == 'm');
    assert("millimeter"@.len() == 10 && "millimeter"@[0] == 'm');
    assert("millimeters"@.len() == 11 && "millimeters"@[0] == 'm');
    assert("millimetre"@.len() == 10 && "millimetre"@[0] == 'm');
    assert("millimetres"@.len() == 11 && "millimetres"@[0] == 'm');
    assert("kg"@.len() == 2 && "kg"@[0] == 'k');
    assert("kilogram"@.len() == 8 && "kilogram"@[0] == 'k');
    assert("kilograms"@.len() == 9 && "kilograms"@[0] == 'k');
    assert("lb"@.len() == 2 && "lb"@[0] == 'l');
    assert("pound"@.len() == 5 && "pound"@[0] == 'p');
    assert("pounds"@.len() == 6 && "pounds"@[0] == 'p');
    assert("st"@.len() == 2 && "st"@[0] == 's');
    assert("stone"@.len() == 5 && "stone"@[0] == 's');
    assert("stones"@.len() == 6 && "stones"@[0] == 's');
    assert("oz"@.len() == 2 && "oz"@[0] == 'o');
    assert("ounce"@.len() == 5 && "ounce"@[0] == 'o');
    assert("ounces"@.len() == 6 && "ounces"@[0] == 'o');
    assert("g"@.len() == 1 && "g"@[0] == 'g');
    assert("gram"@.len() == 4 && "gram"@[0] == 'g');
    assert("grams"@.len() == 5 && "grams"@[0] == 'g');
    assert("c"@.len() == 1 && "c"@[0] == 'c');
    assert("celsius"@.len() == 7 && "celsius"@[0] == 'c');
    assert("f"@.len() == 1 && "f"@[0] == 'f');
    assert("fahrenheit"@.len() == 10 && "fahrenheit"@[0] == 'f');
    assert("k"@.len() == 1 && "k"@[0] == 'k');
    assert("kelvin"@.len() == 6 && "kelvin"@[0] == 'k');
    assert("kg"@[1] == 'g');
    assert("km"@[1] == 'm');
    assert("kilograms"@[4] == 'g');
    assert("kilometer"@[4] == 'm');
    assert("kilometre"@[4] == 'm');
    assert(distance_unit_of("kg"@) is None);
    assert(distance_unit_of("kilogram"@) is None);
    assert(distance_unit_of("kilograms"@) is None);
    assert(distance_unit_of("lb"@) is None);
    assert(distance_unit_of("pound"@) is None);
    assert(distance_unit_of("pounds"@) is None);
    assert(distance_unit_of("st"@) is None);
    assert(distance_unit_of("stone"@) is None);
    assert(distance_unit_of("stones"@) is None);
    assert(distance_unit_of("oz"@) is None);
    assert(distance_unit_of("ounce"@) is None);
    assert(distance_unit_of("ounces"@) is None);
    assert(distance_unit_of("g"@) is None);
    assert(distance_unit_of("gram"@) is None);
    assert(distance_unit_of("grams"@) is None);
    assert(distance_unit_of("c"@) is None);
    assert(distance_unit_of("celsius"@) is None);
    assert(distance_unit_of("f"@) is None);
    assert(distance_unit_of("fahrenheit"@) is None);
    assert(distance_unit_of("k"@) is None);
    assert(distance_unit_of("kelvin"@) is None);
    assert(mass_unit_of("c"@) is None);
    assert(mass_unit_of("celsius"@) is None);
    assert(mass_unit_of("f"@) is None);
    assert(mass_unit_of("fahrenheit"@) is None);
    assert(mass_unit_of("k"@) is None);
    assert(mass_unit_of("kelvin"@) is None);
}


} // verus!

