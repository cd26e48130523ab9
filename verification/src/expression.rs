//! The free-text expression parser: `<value><unit> -> <unit>`, where the
//! separator is an arrow or the word `to`/`TO`/`To` standing alone
//! between whitespace. The left segment splits at its first letter into a
//! numeric prefix and a unit text; both unit texts are lower-cased. A
//! parse never converts: unknown unit texts fail the parse, with a
//! closest-alias suggestion (by Levenshtein distance, threshold two)
//! where one exists.

use vstd::prelude::*;

use crate::convert::known_unit;
use crate::distance::DistanceUnit;
use crate::error::ConvertError;
use crate::mass::MassUnit;
use crate::number::{accepted_number, decimal_den, decimal_num};
use crate::rational::{Rat, Rational};
use crate::temperature::TemperatureUnit;
use crate::text::{
    is_alpha_char, is_space_char, lower_model, seq_lower, to_lower, trim, trim_seq,
    lemma_seq_lower_of_model,
};

verus! {

/// A parsed conversion expression: an exact value and the two lower-cased
/// unit texts, not yet resolved to units.
#[derive(Debug)]
pub struct ParsedExpression {
    pub value: Rational,
    pub from: String,
    pub to: String,
}

/// An arrow separator starts at `i`.
pub open spec fn is_arrow_at(s: Seq<char>, i: int) -> bool {
    0 <= i && i + 2 <= s.len() && s[i] == '-' && s[i + 1] == '>'
}

/// A word separator (`to`, `TO` or `To`) starts at `i`, standing alone
/// between whitespace.
pub open spec fn is_word_sep_at(s: Seq<char>, i: int) -> bool {
    &&& 0 < i
    &&& i + 2 < s.len()
    &&& ((s[i] == 't' && s[i + 1] == 'o') || (s[i] == 'T' && s[i + 1] == 'O') || (s[i] == 'T'
        && s[i + 1] == 'o'))
    &&& is_space_char(s[i - 1])
    &&& is_space_char(s[i + 2])
}

/// A separator starts at `i`.
pub open spec fn is_sep_at(s: Seq<char>, i: int) -> bool {
    is_arrow_at(s, i) || is_word_sep_at(s, i)
}

/// The position of the first separator at or after `i`, if any.
pub open spec fn find_sep(s: Seq<char>, i: int) -> Option<int>
    decreases s.len() - i,
{
    if i < 0 || i + 2 > s.len() {
        None
    } else if is_sep_at(s, i) {
        Some(i)
    } else {
        find_sep(s, i + 1)
    }
}

/// The position of the first ASCII letter at or after `i`, if any.
pub open spec fn find_alpha(s: Seq<char>, i: int) -> Option<int>
    decreases s.len() - i,
{
    if i < 0 || i >= s.len() {
        None
    } else if is_alpha_char(s[i]) {
        Some(i)
    } else {
        find_alpha(s, i + 1)
    }
}

/// The least of three numbers.
pub open spec fn min3(a: nat, b: nat, c: nat) -> nat {
    if a <= b && a <= c {
        a
    } else if b <= c {
        b
    } else {
        c
    }
}

/// The Levenshtein edit distance: the least number of character
/// insertions, deletions and substitutions taking one sequence to the
/// other.
pub open spec fn levenshtein(a: Seq<char>, b: Seq<char>) -> nat
    decreases a.len() + b.len(),
{
    if a.len() == 0 {
        b.len()
    } else if b.len() == 0 {
        a.len()
    } else {
        let d: nat = if a[0] == b[0] {
            0
        } else {
            1
        };
        min3(
            (levenshtein(a.drop_first(), b) + 1) as nat,
            (levenshtein(a, b.drop_first()) + 1) as nat,
            (levenshtein(a.drop_first(), b.drop_first()) + d) as nat,
        )
    }
}

/// Relies on `strsim::levenshtein`: the Levenshtein distance over the
/// two strings' characters, which is what the recurrence `levenshtein`
/// states.
#[verifier::external_body]
fn edit_distance(a: &str, b: &str) -> (r: usize)
    ensures
        r as nat == levenshtein(a@, b@),
{
    strsim::levenshtein(a, b)
}

fn sep_at(s: &str, i: usize) -> (r: bool)
    requires
        i + 2 <= s@.len() <= usize::MAX,
    ensures
        r == is_sep_at(s@, i as int),
{
    let c1 = s.get_char(i);
    let c2 = s.get_char(i + 1);
    if c1 == '-' && c2 == '>' {
        return true;
    }
    let word = (c1 == 't' && c2 == 'o') || (c1 == 'T' && c2 == 'O') || (c1 == 'T' && c2 == 'o');
    if !word || i == 0 {
        return false;
    }
    let len = s.unicode_len();
    if i + 2 >= len {
        return false;
    }
    let before = s.get_char(i - 1);
    let after = s.get_char(i + 2);
    crate::text::is_space_exec(before) && crate::text::is_space_exec(after)
}

fn find_sep_exec(s: &str, start: usize) -> (r: Option<usize>)
    ensures
        (match r {
            Some(i) => find_sep(s@, start as int) == Some(i as int) && start <= i && i + 2
                <= s@.len(),
            None => find_sep(s@, start as int) is None,
        }),
{
    let len = s.unicode_len();
    if len < 2 || start > len - 2 {
        return None;
    }
    let mut i: usize = start;
    while i <= len - 2
        invariant
            start <= i,
            len == s@.len(),
            2 <= len,
            i <= len - 1,
            find_sep(s@, start as int) == find_sep(s@, i as int),
        decreases len - i,
    {
        if sep_at(s, i) {
            return Some(i);
        }
        i += 1;
    }
    None
}

fn find_alpha_exec(s: &str) -> (r: Option<usize>)
    ensures
        (match r {
            Some(a) => find_alpha(s@, 0) == Some(a as int) && a < s@.len(),
            None => find_alpha(s@, 0) is None,
        }),
{
    let len = s.unicode_len();
    let mut i: usize = 0;
    while i < len
        invariant
            0 <= i <= len,
            len == s@.len(),
            find_alpha(s@, 0) == find_alpha(s@, i as int),
        decreases len - i,
    {
        if crate::text::is_alpha_exec(s.get_char(i)) {
            return Some(i);
        }
        i += 1;
    }
    None
}

/// Every accepted unit alias, across all categories.
pub fn get_all_unit_strings() -> (r: Vec<String>)
    ensures
        r@.len() == 50,
        r@[0]@ == "m"@,
        r@[1]@ == "meter"@,
        r@[2]@ == "metre"@,
        r@[3]@ == "meters"@,
        r@[4]@ == "metres"@,
        r@[5]@ == "km"@,
        r@[6]@ == "kilometer"@,
        r@[7]@ == "kilometre"@,
        r@[8]@ == "kilometers"@,
        r@[9]@ == "kilometres"@,
        r@[10]@ == "ft"@,
        r@[11]@ == "foot"@,
        r@[12]@ == "feet"@,
        r@[13]@ == "mi"@,
        r@[14]@ == "mile"@,
        r@[15]@ == "miles"@,
        r@[16]@ == "in"@,
        r@[17]@ == "inch"@,
        r@[18]@ == "inches"@,
        r@[19]@ == "cm"@,
        r@[20]@ == "centimeter"@,
        r@[21]@ == "centimeters"@,
        r@[22]@ == "centimetre"@,
        r@[23]@ == "centimetres"@,
        r@[24]@ == "mm"@,
        r@[25]@ == "millimeter"@,
        r@[26]@ == "millimeters"@,
        r@[27]@ == "millimetre"@,
        r@[28]@ == "millimetres"@,
        r@[29]@ == "kg"@,
        r@[30]@ == "kilogram"@,
        r@[31]@ == "kilograms"@,
        r@[32]@ == "lb"@,
        r@[33]@ == "pound"@,
        r@[34]@ == "pounds"@,
        r@[35]@ == "st"@,
        r@[36]@ == "stone"@,
        r@[37]@ == "stones"@,
        r@[38]@ == "oz"@,
        r@[39]@ == "ounce"@,
        r@[40]@ == "ounces"@,
        r@[41]@ == "g"@,
        r@[42]@ == "gram"@,
        r@[43]@ == "grams"@,
        r@[44]@ == "c"@,
        r@[45]@ == "celsius"@,
        r@[46]@ == "f"@,
        r@[47]@ == "fahrenheit"@,
        r@[48]@ == "k"@,
        r@[49]@ == "kelvin"@,
{
    let mut units: Vec<String> = Vec::new();
    units.push(("m").to_owned());
    units.push(("meter").to_owned());
    units.push(("metre").to_owned());
    units.push(("meters").to_owned());
    units.push(("metres").to_owned());
    units.push(("km").to_owned());
    units.push(("kilometer").to_owned());
    units.push(("kilometre").to_owned());
    units.push(("kilometers").to_owned());
    units.push(("kilometres").to_owned());
    units.push(("ft").to_owned());
    units.push(("foot").to_owned());
    units.push(("feet").to_owned());
    units.push(("mi").to_owned());
    units.push(("mile").to_owned());
    units.push(("miles").to_owned());
    units.push(("in").to_owned());
    units.push(("inch").to_owned());
    units.push(("inches").to_owned());
    units.push(("cm").to_owned());
    units.push(("centimeter").to_owned());
    units.push(("centimeters").to_owned());
    units.push(("centimetre").to_owned());
    units.push(("centimetres").to_owned());
    units.push(("mm").to_owned());
    units.push(("millimeter").to_owned());
    units.push(("millimeters").to_owned());
    units.push(("millimetre").to_owned());
    units.push(("millimetres").to_owned());
    units.push(("kg").to_owned());
    units.push(("kilogram").to_owned());
    units.push(("kilograms").to_owned());
    units.push(("lb").to_owned());
    units.push(("pound").to_owned());
    units.push(("pounds").to_owned());
    units.push(("st").to_owned());
    units.push(("stone").to_owned());
    units.push(("stones").to_owned());
    units.push(("oz").to_owned());
    units.push(("ounce").to_owned());
    units.push(("ounces").to_owned());
    units.push(("g").to_owned());
    units.push(("gram").to_owned());
    units.push(("grams").to_owned());
    units.push(("c").to_owned());
    units.push(("celsius").to_owned());
    units.push(("f").to_owned());
    units.push(("fahrenheit").to_owned());
    units.push(("k").to_owned());
    units.push(("kelvin").to_owned());
    units
}

/// The accepted alias closest to `input` by Levenshtein distance, if the
/// closest comes within distance two. Among equally close aliases the
/// first in the list wins.
pub fn suggest_unit(input: &str, valid_units: &Vec<String>) -> (r: Option<String>)
    ensures
        (match r {
            Some(sug) => {
                &&& exists|i: int|
                    0 <= i < valid_units@.len() && sug@ == valid_units@[i]@ && (forall|m: int|
                        0 <= m < i ==> levenshtein(input@, valid_units@[m]@) > levenshtein(
                            input@,
                            sug@,
                        ))
                &&& levenshtein(input@, sug@) <= 2
                &&& forall|j: int|
                    0 <= j < valid_units@.len() ==> levenshtein(input@, sug@) <= levenshtein(
                        input@,
                        valid_units@[j]@,
                    )
            },
            None => forall|j: int|
                0 <= j < valid_units@.len() ==> levenshtein(input@, valid_units@[j]@) > 2,
        }),
{
    let mut best_index: usize = 0;
    let mut best_dist: usize = 0;
    let mut found = false;
    let mut j: usize = 0;
    while j < valid_units.len()
        invariant
            0 <= j <= valid_units@.len(),
            found ==> best_index < j && best_dist as nat == levenshtein(
                input@,
                valid_units@[best_index as int]@,
            ) && (forall|m: int|
                0 <= m < j ==> best_dist as nat <= levenshtein(input@, valid_units@[m]@)) && (
            forall|m: int|
                0 <= m < best_index ==> levenshtein(input@, valid_units@[m]@) > best_dist as nat),
            !found ==> j == 0,
        decreases valid_units@.len() - j,
    {
        let d = edit_distance(input, valid_units[j].as_str());
        if !found || d < best_dist {
            best_index = j;
            best_dist = d;
            found = true;
        }
        j += 1;
    }
    if found && best_dist <= 2 {
        Some(valid_units[best_index].clone())
    } else {
        None
    }
}

/// Splits the left segment of an expression at its first letter into an
/// exact numeric value and a unit text.
fn parse_value_and_unit(input: &str) -> (r: Result<(Rational, String), ConvertError>)
    ensures
        (match r {
            Ok(p) => find_alpha(input@, 0) matches Some(a) && {
                let vtext = trim_seq(input@.take(a));
                &&& accepted_number(vtext)
                &&& p.0.wf()
                &&& p.0.bounded()
                &&& p.0@ == (Rat { num: decimal_num(vtext), den: decimal_den(vtext) })
                &&& p.1@ == trim_seq(input@.skip(a))
            },
            Err(e) => e matches ConvertError::ParseError(d) && ((find_alpha(input@, 0) is None
                && d@ == "Missing unit in expression"@) || (find_alpha(input@, 0) matches Some(a)
                && !accepted_number(trim_seq(input@.take(a))) && d@ == "Invalid number"@)),
        }),
{
    let len = input.unicode_len();
    let a = match find_alpha_exec(input) {
        Some(a) => a,
        None => {
            return Err(ConvertError::ParseError(("Missing unit in expression").to_owned()));
        },
    };
    let value_str = trim(input.substring_char(0, a));
    let unit_str = trim(input.substring_char(a, len));
    let value = match Rational::parse_number(value_str) {
        Some(q) => q,
        None => {
            return Err(ConvertError::ParseError(("Invalid number").to_owned()));
        },
    };
    Ok((value, unit_str.to_owned()))
}

fn known_unit_exec(s: &str) -> (r: bool)
    ensures
        r == known_unit(seq_lower(s@)),
{
    if DistanceUnit::from_str(s).is_ok() {
        true
    } else if MassUnit::from_str(s).is_ok() {
        true
    } else {
        TemperatureUnit::from_str(s).is_ok()
    }
}

/// Parses `<value><unit> (-> | to | TO | To) <unit>` into a value and
/// two lower-cased unit texts. Fails on anything else: no separator or
/// more than one, no letter in the left segment, a numeric prefix that is
/// not a decimal literal, or a unit text that no category knows — the
/// last with a closest-alias suggestion where one comes within edit
/// distance two. Parsing never auto-corrects: a suggestion still fails
/// the parse.
pub fn parse_expression(expr: &str) -> (r: Result<ParsedExpression, ConvertError>)
    ensures
        (match find_sep(expr@, 0) {
            None => r matches Err(e) && e matches ConvertError::ParseError(d) && d@
                == "Invalid expression. Use format like: 10C -> F"@,
            Some(i) => {
                if find_sep(expr@, i + 2) is Some {
                    r matches Err(e) && e matches ConvertError::ParseError(d) && d@
                        == "Invalid expression. Use format like: 10C -> F"@
                } else {
                    let left = trim_seq(expr@.take(i));
                    let right = trim_seq(expr@.skip(i + 2));
                    match find_alpha(left, 0) {
                        None => r matches Err(e) && e matches ConvertError::ParseError(d) && d@
                            == "Missing unit in expression"@,
                        Some(a) => {
                            let vtext = trim_seq(left.take(a));
                            let from_text = trim_seq(left.skip(a));
                            if !accepted_number(vtext) {
                                r matches Err(e) && e matches ConvertError::ParseError(d) && d@
                                    == "Invalid number"@
                            } else if known_unit(seq_lower(from_text)) && known_unit(
                                seq_lower(right),
                            ) {
                                r matches Ok(p) && p.value.wf() && p.value.bounded() && p.value@
                                    == (Rat {
                                    num: decimal_num(vtext),
                                    den: decimal_den(vtext),
                                }) && p.from@ == lower_model(from_text) && p.to@ == lower_model(
                                    right,
                                )
                            } else {
                                r matches Err(e) && e matches ConvertError::ParseError(_)
                            }
                        },
                    }
                }
            },
        }),
{
    let len = expr.unicode_len();
    let i = match find_sep_exec(expr, 0) {
        Some(i) => i,
        None => {
            return Err(
                ConvertError::ParseError(("Invalid expression. Use format like: 10C -> F").to_owned()),
            );
        },
    };
    if find_sep_exec(expr, i + 2).is_some() {
        return Err(
            ConvertError::ParseError(("Invalid expression. Use format like: 10C -> F").to_owned()),
        );
    }
    let left = trim(expr.substring_char(0, i));
    let right_str = trim(expr.substring_char(i + 2, len));
    let parsed = match parse_value_and_unit(left) {
        Ok(p) => p,
        Err(e) => {
            return Err(e);
        },
    };
    let value = parsed.0;
    let from = to_lower(parsed.1.as_str());
    let to = to_lower(right_str);
    proof {
        lemma_seq_lower_of_model(parsed.1@);
        lemma_seq_lower_of_model(right_str@);
    }
    let from_known = known_unit_exec(from.as_str());
    let to_known = known_unit_exec(to.as_str());
    if from_known && to_known {
        return Ok(ParsedExpression { value, from, to });
    }
    let valid_units = get_all_unit_strings();
    let mut msg = String::new();
    if !from_known {
        msg.append("Unknown unit '");
        msg.append(from.as_str());
        msg.append("'.");
        match suggest_unit(from.as_str(), &valid_units) {
            Some(sug) => {
                msg.append(" Did you mean '");
                msg.append(sug.as_str());
                msg.append("'?");
            },
            None => {},
        }
    }
    if !to_known {
        if !from_known {
            msg.append("\n");
        }
        msg.append("Unknown unit '");
        msg.append(to.as_str());
        msg.append("'.");
        match suggest_unit(to.as_str(), &valid_units) {
            Some(sug) => {
                msg.append(" Did you mean '");
                msg.append(sug.as_str());
                msg.append("'?");
            },
            None => {},
        }
    }
    Err(ConvertError::ParseError(msg))
}

} // verus!
