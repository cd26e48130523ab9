//! Parsing decimal literals into exact rationals. The accepted grammar
//! is an optional sign, then digits with at most one decimal point and at
//! least one digit in all (`10`, `-2.5`, `.5`, `3.`). A literal of more
//! than eighteen digits is rejected: every accepted value then fits the
//! conversion arithmetic's bounds exactly.

use vstd::prelude::*;

use crate::rational::{Rat, Rational, VAL_LIMIT};
use crate::text::{is_digit_char, digit_val};

verus! {

/// The most digits a numeric literal may carry.
pub const NUMBER_DIGIT_LIMIT: usize = 18;

/// Whether every character is an ASCII digit.
pub open spec fn all_digits(s: Seq<char>) -> bool {
    forall|i: int| 0 <= i < s.len() ==> is_digit_char(s[i])
}

/// The number a digit string denotes, most significant digit first.
pub open spec fn digits_val(s: Seq<char>) -> int
    decreases s.len(),
{
    if s.len() == 0 {
        0
    } else {
        digits_val(s.drop_last()) * 10 + digit_val(s[s.len() - 1])
    }
}

/// Ten to the power `n`.
pub open spec fn pow10(n: nat) -> int
    decreases n,
{
    if n == 0 {
        1
    } else {
        pow10((n - 1) as nat) * 10
    }
}

/// The length of the leading digit run.
pub open spec fn digit_run(u: Seq<char>) -> int
    decreases u.len(),
{
    if u.len() == 0 {
        0
    } else if !is_digit_char(u[0]) {
        0
    } else {
        1 + digit_run(u.drop_first())
    }
}

/// The sign a literal starts with.
pub open spec fn number_sign(s: Seq<char>) -> int {
    if s.len() > 0 && s[0] == '-' {
        -1
    } else {
        1
    }
}

/// The literal without its sign character.
pub open spec fn number_body(s: Seq<char>) -> Seq<char> {
    if s.len() > 0 && (s[0] == '-' || s[0] == '+') {
        s.drop_first()
    } else {
        s
    }
}

/// Whether an unsigned literal is digits with at most one decimal point
/// and at least one digit.
pub open spec fn is_unsigned_decimal(u: Seq<char>) -> bool {
    let k = digit_run(u);
    if k == u.len() {
        k >= 1
    } else {
        u[k] == '.' && all_digits(u.skip(k + 1)) && u.len() >= 2
    }
}

/// All the digits of an unsigned literal, the decimal point dropped.
pub open spec fn unsigned_digits(u: Seq<char>) -> Seq<char> {
    let k = digit_run(u);
    if k == u.len() {
        u
    } else {
        u.take(k) + u.skip(k + 1)
    }
}

/// How many digits stand after the decimal point.
pub open spec fn fraction_len(u: Seq<char>) -> int {
    let k = digit_run(u);
    if k == u.len() {
        0
    } else {
        u.len() - k - 1
    }
}

/// Whether a literal is a well-formed signed decimal.
pub open spec fn is_decimal_string(s: Seq<char>) -> bool {
    is_unsigned_decimal(number_body(s))
}

/// The numerator a decimal literal denotes.
pub open spec fn decimal_num(s: Seq<char>) -> int {
    number_sign(s) * digits_val(unsigned_digits(number_body(s)))
}

/// The denominator a decimal literal denotes: ten to the number of
/// fraction digits.
pub open spec fn decimal_den(s: Seq<char>) -> int {
    pow10(fraction_len(number_body(s)) as nat)
}

/// Whether the parser accepts a literal: well formed and at most
/// eighteen digits in all.
pub open spec fn accepted_number(s: Seq<char>) -> bool {
    is_decimal_string(s) && unsigned_digits(number_body(s)).len() <= NUMBER_DIGIT_LIMIT as int
}

proof fn lemma_pow10_pos(n: nat)
    ensures
        pow10(n) >= 1,
    decreases n,
{
    if n > 0 {
        lemma_pow10_pos((n - 1) as nat);
    }
}

proof fn lemma_pow10_mono(a: nat, b: nat)
    requires
        a <= b,
    ensures
        pow10(a) <= pow10(b),
    decreases b,
{
    if a < b {
        lemma_pow10_mono(a, (b - 1) as nat);
        lemma_pow10_pos((b - 1) as nat);
    }
}

proof fn lemma_pow10_limit()
    ensures
        pow10(18) == 1000000000000000000,
{
    reveal_with_fuel(pow10, 19);
}

/// A digit string's value is nonnegative and below ten to its length.
proof fn lemma_digits_val_bounds(s: Seq<char>)
    requires
        all_digits(s),
    ensures
        0 <= digits_val(s) < pow10(s.len() as nat),
    decreases s.len(),
{
    if s.len() > 0 {
        assert(all_digits(s.drop_last()));
        lemma_digits_val_bounds(s.drop_last());
    }
}

/// The leading digit run is a run of digits ending at a non-digit or the
/// end of the string.
proof fn lemma_digit_run_of(u: Seq<char>, k: int)
    requires
        0 <= k <= u.len(),
        forall|m: int| 0 <= m < k ==> is_digit_char(u[m]),
        k < u.len() ==> !is_digit_char(u[k]),
    ensures
        digit_run(u) == k,
    decreases k,
{
    if k == 0 {
    } else {
        lemma_digit_run_of(u.drop_first(), k - 1);
    }
}

impl Rational {
    /// Parses a signed decimal literal of at most eighteen digits into
    /// the exact rational it denotes. Rejects anything else: other
    /// characters, a second decimal point, a literal with no digit, or
    /// one with too many digits.
    #[verifier::rlimit(50)]
    pub fn parse_number(s: &str) -> (r: Option<Rational>)
        ensures
            (match r {
                Some(q) => accepted_number(s@) && q.wf() && q.bounded() && q@ == (Rat {
                    num: decimal_num(s@),
                    den: decimal_den(s@),
                }),
                None => !accepted_number(s@),
            }),
    {
        let len = s.unicode_len();
        let ghost u = number_body(s@);
        let mut i: usize = 0;
        let mut neg = false;
        if len > 0 {
            let c0 = s.get_char(0);
            if c0 == '-' {
                neg = true;
                i = 1;
            } else if c0 == '+' {
                i = 1;
            }
        }
        proof {
            if i == 1 {
                assert(u =~= s@.skip(1));
            } else {
                assert(u =~= s@);
            }
        }
        let ghost i0 = i as int;
        // The run of integer digits.
        let mut j: usize = i;
        while j < len && is_digit_exec_here(s, j)
            invariant
                i0 <= j <= len,
                len == s@.len(),
                u == s@.skip(i0),
                0 <= i0 <= 1,
                forall|m: int| i0 <= m < j ==> is_digit_char(s@[m]),
            decreases len - j,
        {
            j += 1;
        }
        let ghost k = j - i0;
        proof {
            lemma_digit_run_of(u, k);
        }
        // The structure around the decimal point.
        let mut frac_len: usize = 0;
        if j == len {
            if j == i {
                return None;
            }
        } else if s.get_char(j) == '.' {
            let mut j2: usize = j + 1;
            while j2 < len && is_digit_exec_here(s, j2)
                invariant
                    j + 1 <= j2 <= len,
                    len == s@.len(),
                    u == s@.skip(i0),
                    0 <= i0 <= j,
                    forall|m: int| j + 1 <= m < j2 ==> is_digit_char(s@[m]),
                decreases len - j2,
            {
                j2 += 1;
            }
            if j2 != len {
                proof {
                    assert(u[j2 - i0] == s@[j2 as int]);
                    assert(u.skip(k + 1)[j2 - i0 - (k + 1)] == u[j2 - i0]);
                    assert(!is_unsigned_decimal(u));
                }
                return None;
            }
            if j == i && j2 == j + 1 {
                assert(u.len() < 2);
                return None;
            }
            frac_len = j2 - j - 1;
        } else {
            assert(!is_unsigned_decimal(u));
            return None;
        }
        assert(is_unsigned_decimal(u));
        let ghost digits = unsigned_digits(u);
        proof {
            if k == u.len() {
                assert(digits =~= u);
            }
            assert forall|m3: int| 0 <= m3 < k implies digits[m3] == s@[m3 + i0] by {
                if k < u.len() {
                    assert(digits[m3] == u.take(k)[m3]);
                }
                assert(u[m3] == s@[m3 + i0]);
            }
            assert forall|m3: int| k <= m3 < digits.len() implies digits[m3] == s@[m3 + i0
                + 1] by {
                assert(k < u.len());
                assert(digits[m3] == u.skip(k + 1)[m3 - k]);
                assert(u[m3 + 1] == s@[m3 + 1 + i0]);
            }
            assert forall|m3: int| 0 <= m3 < digits.len() implies is_digit_char(digits[m3]) by {
                if m3 < k {
                    assert(digits[m3] == s@[m3 + i0]);
                } else {
                    assert(digits[m3] == s@[m3 + i0 + 1]);
                }
            }
            assert(all_digits(digits));
        }
        // The digit-count limit.
        let int_len = j - i;
        if int_len + frac_len > NUMBER_DIGIT_LIMIT {
            assert(digits.len() > NUMBER_DIGIT_LIMIT as int);
            return None;
        }
        assert(digits.len() <= NUMBER_DIGIT_LIMIT as int);
        // Accumulate the digits' value.
        let mut acc: i128 = 0;
        let mut m: usize = i;
        while m < j
            invariant
                i <= m <= j,
                i0 == i as int,
                j - i0 == k,
                len == s@.len(),
                j <= len,
                u == s@.skip(i0),
                is_unsigned_decimal(u),
                digits == unsigned_digits(u),
                all_digits(digits),
                digits.len() <= 18,
                k <= digits.len(),
                forall|m2: int| i0 <= m2 < j ==> is_digit_char(s@[m2]),
                forall|m3: int| 0 <= m3 < k ==> digits[m3] == s@[m3 + i0],
                acc == digits_val(digits.take(m - i0)),
                0 <= acc < 1000000000000000000,
            decreases j - m,
        {
            proof {
                assert(digits.take(m + 1 - i0).drop_last() =~= digits.take(m - i0));
                assert(digits[m - i0] == s@[m as int]);
                assert(all_digits(digits.take(m + 1 - i0)));
                lemma_digits_val_bounds(digits.take(m + 1 - i0));
                lemma_pow10_mono((m + 1 - i0) as nat, 18);
                lemma_pow10_limit();
            }
            let d = s.get_char(m) as u32;
            acc = acc * 10 + ((d - 48) as i128);
            m += 1;
        }
        // Then the fraction digits, building the denominator alongside.
        let mut den: i128 = 1;
        if frac_len > 0 {
            let mut m2: usize = j + 1;
            proof {
                assert(digits.take(k) =~= digits.take(j - i0));
            }
            while m2 < len
                invariant
                    j + 1 <= m2 <= len,
                    i0 == i as int,
                    i <= j,
                    j - i0 == k,
                    len == s@.len(),
                    u == s@.skip(i0),
                    is_unsigned_decimal(u),
                    digits == unsigned_digits(u),
                    all_digits(digits),
                    digits.len() <= 18,
                    k < digits.len(),
                    digits.len() == k + (len - j - 1),
                    forall|m3: int| j + 1 <= m3 < len ==> is_digit_char(s@[m3]),
                    forall|m3: int| k <= m3 < digits.len() ==> digits[m3] == s@[m3 + i0 + 1],
                    acc == digits_val(digits.take(m2 - i0 - 1)),
                    0 <= acc < 1000000000000000000,
                    den == pow10((m2 - j - 1) as nat),
                    1 <= den <= 1000000000000000000,
                decreases len - m2,
            {
                proof {
                    assert(m2 - i0 <= digits.len());
                    assert(digits.take(m2 - i0).drop_last() =~= digits.take(m2 - i0 - 1));
                    assert(digits[m2 - i0 - 1] == s@[(m2 - i0 - 1) + i0 + 1]);
                    assert(digits[m2 - i0 - 1] == s@[m2 as int]);
                    assert(all_digits(digits.take(m2 - i0)));
                    lemma_digits_val_bounds(digits.take(m2 - i0));
                    lemma_pow10_mono((m2 - i0) as nat, 18);
                    lemma_pow10_mono((m2 - j) as nat, 18);
                    lemma_pow10_limit();
                }
                let d = s.get_char(m2) as u32;
                acc = acc * 10 + ((d - 48) as i128);
                den = den * 10;
                m2 += 1;
            }
            proof {
                assert(digits.take(len - i0 - 1) =~= digits);
            }
        } else {
            proof {
                assert(digits.take(j - i0) =~= digits);
                if k < u.len() {
                    assert(fraction_len(u) == 0);
                }
            }
        }
        assert(acc == digits_val(digits));
        assert(den == pow10(fraction_len(u) as nat));
        proof {
            lemma_pow10_limit();
            lemma_pow10_mono(fraction_len(u) as nat, 18);
        }
        let num = if neg {
            -acc
        } else {
            acc
        };
        assert(-VAL_LIMIT <= num <= VAL_LIMIT && 0 < den <= VAL_LIMIT);
        Some(Rational { num, den })
    }
}

/// Whether the character at `i` is an ASCII digit.
fn is_digit_exec_here(s: &str, i: usize) -> (r: bool)
    requires
        i < s@.len(),
    ensures
        r == is_digit_char(s@[i as int]),
{
    crate::text::is_digit_exec(s.get_char(i))
}

} // verus!
