//! Exact rational numbers: the value domain of the conversion engine.
//!
//! A `Rational` carries an integer numerator and a positive integer
//! denominator. Nothing here reduces fractions: two values are the same
//! number when they are cross-multiplication equal (`rat_eq`), and every
//! law of the engine is stated up to that equality.

use vstd::prelude::*;

verus! {

/// Mathematical model of a rational number: a numerator and a denominator,
/// both unbounded integers.
pub ghost struct Rat {
    pub num: int,
    pub den: int,
}

/// A model rational is well formed when its denominator is positive.
pub open spec fn rat_wf(r: Rat) -> bool {
    r.den > 0
}

/// Cross-multiplication equality: `a` and `b` denote the same number.
pub open spec fn rat_eq(a: Rat, b: Rat) -> bool {
    a.num * b.den == b.num * a.den
}

pub open spec fn rat_add(a: Rat, b: Rat) -> Rat {
    Rat { num: a.num * b.den + b.num * a.den, den: a.den * b.den }
}

pub open spec fn rat_sub(a: Rat, b: Rat) -> Rat {
    Rat { num: a.num * b.den - b.num * a.den, den: a.den * b.den }
}

pub open spec fn rat_mul(a: Rat, b: Rat) -> Rat {
    Rat { num: a.num * b.num, den: a.den * b.den }
}

/// Division by `b`, defined for `b.num != 0`; keeps the denominator
/// positive only when `b.num > 0`, which is how the engine uses it
/// (conversion scales are positive).
pub open spec fn rat_div(a: Rat, b: Rat) -> Rat {
    Rat { num: a.num * b.den, den: a.den * b.num }
}

/// The largest numerator magnitude and denominator a caller may feed into
/// the conversion arithmetic; chosen so that every intermediate product of
/// a conversion stays well inside `i128`.
pub const VAL_LIMIT: i128 = 0x1000_0000_0000_0000;

/// Bound on the numerator of a conversion scale.
pub const SCALE_NUM_LIMIT: i128 = 1073741824;

/// Bound on the denominator of a conversion scale.
pub const SCALE_DEN_LIMIT: i128 = 131072;

/// Bound on the numerator magnitude of a conversion offset.
pub const OFFSET_NUM_LIMIT: i128 = 32768;

/// Bound on the denominator of a conversion offset.
pub const OFFSET_DEN_LIMIT: i128 = 128;

/// Bound on the numerator magnitude of a value normalized to a base unit.
pub const MID_NUM_LIMIT: i128 = 316912650057057350374175801344;

/// Bound on the denominator of a value normalized to a base unit.
pub const MID_DEN_LIMIT: i128 = 19342813113834066795298816;

/// A conversion scale: positive and small enough for the arithmetic.
pub open spec fn bounded_scale(s: Rat) -> bool {
    0 < s.num <= SCALE_NUM_LIMIT as int && 0 < s.den <= SCALE_DEN_LIMIT as int
}

/// A conversion offset: small enough for the arithmetic.
pub open spec fn bounded_offset(o: Rat) -> bool {
    -(OFFSET_NUM_LIMIT as int) <= o.num <= OFFSET_NUM_LIMIT as int && 0 < o.den
        <= OFFSET_DEN_LIMIT as int
}

/// A value normalized to a base unit: still small enough to be converted
/// onward to any target unit.
pub open spec fn mid_bounded(r: Rat) -> bool {
    -(MID_NUM_LIMIT as int) <= r.num <= MID_NUM_LIMIT as int && 0 < r.den <= MID_DEN_LIMIT as int
}

/// The rational number zero: the offset of every purely scaling unit.
pub open spec fn rat_zero() -> Rat {
    Rat { num: 0, den: 1 }
}

/// The affine map `v * s + o`: a value taken into a category's base unit
/// by the unit's scale `s` and offset `o`.
pub open spec fn affine_to(v: Rat, s: Rat, o: Rat) -> Rat {
    rat_add(rat_mul(v, s), o)
}

/// The inverse affine map `(b - o) / s`: a base-unit value taken back out
/// to the unit with scale `s` and offset `o`.
pub open spec fn affine_from(b: Rat, s: Rat, o: Rat) -> Rat {
    rat_div(rat_sub(b, o), s)
}

/// A whole conversion: into the base unit with the source unit's scale
/// and offset, then out of it with the target unit's.
pub open spec fn affine_convert(v: Rat, s_from: Rat, o_from: Rat, s_to: Rat, o_to: Rat) -> Rat {
    affine_from(affine_to(v, s_from, o_from), s_to, o_to)
}

proof fn lemma_mul_bound(x: int, y: int, xb: int, yb: int)
    by (nonlinear_arith)
    requires
        -xb <= x <= xb,
        -yb <= y <= yb,
        0 <= xb,
        0 <= yb,
    ensures
        -(xb * yb) <= x * y <= xb * yb,
{
}

proof fn lemma_mul_pos(x: int, y: int)
    by (nonlinear_arith)
    requires
        x > 0,
        y > 0,
    ensures
        x * y > 0,
{
}

/// Equality of rationals is transitive; the middle denominator must be
/// nonzero.
pub proof fn lemma_rat_eq_trans(a: Rat, b: Rat, c: Rat)
    by (nonlinear_arith)
    requires
        rat_eq(a, b),
        rat_eq(b, c),
        b.den != 0,
    ensures
        rat_eq(a, c),
{
}

/// Taking a value into a base unit preserves well-formedness.
pub proof fn lemma_affine_to_wf(v: Rat, s: Rat, o: Rat)
    requires
        rat_wf(v),
        rat_wf(s),
        rat_wf(o),
    ensures
        rat_wf(affine_to(v, s, o)),
{
    lemma_mul_pos(v.den, s.den);
    lemma_mul_pos(v.den * s.den, o.den);
}

/// Taking a base-unit value out to a unit with a positive scale preserves
/// well-formedness.
pub proof fn lemma_affine_from_wf(b: Rat, s: Rat, o: Rat)
    requires
        rat_wf(b),
        rat_wf(o),
        s.num > 0,
    ensures
        rat_wf(affine_from(b, s, o)),
{
    lemma_mul_pos(b.den, o.den);
    lemma_mul_pos(b.den * o.den, s.num);
}

proof fn lemma_mul_nonzero(x: int, y: int)
    by (nonlinear_arith)
    requires
        x != 0,
        y != 0,
    ensures
        x * y != 0,
{
}

/// Multiplying a quotient by its divisor gives the dividend back.
#[verifier::rlimit(50)]
proof fn lemma_mul_div_cancel(x: Rat, s: Rat)
    by (nonlinear_arith)
    ensures
        rat_eq(rat_mul(rat_div(x, s), s), x),
{
}

/// Dividing a product by its multiplier gives the multiplicand back.
#[verifier::rlimit(50)]
proof fn lemma_div_mul_cancel(v: Rat, s: Rat)
    by (nonlinear_arith)
    ensures
        rat_eq(rat_div(rat_mul(v, s), s), v),
{
}

/// Adding an offset to a difference by that offset gives the minuend
/// back.
#[verifier::rlimit(50)]
proof fn lemma_add_sub_cancel(x: Rat, o: Rat)
    by (nonlinear_arith)
    ensures
        rat_eq(rat_add(rat_sub(x, o), o), x),
{
}

/// Subtracting an offset from a sum with that offset gives the other
/// summand back.
#[verifier::rlimit(50)]
proof fn lemma_sub_add_cancel(x: Rat, o: Rat)
    by (nonlinear_arith)
    ensures
        rat_eq(rat_sub(rat_add(x, o), o), x),
{
}

/// Converting a value into a base unit and straight back returns the
/// value: the two affine maps are inverses.
proof fn lemma_affine_inverse(v: Rat, s: Rat, o: Rat)
    requires
        rat_wf(v),
        rat_wf(s),
        rat_wf(o),
        s.num != 0,
    ensures
        rat_eq(affine_from(affine_to(v, s, o), s, o), v),
{
    let m = rat_mul(v, s);
    let t = rat_add(m, o);
    lemma_sub_add_cancel(m, o);
    lemma_rat_div_congruence(rat_sub(t, o), m, s);
    lemma_div_mul_cancel(v, s);
    lemma_mul_nonzero(v.den, s.den);
    lemma_mul_nonzero(v.den * s.den, s.num);
    lemma_rat_eq_trans(rat_div(rat_sub(t, o), s), rat_div(m, s), v);
}

/// Adding one offset to two equal values gives equal results.
#[verifier::rlimit(50)]
proof fn lemma_rat_add_congruence(a: Rat, b: Rat, o: Rat)
    requires
        rat_eq(a, b),
    ensures
        rat_eq(rat_add(a, o), rat_add(b, o)),
{
    let an = a.num;
    let ad = a.den;
    let bn = b.num;
    let bd = b.den;
    let on = o.num;
    let od = o.den;
    let l = rat_add(a, o);
    let r = rat_add(b, o);
    assert(l.num == an * od + on * ad && l.den == ad * od);
    assert(r.num == bn * od + on * bd && r.den == bd * od);
    assert((an * od + on * ad) * (bd * od) == (bn * od + on * bd) * (ad * od))
        by (nonlinear_arith)
        requires
            an * bd == bn * ad,
    ;
}

/// Subtracting one offset from two equal values gives equal results.
#[verifier::rlimit(50)]
proof fn lemma_rat_sub_congruence(a: Rat, b: Rat, o: Rat)
    requires
        rat_eq(a, b),
    ensures
        rat_eq(rat_sub(a, o), rat_sub(b, o)),
{
    let an = a.num;
    let ad = a.den;
    let bn = b.num;
    let bd = b.den;
    let on = o.num;
    let od = o.den;
    let l = rat_sub(a, o);
    let r = rat_sub(b, o);
    assert(l.num == an * od - on * ad && l.den == ad * od);
    assert(r.num == bn * od - on * bd && r.den == bd * od);
    assert((an * od - on * ad) * (bd * od) == (bn * od - on * bd) * (ad * od))
        by (nonlinear_arith)
        requires
            an * bd == bn * ad,
    ;
}

/// Dividing two equal values by one scale gives equal results.
#[verifier::rlimit(50)]
proof fn lemma_rat_div_congruence(a: Rat, b: Rat, s: Rat)
    by (nonlinear_arith)
    requires
        rat_eq(a, b),
    ensures
        rat_eq(rat_div(a, s), rat_div(b, s)),
{
}

/// Converting a base-unit value out to a unit and straight back returns
/// the base-unit value.
proof fn lemma_affine_inverse_back(b: Rat, s: Rat, o: Rat)
    requires
        rat_wf(b),
        rat_wf(s),
        rat_wf(o),
        s.num != 0,
    ensures
        rat_eq(affine_to(affine_from(b, s, o), s, o), b),
{
    let x = rat_sub(b, o);
    let m = rat_mul(rat_div(x, s), s);
    lemma_mul_div_cancel(x, s);
    lemma_rat_add_congruence(m, x, o);
    lemma_add_sub_cancel(b, o);
    lemma_mul_pos(b.den, o.den);
    lemma_mul_pos(x.den, o.den);
    lemma_rat_eq_trans(rat_add(m, o), rat_add(x, o), b);
}

/// Taking two equal values out of the base unit gives equal results.
proof fn lemma_affine_from_congruence(a: Rat, b: Rat, s: Rat, o: Rat)
    requires
        rat_eq(a, b),
        rat_wf(s),
        rat_wf(o),
        s.num != 0,
    ensures
        rat_eq(affine_from(a, s, o), affine_from(b, s, o)),
{
    lemma_rat_sub_congruence(a, b, o);
    lemma_rat_div_congruence(rat_sub(a, o), rat_sub(b, o), s);
}

/// Converting a value from a unit to itself gives the value back.
pub proof fn lemma_affine_convert_identity(v: Rat, s: Rat, o: Rat)
    requires
        rat_wf(v),
        rat_wf(s),
        rat_wf(o),
        s.num > 0,
    ensures
        rat_eq(affine_convert(v, s, o, s, o), v),
{
    lemma_affine_inverse(v, s, o);
}

/// Converting a value to another unit and back gives the value back.
pub proof fn lemma_affine_convert_round_trip(v: Rat, s1: Rat, o1: Rat, s2: Rat, o2: Rat)
    requires
        rat_wf(v),
        rat_wf(s1),
        rat_wf(o1),
        rat_wf(s2),
        rat_wf(o2),
        s1.num > 0,
        s2.num > 0,
    ensures
        rat_eq(affine_convert(affine_convert(v, s1, o1, s2, o2), s2, o2, s1, o1), v),
{
    lemma_affine_convert_chain(v, s1, o1, s2, o2, s1, o1);
    lemma_affine_convert_identity(v, s1, o1);
    let x = affine_convert(affine_convert(v, s1, o1, s2, o2), s2, o2, s1, o1);
    let y = affine_convert(v, s1, o1, s1, o1);
    lemma_affine_to_wf(v, s1, o1);
    lemma_affine_from_wf(affine_to(v, s1, o1), s1, o1);
    lemma_rat_eq_trans(x, y, v);
}

/// Converting through an intermediate unit agrees with converting
/// directly: both normalize through the same base unit.
pub proof fn lemma_affine_convert_chain(
    v: Rat,
    s1: Rat,
    o1: Rat,
    s2: Rat,
    o2: Rat,
    s3: Rat,
    o3: Rat,
)
    requires
        rat_wf(v),
        rat_wf(s1),
        rat_wf(o1),
        rat_wf(s2),
        rat_wf(o2),
        rat_wf(s3),
        rat_wf(o3),
        s1.num > 0,
        s2.num > 0,
        s3.num > 0,
    ensures
        rat_eq(
            affine_convert(affine_convert(v, s1, o1, s2, o2), s2, o2, s3, o3),
            affine_convert(v, s1, o1, s3, o3),
        ),
{
    let base = affine_to(v, s1, o1);
    let x = affine_convert(v, s1, o1, s2, o2);
    lemma_affine_to_wf(v, s1, o1);
    lemma_affine_from_wf(base, s2, o2);
    lemma_affine_inverse_back(base, s2, o2);
    lemma_affine_from_congruence(affine_to(x, s2, o2), base, s3, o3);
}

/// An executable rational number with a positive denominator.
#[derive(Clone, Copy, Debug)]
pub struct Rational {
    pub num: i128,
    pub den: i128,
}

impl View for Rational {
    type V = Rat;

    open spec fn view(&self) -> Rat {
        Rat { num: self.num as int, den: self.den as int }
    }
}

impl Rational {
    /// Well-formed: the denominator is positive.
    pub open spec fn wf(self) -> bool {
        rat_wf(self@)
    }

    /// Small enough to be fed into the conversion arithmetic without any
    /// risk of overflow.
    pub open spec fn bounded(self) -> bool {
        -(VAL_LIMIT as int) <= self@.num <= VAL_LIMIT as int
            && 0 < self@.den <= VAL_LIMIT as int
    }

    /// The number zero.
    pub fn zero() -> (r: Rational)
        ensures
            r.wf(),
            r.bounded(),
            r@ == rat_zero(),
            bounded_offset(r@),
    {
        Rational { num: 0, den: 1 }
    }

    /// The whole number `n`.
    pub fn from_int(n: i64) -> (r: Rational)
        requires
            -VAL_LIMIT <= n as int <= VAL_LIMIT,
        ensures
            r.wf(),
            r.bounded(),
            r@ == (Rat { num: n as int, den: 1 }),
    {
        Rational { num: n as i128, den: 1 }
    }

    /// The fraction `num / den`.
    pub fn new(num: i64, den: i64) -> (r: Rational)
        requires
            den > 0,
            -VAL_LIMIT <= num as int <= VAL_LIMIT,
            den as int <= VAL_LIMIT,
        ensures
            r.wf(),
            r.bounded(),
            r@ == (Rat { num: num as int, den: den as int }),
    {
        Rational { num: num as i128, den: den as i128 }
    }

    /// Takes this value into a category's base unit: `self * s + o`.
    pub fn affine_to(self, s: Rational, o: Rational) -> (r: Rational)
        requires
            self.wf(),
            self.bounded(),
            bounded_scale(s@),
            bounded_offset(o@),
        ensures
            r@ == affine_to(self@, s@, o@),
            rat_wf(r@),
            mid_bounded(r@),
    {
        proof {
            lemma_mul_bound(self@.num, s@.num, VAL_LIMIT as int, SCALE_NUM_LIMIT as int);
            lemma_mul_bound(
                self@.num * s@.num,
                o@.den,
                VAL_LIMIT as int * SCALE_NUM_LIMIT as int,
                OFFSET_DEN_LIMIT as int,
            );
            lemma_mul_bound(self@.den, s@.den, VAL_LIMIT as int, SCALE_DEN_LIMIT as int);
            lemma_mul_bound(
                o@.num,
                self@.den * s@.den,
                OFFSET_NUM_LIMIT as int,
                VAL_LIMIT as int * SCALE_DEN_LIMIT as int,
            );
            lemma_mul_bound(
                self@.den * s@.den,
                o@.den,
                VAL_LIMIT as int * SCALE_DEN_LIMIT as int,
                OFFSET_DEN_LIMIT as int,
            );
            lemma_mul_pos(self@.den, s@.den);
            lemma_mul_pos(self@.den * s@.den, o@.den);
        }
        Rational {
            num: self.num * s.num * o.den + o.num * (self.den * s.den),
            den: self.den * s.den * o.den,
        }
    }

    /// Takes a base-unit value out to a unit: `(self - o) / s`.
    pub fn affine_from(self, s: Rational, o: Rational) -> (r: Rational)
        requires
            rat_wf(self@),
            mid_bounded(self@),
            bounded_scale(s@),
            bounded_offset(o@),
        ensures
            r@ == affine_from(self@, s@, o@),
            rat_wf(r@),
    {
        proof {
            lemma_mul_bound(self@.num, o@.den, MID_NUM_LIMIT as int, OFFSET_DEN_LIMIT as int);
            lemma_mul_bound(o@.num, self@.den, OFFSET_NUM_LIMIT as int, MID_DEN_LIMIT as int);
            lemma_mul_bound(
                self@.num * o@.den - o@.num * self@.den,
                s@.den,
                MID_NUM_LIMIT as int * OFFSET_DEN_LIMIT as int + OFFSET_NUM_LIMIT as int
                    * MID_DEN_LIMIT as int,
                SCALE_DEN_LIMIT as int,
            );
            lemma_mul_bound(self@.den, o@.den, MID_DEN_LIMIT as int, OFFSET_DEN_LIMIT as int);
            lemma_mul_bound(
                self@.den * o@.den,
                s@.num,
                MID_DEN_LIMIT as int * OFFSET_DEN_LIMIT as int,
                SCALE_NUM_LIMIT as int,
            );
            lemma_mul_pos(self@.den, o@.den);
            lemma_mul_pos(self@.den * o@.den, s@.num);
        }
        Rational {
            num: (self.num * o.den - o.num * self.den) * s.den,
            den: self.den * o.den * s.num,
        }
    }

}

} // verus!
