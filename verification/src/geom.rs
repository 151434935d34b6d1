//! Planar vectors and rotations in fixed-point arithmetic.
//!
//! A rotation is stored as the pair of its fixed-point cosine and sine (a
//! rotor). Composing two rotations and rotating a vector are then exact
//! integer computations — the angle-addition identities — followed by one
//! renormalising division by [`FIX_ONE`]. Because a whole turn is the
//! identity rotor, periodicity of rotation needs no angle wrapping at all.

use crate::fixed::{in_i64, lemma_mul_bound, lemma_tdiv_bound, lemma_tdiv_mul_exact, tdiv,
    tdiv_i128, FIX_ONE};
use vstd::prelude::*;

verus! {

/// A 2-D vector whose coordinates are fixed-point numbers.
#[derive(Clone, Copy, PartialEq, Eq, Structural, Debug)]
pub struct Vec2 {
    pub x: i64,
    pub y: i64,
}

/// A planar rotation: the fixed-point cosine `c` and sine `s` of its angle.
/// The identity rotation is `(FIX_ONE, 0)`; a quarter turn is `(0, FIX_ONE)`.
#[derive(Clone, Copy, PartialEq, Eq, Structural, Debug)]
pub struct Rot2 {
    pub c: i64,
    pub s: i64,
}

/// First coordinate of the vector `(x, y)` rotated by the rotor `(c, s)`,
/// before renormalisation.
pub open spec fn rot_xi(c: int, s: int, x: int, y: int) -> int {
    c * x - s * y
}

/// Second coordinate of the vector `(x, y)` rotated by the rotor `(c, s)`,
/// before renormalisation.
pub open spec fn rot_yi(c: int, s: int, x: int, y: int) -> int {
    s * x + c * y
}

/// Cosine numerator of the composition of the rotors `(c1, s1)` and
/// `(c2, s2)`, before renormalisation: the cosine angle-addition identity.
pub open spec fn comp_ci(c1: int, s1: int, c2: int, s2: int) -> int {
    c1 * c2 - s1 * s2
}

/// Sine numerator of the composition of the rotors `(c1, s1)` and
/// `(c2, s2)`, before renormalisation: the sine angle-addition identity.
pub open spec fn comp_si(c1: int, s1: int, c2: int, s2: int) -> int {
    s1 * c2 + c1 * s2
}

/// `rot_xi` applied to a rotor and vector of the crate's structs.
pub open spec fn rot_x(r: Rot2, v: Vec2) -> int {
    rot_xi(r.c as int, r.s as int, v.x as int, v.y as int)
}

/// `rot_yi` applied to a rotor and vector of the crate's structs.
pub open spec fn rot_y(r: Rot2, v: Vec2) -> int {
    rot_yi(r.c as int, r.s as int, v.x as int, v.y as int)
}

/// `comp_ci` applied to two rotors of the crate's structs.
pub open spec fn comp_c(a: Rot2, b: Rot2) -> int {
    comp_ci(a.c as int, a.s as int, b.c as int, b.s as int)
}

/// `comp_si` applied to two rotors of the crate's structs.
pub open spec fn comp_s(a: Rot2, b: Rot2) -> int {
    comp_si(a.c as int, a.s as int, b.c as int, b.s as int)
}

/// The identity rotor.
pub open spec fn rot2_ident() -> Rot2 {
    Rot2 { c: FIX_ONE, s: 0 }
}

impl Rot2 {
    /// A rotor converted from a real angle has cosine and sine of magnitude
    /// at most one, that is at most `FIX_ONE` in fixed point.
    pub open spec fn wf(self) -> bool {
        &&& -FIX_ONE <= self.c <= FIX_ONE
        &&& -FIX_ONE <= self.s <= FIX_ONE
    }

    /// The rotation by angle zero.
    pub fn identity() -> (r: Rot2)
        ensures
            r == rot2_ident(),
            r.wf(),
    {
        Rot2 { c: FIX_ONE, s: 0 }
    }

    /// The composition of `self` with `other`: rotating by the result equals
    /// rotating by `other`, then by `self`. Components are the exact
    /// angle-addition numerators, renormalised toward zero.
    ///
    /// `self` may be any rotor (for instance an already-composed one);
    /// `other` must be well-formed so that the products stay in range.
    pub fn compose(&self, other: &Rot2) -> (r: Rot2)
        requires
            other.wf(),
            in_i64(tdiv(comp_c(*self, *other), FIX_ONE as int)),
            in_i64(tdiv(comp_s(*self, *other), FIX_ONE as int)),
        ensures
            r.c == tdiv(comp_c(*self, *other), FIX_ONE as int),
            r.s == tdiv(comp_s(*self, *other), FIX_ONE as int),
    {
        let c1: i128 = self.c as i128;
        let s1: i128 = self.s as i128;
        let c2: i128 = other.c as i128;
        let s2: i128 = other.s as i128;
        proof {
            lemma_mul_bound(c1 as int, c2 as int, i64::MAX as int + 1, FIX_ONE as int);
            lemma_mul_bound(s1 as int, s2 as int, i64::MAX as int + 1, FIX_ONE as int);
            lemma_mul_bound(s1 as int, c2 as int, i64::MAX as int + 1, FIX_ONE as int);
            lemma_mul_bound(c1 as int, s2 as int, i64::MAX as int + 1, FIX_ONE as int);
        }
        let cn: i128 = c1 * c2 - s1 * s2;
        let sn: i128 = s1 * c2 + c1 * s2;
        let cq: i128 = tdiv_i128(cn, FIX_ONE as i128);
        let sq: i128 = tdiv_i128(sn, FIX_ONE as i128);
        Rot2 { c: cq as i64, s: sq as i64 }
    }

    /// The vector `v` rotated by `self`, renormalised toward zero.
    ///
    /// `self` may be any rotor; the vector's coordinates must stay within
    /// [`crate::fixed::POS_LIMIT`]-sized magnitudes chosen by the caller so
    /// that the stated results fit, which the `in_i64` premises record.
    pub fn rotate(&self, v: &Vec2) -> (w: Vec2)
        requires
            in_i64(tdiv(rot_x(*self, *v), FIX_ONE as int)),
            in_i64(tdiv(rot_y(*self, *v), FIX_ONE as int)),
        ensures
            w.x == tdiv(rot_x(*self, *v), FIX_ONE as int),
            w.y == tdiv(rot_y(*self, *v), FIX_ONE as int),
    {
        let c: i128 = self.c as i128;
        let s: i128 = self.s as i128;
        let x: i128 = v.x as i128;
        let y: i128 = v.y as i128;
        proof {
            lemma_mul_bound(c as int, x as int, i64::MAX as int + 1, i64::MAX as int + 1);
            lemma_mul_bound(s as int, y as int, i64::MAX as int + 1, i64::MAX as int + 1);
            lemma_mul_bound(s as int, x as int, i64::MAX as int + 1, i64::MAX as int + 1);
            lemma_mul_bound(c as int, y as int, i64::MAX as int + 1, i64::MAX as int + 1);
        }
        let xn: i128 = c * x - s * y;
        let yn: i128 = s * x + c * y;
        let xq: i128 = tdiv_i128(xn, FIX_ONE as i128);
        let yq: i128 = tdiv_i128(yn, FIX_ONE as i128);
        Vec2 { x: xq as i64, y: yq as i64 }
    }
}

impl Vec2 {
    /// The component-wise sum of two vectors.
    pub fn plus(&self, other: &Vec2) -> (w: Vec2)
        requires
            in_i64(self.x + other.x),
            in_i64(self.y + other.y),
        ensures
            w.x == self.x + other.x,
            w.y == self.y + other.y,
    {
        Vec2 { x: self.x + other.x, y: self.y + other.y }
    }
}

proof fn lemma_rotate_compose_raw(c1: int, s1: int, c2: int, s2: int, x: int, y: int)
    ensures
        (c1 * c2 - s1 * s2) * x - (s1 * c2 + c1 * s2) * y == c1 * (c2 * x - s2 * y) - s1 * (s2
            * x + c2 * y),
        (s1 * c2 + c1 * s2) * x + (c1 * c2 - s1 * s2) * y == s1 * (c2 * x - s2 * y) + c1 * (s2
            * x + c2 * y),
{
    assert((c1 * c2 - s1 * s2) * x == c1 * (c2 * x) - s1 * (s2 * x)) by (nonlinear_arith);
    assert((s1 * c2 + c1 * s2) * y == s1 * (c2 * y) + c1 * (s2 * y)) by (nonlinear_arith);
    assert(c1 * (c2 * x - s2 * y) == c1 * (c2 * x) - c1 * (s2 * y)) by (nonlinear_arith);
    assert(s1 * (s2 * x + c2 * y) == s1 * (s2 * x) + s1 * (c2 * y)) by (nonlinear_arith);
    assert((s1 * c2 + c1 * s2) * x == s1 * (c2 * x) + c1 * (s2 * x)) by (nonlinear_arith);
    assert((c1 * c2 - s1 * s2) * y == c1 * (c2 * y) - s1 * (s2 * y)) by (nonlinear_arith);
    assert(s1 * (c2 * x - s2 * y) == s1 * (c2 * x) - s1 * (s2 * y)) by (nonlinear_arith);
    assert(c1 * (s2 * x + c2 * y) == c1 * (s2 * x) + c1 * (c2 * y)) by (nonlinear_arith);
}

/// Law: rotating by a composed rotation equals rotating by the two rotations
/// in sequence. This is the angle-addition identity at the heart of the force
/// computation — a thruster's deflection composed with the body's rotation
/// turns the exhaust axis exactly as the two rotations applied one after the
/// other would.
pub proof fn lemma_rotate_compose(c1: int, s1: int, c2: int, s2: int, x: int, y: int)
    ensures
        rot_xi(comp_ci(c1, s1, c2, s2), comp_si(c1, s1, c2, s2), x, y) == rot_xi(
            c1,
            s1,
            rot_xi(c2, s2, x, y),
            rot_yi(c2, s2, x, y),
        ),
        rot_yi(comp_ci(c1, s1, c2, s2), comp_si(c1, s1, c2, s2), x, y) == rot_yi(
            c1,
            s1,
            rot_xi(c2, s2, x, y),
            rot_yi(c2, s2, x, y),
        ),
{
    lemma_rotate_compose_raw(c1, s1, c2, s2, x, y);
}

/// Law: a whole number of full turns is the identity rotor, so composing
/// with it on either side returns the rotor unchanged — shifting any
/// rotation by full turns leaves every downstream result identical, with no
/// angle wrapping needed.
pub proof fn lemma_full_turn_shift(a: Rot2, t: Rot2)
    requires
        t == rot2_ident(),
    ensures
        tdiv(comp_c(a, t), FIX_ONE as int) == a.c,
        tdiv(comp_s(a, t), FIX_ONE as int) == a.s,
        tdiv(comp_c(t, a), FIX_ONE as int) == a.c,
        tdiv(comp_s(t, a), FIX_ONE as int) == a.s,
{
    assert(comp_c(a, t) == a.c * (FIX_ONE as int));
    assert(comp_s(a, t) == a.s * (FIX_ONE as int));
    assert(comp_c(t, a) == a.c * (FIX_ONE as int));
    assert(comp_s(t, a) == a.s * (FIX_ONE as int));
    lemma_tdiv_mul_exact(a.c as int, FIX_ONE as int);
    lemma_tdiv_mul_exact(a.s as int, FIX_ONE as int);
}

/// Bound used by callers of [`Rot2::compose`]: composing two well-formed
/// rotors keeps both components within twice the fixed-point unit.
pub proof fn lemma_compose_wf_bound(a: Rot2, b: Rot2)
    requires
        a.wf(),
        b.wf(),
    ensures
        -2 * FIX_ONE * FIX_ONE <= comp_c(a, b) <= 2 * FIX_ONE * FIX_ONE,
        -2 * FIX_ONE * FIX_ONE <= comp_s(a, b) <= 2 * FIX_ONE * FIX_ONE,
        -2 * FIX_ONE <= tdiv(comp_c(a, b), FIX_ONE as int) <= 2 * FIX_ONE,
        -2 * FIX_ONE <= tdiv(comp_s(a, b), FIX_ONE as int) <= 2 * FIX_ONE,
{
    lemma_mul_bound(a.c as int, b.c as int, FIX_ONE as int, FIX_ONE as int);
    lemma_mul_bound(a.s as int, b.s as int, FIX_ONE as int, FIX_ONE as int);
    lemma_mul_bound(a.s as int, b.c as int, FIX_ONE as int, FIX_ONE as int);
    lemma_mul_bound(a.c as int, b.s as int, FIX_ONE as int, FIX_ONE as int);
    lemma_tdiv_bound(comp_c(a, b), 2 * FIX_ONE * FIX_ONE, FIX_ONE as int);
    lemma_tdiv_bound(comp_s(a, b), 2 * FIX_ONE * FIX_ONE, FIX_ONE as int);
    lemma_tdiv_mul_exact(2 * FIX_ONE, FIX_ONE as int);
    assert((2 * FIX_ONE) * FIX_ONE == 2 * FIX_ONE * FIX_ONE) by (nonlinear_arith);
}

} // verus!
