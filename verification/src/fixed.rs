//! Fixed-point scalars and the rounding division used throughout the crate.
//!
//! Every scalar quantity in the crate — coordinates, cosines and sines,
//! powers, damping factors — is an `i64` numerator over the common
//! denominator [`FIX_ONE`]. Products of two fixed-point numbers are therefore
//! exact integers at the squared scale; one truncating division by the scale
//! brings them back. All intermediate arithmetic is carried out in `i128`,
//! which cannot overflow for the operand bounds the crate admits.

use vstd::arithmetic::div_mod::{
    lemma_div_by_multiple, lemma_div_is_ordered, lemma_div_multiples_vanish,
    lemma_div_nonincreasing, lemma_div_pos_is_pos,
};
use vstd::prelude::*;

verus! {

/// The fixed-point unit: an `i64` value `v` stands for the real number
/// `v / FIX_ONE`. A rotation's cosine and sine are stored at this scale, so
/// the identity rotation is `(FIX_ONE, 0)`.
pub const FIX_ONE: i64 = 4096;

/// Largest magnitude accepted for a position or offset coordinate. Keeps all
/// transform compositions inside `i64` after renormalisation.
pub const POS_LIMIT: i64 = 0x100_0000_0000;

/// Largest magnitude accepted for a thruster power or a nominal
/// force-per-power factor. Keeps force products inside `i64` after
/// renormalisation.
pub const POWER_LIMIT: i64 = 0x4000_0000;

/// Whether a mathematical integer fits in an `i64`.
pub open spec fn in_i64(v: int) -> bool {
    i64::MIN <= v <= i64::MAX
}

/// Division rounding toward zero, the rounding used by every fixed-point
/// renormalisation in the crate. (Spec-level `/` rounds toward negative
/// infinity for a positive divisor; rounding toward zero instead makes the
/// rounding commute with negation, see [`lemma_tdiv_neg`].)
pub open spec fn tdiv(a: int, d: int) -> int
    recommends
        d > 0,
{
    if a >= 0 {
        a / d
    } else {
        -((-a) / d)
    }
}

/// Rounding toward zero commutes with negation.
pub proof fn lemma_tdiv_neg(a: int, d: int)
    requires
        d > 0,
    ensures
        tdiv(-a, d) == -tdiv(a, d),
{
    if a == 0 {
        assert(d * 0 == 0);
        lemma_div_multiples_vanish(0, d);
    }
}

/// Dividing an exact multiple of the divisor is exact.
pub proof fn lemma_tdiv_mul_exact(k: int, d: int)
    requires
        d > 0,
    ensures
        tdiv(k * d, d) == k,
{
    if k >= 0 {
        assert(k * d >= 0) by (nonlinear_arith)
            requires
                k >= 0,
                d > 0,
        ;
        lemma_div_by_multiple(k, d);
    } else {
        assert(k * d < 0) by (nonlinear_arith)
            requires
                k < 0,
                d > 0,
        ;
        assert(-(k * d) == (-k) * d) by (nonlinear_arith);
        lemma_div_by_multiple(-k, d);
    }
}

/// A magnitude bound on the operand gives a magnitude bound on the quotient.
pub proof fn lemma_tdiv_bound(a: int, b: int, d: int)
    requires
        d > 0,
        -b <= a <= b,
    ensures
        -(b / d) <= tdiv(a, d) <= b / d,
        0 <= b / d <= b,
{
    lemma_div_pos_is_pos(b, d);
    lemma_div_nonincreasing(b, d);
    if a >= 0 {
        lemma_div_is_ordered(a, b, d);
        lemma_div_pos_is_pos(a, d);
    } else {
        lemma_div_is_ordered(-a, b, d);
        lemma_div_pos_is_pos(-a, d);
    }
}

/// A magnitude bound on both factors gives a magnitude bound on a product.
pub proof fn lemma_mul_bound(a: int, b: int, ab: int, bb: int)
    by (nonlinear_arith)
    requires
        -ab <= a <= ab,
        -bb <= b <= bb,
    ensures
        -(ab * bb) <= a * b <= ab * bb,
{
}

/// Truncating division of an `i128` by a positive divisor. The extreme value
/// `i128::MIN` is excluded so that the magnitude `-a` exists.
pub fn tdiv_i128(a: i128, d: i128) -> (q: i128)
    requires
        d > 0,
        i128::MIN < a,
    ensures
        q == tdiv(a as int, d as int),
{
    if a >= 0 {
        let au: u128 = a as u128;
        let du: u128 = d as u128;
        let qu: u128 = au / du;
        proof {
            lemma_div_pos_is_pos(a as int, d as int);
            lemma_div_nonincreasing(a as int, d as int);
        }
        qu as i128
    } else {
        let n: i128 = -a;
        let nu: u128 = n as u128;
        let du: u128 = d as u128;
        let qu: u128 = nu / du;
        proof {
            lemma_div_pos_is_pos(n as int, d as int);
            lemma_div_nonincreasing(n as int, d as int);
        }
        -(qu as i128)
    }
}

} // verus!
