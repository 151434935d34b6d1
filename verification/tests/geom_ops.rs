//! Rotor and vector arithmetic.

use drone_core::fixed::FIX_ONE;
use drone_core::geom::{Rot2, Vec2};

#[test]
fn identity_rotor_is_unit() {
    let r = Rot2::identity();
    assert_eq!(r, Rot2 { c: FIX_ONE, s: 0 });
}

#[test]
fn compose_quarter_turns_gives_half_turn() {
    let quarter = Rot2 { c: 0, s: FIX_ONE };
    let half = quarter.compose(&quarter);
    assert_eq!(half, Rot2 { c: -FIX_ONE, s: 0 });
}

#[test]
fn compose_with_full_turn_is_unchanged() {
    // a whole number of turns is the identity rotor, so shifting a rotation
    // by full turns changes nothing
    let a = Rot2 { c: 1234, s: -2345 };
    let turn = Rot2::identity();
    assert_eq!(a.compose(&turn), a);
    assert_eq!(turn.compose(&a), a);
}

#[test]
fn rotate_axis_by_quarter_turn() {
    let quarter = Rot2 { c: 0, s: FIX_ONE };
    let x_axis = Vec2 { x: FIX_ONE, y: 0 };
    assert_eq!(quarter.rotate(&x_axis), Vec2 { x: 0, y: FIX_ONE });
}

#[test]
fn rotate_by_identity_is_unchanged() {
    let r = Rot2::identity();
    let v = Vec2 { x: 12345, y: -678 };
    assert_eq!(r.rotate(&v), v);
}

#[test]
fn rotate_by_half_turn_negates() {
    let half = Rot2 { c: -FIX_ONE, s: 0 };
    let v = Vec2 { x: 12345, y: -678 };
    assert_eq!(half.rotate(&v), Vec2 { x: -12345, y: 678 });
}

#[test]
fn renormalisation_truncates_toward_zero() {
    // a "half-length" rotor scales by one half; one-and-a-half truncates to
    // one on both sides of zero
    let half_scale = Rot2 { c: FIX_ONE / 2, s: 0 };
    assert_eq!(half_scale.rotate(&Vec2 { x: 3, y: 0 }).x, 1);
    assert_eq!(half_scale.rotate(&Vec2 { x: -3, y: 0 }).x, -1);
}

#[test]
fn vector_sum_is_componentwise() {
    let a = Vec2 { x: 3, y: -4 };
    let b = Vec2 { x: 10, y: 40 };
    assert_eq!(a.plus(&b), Vec2 { x: 13, y: 36 });
}
