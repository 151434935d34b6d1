//! Per-tick force resolution scenarios.

use drone_core::drone::{spawn_drone, DampingConfig, DroneGeometry, Drone};
use drone_core::fixed::FIX_ONE;
use drone_core::force::{apply_thruster_force, debug_segment, net_force, ForceSample};
use drone_core::geom::{Rot2, Vec2};
use drone_core::hierarchy::Transform2;

fn demo_drone() -> Drone {
    spawn_drone(
        DroneGeometry {
            body_radius: 32 * FIX_ONE,
            thruster_distance: 96 * FIX_ONE,
            thruster_radius: 10 * FIX_ONE,
        },
        DampingConfig { linear: 4108, angular: 0 },
    )
}

#[test]
fn upright_left_thruster_pushes_up() {
    // body at the origin, unrotated; left thruster undeflected at power ten,
    // nominal one: the nozzle points down, so the force is straight up,
    // applied at the left offset
    let mut d = demo_drone();
    d.set_thruster_power(0, 10 * FIX_ONE);
    let (left, right) = apply_thruster_force(&d, FIX_ONE);
    assert_eq!(left.vector, Vec2 { x: 0, y: 10 * FIX_ONE });
    assert_eq!(left.origin, Vec2 { x: -96 * FIX_ONE, y: 0 });
    assert_eq!(right.vector, Vec2 { x: 0, y: 0 });
    assert_eq!(right.origin, Vec2 { x: 96 * FIX_ONE, y: 0 });
}

#[test]
fn quarter_turned_body_turns_the_force() {
    // body rotated a quarter turn: the same thruster now pushes along -X,
    // and its application point swings to (0, -thruster_distance)
    let mut d = demo_drone();
    d.set_thruster_power(0, 10 * FIX_ONE);
    d.set_body_transform(Transform2 {
        pos: Vec2 { x: 0, y: 0 },
        rot: Rot2 { c: 0, s: FIX_ONE },
    });
    let (left, _right) = apply_thruster_force(&d, FIX_ONE);
    assert_eq!(left.vector, Vec2 { x: -10 * FIX_ONE, y: 0 });
    assert_eq!(left.origin, Vec2 { x: 0, y: -96 * FIX_ONE });
}

#[test]
fn deflection_alone_turns_the_force() {
    // upright body, left thruster deflected a quarter turn: the force turns
    // with the nozzle but the application point stays at the left offset
    let mut d = demo_drone();
    d.set_thruster_power(0, 10 * FIX_ONE);
    d.set_thruster_rotation(0, Rot2 { c: 0, s: FIX_ONE });
    let (left, _right) = apply_thruster_force(&d, FIX_ONE);
    assert_eq!(left.vector, Vec2 { x: -10 * FIX_ONE, y: 0 });
    assert_eq!(left.origin, Vec2 { x: -96 * FIX_ONE, y: 0 });
}

#[test]
fn zero_power_gives_zero_force_for_any_rotation() {
    let mut d = demo_drone();
    d.set_body_transform(Transform2 {
        pos: Vec2 { x: 5 * FIX_ONE, y: 6 * FIX_ONE },
        rot: Rot2 { c: 1234, s: -2345 },
    });
    d.set_thruster_rotation(0, Rot2 { c: -3000, s: 1000 });
    d.set_thruster_rotation(1, Rot2 { c: 50, s: -4000 });
    let (left, right) = apply_thruster_force(&d, FIX_ONE);
    assert_eq!(left.vector, Vec2 { x: 0, y: 0 });
    assert_eq!(right.vector, Vec2 { x: 0, y: 0 });
    assert_eq!(net_force(&left, &right), Vec2 { x: 0, y: 0 });
}

#[test]
fn reversed_power_reverses_the_force() {
    let mut d = demo_drone();
    d.set_body_transform(Transform2 {
        pos: Vec2 { x: 0, y: 0 },
        rot: Rot2 { c: 2500, s: -3200 },
    });
    d.set_thruster_rotation(0, Rot2 { c: 1200, s: 3900 });
    d.set_thruster_power(0, 9 * FIX_ONE);
    let (forward, _) = apply_thruster_force(&d, FIX_ONE);
    d.set_thruster_power(0, -9 * FIX_ONE);
    let (reverse, _) = apply_thruster_force(&d, FIX_ONE);
    assert_eq!(reverse.vector.x, -forward.vector.x);
    assert_eq!(reverse.vector.y, -forward.vector.y);
    assert_eq!(reverse.origin, forward.origin);
}

#[test]
fn both_thrusters_power_adds_up() {
    let mut d = demo_drone();
    d.set_thruster_power(0, 10 * FIX_ONE);
    d.set_thruster_power(1, 10 * FIX_ONE);
    let (left, right) = apply_thruster_force(&d, FIX_ONE);
    assert_eq!(net_force(&left, &right), Vec2 { x: 0, y: 20 * FIX_ONE });
}

#[test]
fn nominal_scales_the_force() {
    let mut d = demo_drone();
    d.set_thruster_power(0, 10 * FIX_ONE);
    let (left, _) = apply_thruster_force(&d, 2 * FIX_ONE);
    assert_eq!(left.vector, Vec2 { x: 0, y: 20 * FIX_ONE });
}

#[test]
fn debug_segment_spans_origin_to_scaled_tip() {
    let sample = ForceSample {
        origin: Vec2 { x: 100, y: 200 },
        vector: Vec2 { x: 30, y: -40 },
    };
    let (start, end) = debug_segment(&sample, 2 * FIX_ONE);
    assert_eq!(start, sample.origin);
    assert_eq!(end, Vec2 { x: 160, y: 120 });
}
