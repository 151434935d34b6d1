//! Assembly: geometry, hierarchy, collider, and actuator state.

use drone_core::drone::{
    compound_collider, spawn_drone, thruster_offset, DampingConfig, DroneGeometry, ThrusterInfo,
};
use drone_core::fixed::FIX_ONE;
use drone_core::geom::{Rot2, Vec2};
use drone_core::hierarchy::{Hierarchy, Transform2};

fn demo_geometry() -> DroneGeometry {
    DroneGeometry {
        body_radius: 32 * FIX_ONE,
        thruster_distance: 96 * FIX_ONE,
        thruster_radius: 10 * FIX_ONE,
    }
}

fn demo_damping() -> DampingConfig {
    DampingConfig { linear: 4108, angular: 0 }
}

#[test]
fn thruster_offsets_are_symmetric() {
    let g = demo_geometry();
    assert_eq!(thruster_offset(&g, 0), Vec2 { x: -96 * FIX_ONE, y: 0 });
    assert_eq!(thruster_offset(&g, 1), Vec2 { x: 96 * FIX_ONE, y: 0 });
}

#[test]
fn collider_offsets_match_thruster_offsets() {
    // collider discs and thruster nodes derive from the same constants, so
    // the collision geometry agrees with the force-application geometry
    let g = demo_geometry();
    let parts = compound_collider(&g);
    assert_eq!(parts.len(), 3);
    assert_eq!(parts[0].offset, Vec2 { x: 0, y: 0 });
    assert_eq!(parts[0].radius, g.body_radius);
    assert_eq!(parts[1].offset, thruster_offset(&g, 1));
    assert_eq!(parts[1].radius, g.thruster_radius);
    assert_eq!(parts[2].offset, thruster_offset(&g, 0));
    assert_eq!(parts[2].radius, g.thruster_radius);
    let d = spawn_drone(g, demo_damping());
    assert_eq!(d.hier.nodes[1].local.pos, parts[2].offset);
    assert_eq!(d.hier.nodes[2].local.pos, parts[1].offset);
}

#[test]
fn collider_matches_for_another_geometry() {
    let g = DroneGeometry {
        body_radius: 7 * FIX_ONE,
        thruster_distance: 21 * FIX_ONE,
        thruster_radius: 2 * FIX_ONE,
    };
    let parts = compound_collider(&g);
    let d = spawn_drone(g, demo_damping());
    assert_eq!(d.hier.nodes[1].local.pos, parts[2].offset);
    assert_eq!(d.hier.nodes[2].local.pos, parts[1].offset);
}

#[test]
fn spawn_drone_assembles_three_nodes() {
    let d = spawn_drone(demo_geometry(), demo_damping());
    assert_eq!(d.hier.nodes.len(), 3);
    assert_eq!(d.hier.nodes[0].parent, None);
    assert_eq!(d.hier.nodes[1].parent, Some(0));
    assert_eq!(d.hier.nodes[2].parent, Some(0));
    assert_eq!(d.hier.nodes[0].local.pos, Vec2 { x: 0, y: 0 });
    assert_eq!(d.hier.nodes[0].local.rot, Rot2 { c: FIX_ONE, s: 0 });
    assert_eq!(d.hier.nodes[1].local.rot, Rot2 { c: FIX_ONE, s: 0 });
    assert_eq!(d.hier.nodes[2].local.rot, Rot2 { c: FIX_ONE, s: 0 });
    assert_eq!(d.info.power_left, 0);
    assert_eq!(d.info.power_right, 0);
    assert_eq!(d.damping, demo_damping());
}

#[test]
fn thruster_state_slots_are_independent() {
    let mut info = ThrusterInfo::new();
    info.set_power(0, 5 * FIX_ONE);
    info.set_rotation(1, Rot2 { c: 0, s: FIX_ONE });
    assert_eq!(info.power_left, 5 * FIX_ONE);
    assert_eq!(info.power_right, 0);
    assert_eq!(info.rotation_left, Rot2 { c: FIX_ONE, s: 0 });
    assert_eq!(info.rotation_right, Rot2 { c: 0, s: FIX_ONE });
    assert_eq!(info.rotation(1), Rot2 { c: 0, s: FIX_ONE });
    assert_eq!(info.power(0), 5 * FIX_ONE);
}

#[test]
fn negative_power_is_accepted() {
    let mut info = ThrusterInfo::new();
    info.set_power(1, -7 * FIX_ONE);
    assert_eq!(info.power_right, -7 * FIX_ONE);
}

#[test]
fn world_transform_of_root_is_local() {
    let mut h = Hierarchy::new();
    let t = Transform2 { pos: Vec2 { x: 5, y: 6 }, rot: Rot2 { c: 100, s: 200 } };
    let i = h.add_node(None, t);
    assert_eq!(h.world_transform(i), t);
}

#[test]
fn world_transform_composes_translations() {
    let mut h = Hierarchy::new();
    let ident = Rot2::identity();
    let root = h.add_node(None, Transform2 { pos: Vec2 { x: 10, y: 20 }, rot: ident });
    let child = h.add_node(Some(root), Transform2 { pos: Vec2 { x: 1, y: 2 }, rot: ident });
    let grandchild = h.add_node(
        Some(child),
        Transform2 { pos: Vec2 { x: 100, y: 200 }, rot: ident },
    );
    let w = h.world_transform(grandchild);
    assert_eq!(w.pos, Vec2 { x: 111, y: 222 });
    assert_eq!(w.rot, ident);
}

#[test]
fn world_transform_rotates_child_offsets() {
    let mut h = Hierarchy::new();
    let quarter = Rot2 { c: 0, s: FIX_ONE };
    let root = h.add_node(None, Transform2 { pos: Vec2 { x: 0, y: 0 }, rot: quarter });
    let child = h.add_node(
        Some(root),
        Transform2 { pos: Vec2 { x: 7 * FIX_ONE, y: 0 }, rot: Rot2::identity() },
    );
    let w = h.world_transform(child);
    // a quarter-turned parent carries its child's +X offset onto +Y
    assert_eq!(w.pos, Vec2 { x: 0, y: 7 * FIX_ONE });
    assert_eq!(w.rot, quarter);
}

#[test]
fn set_local_moves_a_node() {
    let mut h = Hierarchy::new();
    let i = h.add_node(None, Transform2 { pos: Vec2 { x: 1, y: 2 }, rot: Rot2::identity() });
    let moved = Transform2 { pos: Vec2 { x: 9, y: 9 }, rot: Rot2 { c: 0, s: -FIX_ONE } };
    h.set_local(i, moved);
    assert_eq!(h.world_transform(i), moved);
    assert_eq!(h.nodes[i].parent, None);
}

#[test]
fn set_body_transform_leaves_thrusters_alone() {
    let mut d = spawn_drone(demo_geometry(), demo_damping());
    let t = Transform2 { pos: Vec2 { x: 3 * FIX_ONE, y: 4 * FIX_ONE }, rot: Rot2 { c: 0, s: FIX_ONE } };
    d.set_body_transform(t);
    assert_eq!(d.body_transform(), t);
    assert_eq!(d.hier.nodes[1].local.pos, Vec2 { x: -96 * FIX_ONE, y: 0 });
    assert_eq!(d.hier.nodes[2].local.pos, Vec2 { x: 96 * FIX_ONE, y: 0 });
}
