//! Assembly of the drone: geometry constants, the body-and-thrusters
//! transform hierarchy, the per-thruster actuator state, and the compound
//! collision shape.
//!
//! The collider and the thruster nodes both take their offsets from the same
//! geometry description through the same functions, so the collision
//! geometry can never drift away from the geometry forces are applied at.

use crate::fixed::{POS_LIMIT, POWER_LIMIT};
use crate::geom::{rot2_ident, Rot2, Vec2};
use crate::hierarchy::{nodes_wf, Hierarchy, Node, Transform2};
use vstd::prelude::*;

verus! {

/// The fixed geometry of the assembly: the body disc radius, the distance
/// from the body centre to each thruster along the body's local X axis, and
/// the thruster disc radius. All fixed-point lengths.
#[derive(Clone, Copy, PartialEq, Eq, Structural, Debug)]
pub struct DroneGeometry {
    pub body_radius: i64,
    pub thruster_distance: i64,
    pub thruster_radius: i64,
}

impl DroneGeometry {
    /// Positive lengths within the crate's coordinate range.
    pub open spec fn wf(self) -> bool {
        &&& 0 < self.body_radius <= POS_LIMIT
        &&& 0 < self.thruster_distance <= POS_LIMIT
        &&& 0 < self.thruster_radius <= POS_LIMIT
    }
}

/// Damping factors handed through to the external rigid-body integrator.
/// Kept as explicit configuration — the crate itself never damps anything —
/// so a host can choose, for instance, whether the assembly's spin settles
/// (a positive angular factor) or is preserved (zero).
#[derive(Clone, Copy, PartialEq, Eq, Structural, Debug)]
pub struct DampingConfig {
    pub linear: i64,
    pub angular: i64,
}

/// X coordinate of thruster `i`'s local offset from the body centre:
/// thruster 0 ("left") sits at `-thruster_distance`, thruster 1 ("right")
/// at `+thruster_distance`, both on the body's local X axis.
pub open spec fn thruster_offset_x(g: DroneGeometry, i: int) -> int {
    if i == 0 {
        -(g.thruster_distance as int)
    } else {
        g.thruster_distance as int
    }
}

/// The local offset of thruster `i` from the body centre.
pub fn thruster_offset(g: &DroneGeometry, i: usize) -> (v: Vec2)
    requires
        g.wf(),
        i < 2,
    ensures
        v.x == thruster_offset_x(*g, i as int),
        v.y == 0,
{
    if i == 0 {
        Vec2 { x: -g.thruster_distance, y: 0 }
    } else {
        Vec2 { x: g.thruster_distance, y: 0 }
    }
}

/// The per-thruster actuator state: each of the two thrusters has an
/// independently settable nozzle deflection (a rotation relative to the
/// thruster's resting orientation) and an independently settable power.
/// Negative power is permitted and means reverse thrust.
#[derive(Clone, Copy, PartialEq, Eq, Structural, Debug)]
pub struct ThrusterInfo {
    pub rotation_left: Rot2,
    pub rotation_right: Rot2,
    pub power_left: i64,
    pub power_right: i64,
}

impl ThrusterInfo {
    /// Well-formed rotors and powers within the fixed-point range.
    pub open spec fn wf(self) -> bool {
        &&& self.rotation_left.wf()
        &&& self.rotation_right.wf()
        &&& -POWER_LIMIT <= self.power_left <= POWER_LIMIT
        &&& -POWER_LIMIT <= self.power_right <= POWER_LIMIT
    }

    /// The deflection of thruster `i` (0 is left, 1 is right).
    pub open spec fn spec_rotation(self, i: int) -> Rot2 {
        if i == 0 {
            self.rotation_left
        } else {
            self.rotation_right
        }
    }

    /// The power of thruster `i` (0 is left, 1 is right).
    pub open spec fn spec_power(self, i: int) -> i64 {
        if i == 0 {
            self.power_left
        } else {
            self.power_right
        }
    }

    /// The resting state: no deflection, no power.
    pub fn new() -> (t: ThrusterInfo)
        ensures
            t == (ThrusterInfo {
                rotation_left: rot2_ident(),
                rotation_right: rot2_ident(),
                power_left: 0,
                power_right: 0,
            }),
            t.wf(),
    {
        ThrusterInfo {
            rotation_left: Rot2::identity(),
            rotation_right: Rot2::identity(),
            power_left: 0,
            power_right: 0,
        }
    }

    /// Sets the deflection of thruster `i`, leaving everything else as is.
    pub fn set_rotation(&mut self, i: usize, r: Rot2)
        requires
            i < 2,
            r.wf(),
            old(self).wf(),
        ensures
            final(self).wf(),
            i == 0 ==> *final(self) == (ThrusterInfo { rotation_left: r, ..*old(self) }),
            i == 1 ==> *final(self) == (ThrusterInfo { rotation_right: r, ..*old(self) }),
    {
        if i == 0 {
            self.rotation_left = r;
        } else {
            self.rotation_right = r;
        }
    }

    /// Sets the power of thruster `i`, leaving everything else as is.
    pub fn set_power(&mut self, i: usize, p: i64)
        requires
            i < 2,
            -POWER_LIMIT <= p <= POWER_LIMIT,
            old(self).wf(),
        ensures
            final(self).wf(),
            i == 0 ==> *final(self) == (ThrusterInfo { power_left: p, ..*old(self) }),
            i == 1 ==> *final(self) == (ThrusterInfo { power_right: p, ..*old(self) }),
    {
        if i == 0 {
            self.power_left = p;
        } else {
            self.power_right = p;
        }
    }

    /// The deflection of thruster `i`.
    pub fn rotation(&self, i: usize) -> (r: Rot2)
        requires
            i < 2,
        ensures
            r == self.spec_rotation(i as int),
    {
        if i == 0 {
            self.rotation_left
        } else {
            self.rotation_right
        }
    }

    /// The power of thruster `i`.
    pub fn power(&self, i: usize) -> (p: i64)
        requires
            i < 2,
        ensures
            p == self.spec_power(i as int),
    {
        if i == 0 {
            self.power_left
        } else {
            self.power_right
        }
    }
}

/// One primitive disc of the compound collider: a local offset from the
/// body centre, a local rotation (always the identity for discs), and the
/// disc radius.
#[derive(Clone, Copy, PartialEq, Eq, Structural, Debug)]
pub struct ColliderDisc {
    pub offset: Vec2,
    pub rotation: Rot2,
    pub radius: i64,
}

/// What the compound collider of a drone with geometry `g` looks like: the
/// body disc at the origin and one thruster disc at each thruster offset,
/// in the order body, right thruster, left thruster.
pub open spec fn collider_matches(parts: Seq<ColliderDisc>, g: DroneGeometry) -> bool {
    &&& parts.len() == 3
    &&& parts[0].offset.x == 0
    &&& parts[0].offset.y == 0
    &&& parts[0].radius == g.body_radius
    &&& parts[1].offset.x == thruster_offset_x(g, 1)
    &&& parts[1].offset.y == 0
    &&& parts[1].radius == g.thruster_radius
    &&& parts[2].offset.x == thruster_offset_x(g, 0)
    &&& parts[2].offset.y == 0
    &&& parts[2].radius == g.thruster_radius
    &&& forall|k: int| 0 <= k < 3 ==> (#[trigger] parts[k]).rotation == rot2_ident()
}

/// Builds the compound collision shape for geometry `g`. The thruster discs
/// take their offsets from [`thruster_offset_x`], the same function that
/// places the thruster nodes in the hierarchy.
pub fn compound_collider(g: &DroneGeometry) -> (parts: Vec<ColliderDisc>)
    requires
        g.wf(),
    ensures
        collider_matches(parts@, *g),
{
    let mut parts: Vec<ColliderDisc> = Vec::new();
    parts.push(ColliderDisc {
        offset: Vec2 { x: 0, y: 0 },
        rotation: Rot2::identity(),
        radius: g.body_radius,
    });
    parts.push(ColliderDisc {
        offset: thruster_offset(g, 1),
        rotation: Rot2::identity(),
        radius: g.thruster_radius,
    });
    parts.push(ColliderDisc {
        offset: thruster_offset(g, 0),
        rotation: Rot2::identity(),
        radius: g.thruster_radius,
    });
    parts
}

/// The assembled drone: the transform hierarchy (node 0 the body, node 1
/// the left thruster, node 2 the right thruster), the geometry it was built
/// from, the actuator state, and the damping configuration for the external
/// integrator.
#[derive(Debug)]
pub struct Drone {
    pub hier: Hierarchy,
    pub geometry: DroneGeometry,
    pub info: ThrusterInfo,
    pub damping: DampingConfig,
}

impl Drone {
    /// The assembly invariant: three well-formed nodes — the body at the
    /// root, each thruster a child of the body, resting (identity) local
    /// rotation, and local offsets exactly where [`thruster_offset_x`] puts
    /// them for the stored geometry.
    pub open spec fn wf(self) -> bool {
        &&& self.geometry.wf()
        &&& self.info.wf()
        &&& nodes_wf(self.hier.nodes@)
        &&& self.hier.nodes@.len() == 3
        &&& self.hier.nodes@[0].parent is None
        &&& self.hier.nodes@[1].parent == Some(0usize)
        &&& self.hier.nodes@[2].parent == Some(0usize)
        &&& self.hier.nodes@[1].local.rot == rot2_ident()
        &&& self.hier.nodes@[2].local.rot == rot2_ident()
        &&& self.hier.nodes@[1].local.pos.x == thruster_offset_x(self.geometry, 0)
        &&& self.hier.nodes@[1].local.pos.y == 0
        &&& self.hier.nodes@[2].local.pos.x == thruster_offset_x(self.geometry, 1)
        &&& self.hier.nodes@[2].local.pos.y == 0
    }

    /// The body's transform — the world transform of the whole assembly,
    /// written back by the external integrator between ticks.
    pub fn body_transform(&self) -> (t: Transform2)
        requires
            self.wf(),
        ensures
            t == self.hier.nodes@[0].local,
    {
        self.hier.local_transform(0)
    }

    /// Moves the body to a new world transform. Only the body node changes;
    /// the thrusters ride along through the hierarchy.
    pub fn set_body_transform(&mut self, t: Transform2)
        requires
            old(self).wf(),
            t.wf(),
        ensures
            final(self).wf(),
            final(self).hier.nodes@[0].local == t,
            final(self).hier.nodes@[0].parent is None,
            final(self).hier.nodes@[1] == old(self).hier.nodes@[1],
            final(self).hier.nodes@[2] == old(self).hier.nodes@[2],
            final(self).geometry == old(self).geometry,
            final(self).info == old(self).info,
            final(self).damping == old(self).damping,
    {
        self.hier.set_local(0, t);
    }

    /// Sets the deflection of thruster `i`.
    pub fn set_thruster_rotation(&mut self, i: usize, r: Rot2)
        requires
            old(self).wf(),
            i < 2,
            r.wf(),
        ensures
            final(self).wf(),
            final(self).info.spec_rotation(i as int) == r,
            final(self).info.spec_rotation(1 - i as int) == old(self).info.spec_rotation(
                1 - i as int,
            ),
            final(self).info.spec_power(0) == old(self).info.spec_power(0),
            final(self).info.spec_power(1) == old(self).info.spec_power(1),
            final(self).hier == old(self).hier,
            final(self).geometry == old(self).geometry,
            final(self).damping == old(self).damping,
    {
        self.info.set_rotation(i, r);
    }

    /// Sets the power of thruster `i`.
    pub fn set_thruster_power(&mut self, i: usize, p: i64)
        requires
            old(self).wf(),
            i < 2,
            -POWER_LIMIT <= p <= POWER_LIMIT,
        ensures
            final(self).wf(),
            final(self).info.spec_power(i as int) == p,
            final(self).info.spec_power(1 - i as int) == old(self).info.spec_power(1 - i as int),
            final(self).info.spec_rotation(0) == old(self).info.spec_rotation(0),
            final(self).info.spec_rotation(1) == old(self).info.spec_rotation(1),
            final(self).hier == old(self).hier,
            final(self).geometry == old(self).geometry,
            final(self).damping == old(self).damping,
    {
        self.info.set_power(i, p);
    }
}

/// Assembles a drone: the body at the origin, unrotated, a thruster node on
/// each side at the offsets [`thruster_offset_x`] gives, resting actuator
/// state.
pub fn spawn_drone(geometry: DroneGeometry, damping: DampingConfig) -> (d: Drone)
    requires
        geometry.wf(),
    ensures
        d.wf(),
        d.geometry == geometry,
        d.damping == damping,
        d.hier.nodes@[0].local.pos.x == 0,
        d.hier.nodes@[0].local.pos.y == 0,
        d.hier.nodes@[0].local.rot == rot2_ident(),
        d.info == (ThrusterInfo {
            rotation_left: rot2_ident(),
            rotation_right: rot2_ident(),
            power_left: 0,
            power_right: 0,
        }),
{
    let mut hier: Hierarchy = Hierarchy::new();
    let body: usize = hier.add_node(None, Transform2::identity());
    let left_local: Transform2 = Transform2 {
        pos: thruster_offset(&geometry, 0),
        rot: Rot2::identity(),
    };
    let right_local: Transform2 = Transform2 {
        pos: thruster_offset(&geometry, 1),
        rot: Rot2::identity(),
    };
    hier.add_node(Some(body), left_local);
    hier.add_node(Some(body), right_local);
    Drone { hier, geometry, info: ThrusterInfo::new(), damping }
}

/// Law: for every geometry, the compound collider's thruster discs sit at
/// exactly the local offsets the transform hierarchy gives the thruster
/// nodes — the collision geometry and the force-application geometry agree
/// by construction.
pub proof fn lemma_collider_matches_hierarchy(d: Drone, parts: Seq<ColliderDisc>)
    requires
        d.wf(),
        collider_matches(parts, d.geometry),
    ensures
        parts[2].offset.x == d.hier.nodes@[1].local.pos.x,
        parts[2].offset.y == d.hier.nodes@[1].local.pos.y,
        parts[1].offset.x == d.hier.nodes@[2].local.pos.x,
        parts[1].offset.y == d.hier.nodes@[2].local.pos.y,
{
}

} // verus!
