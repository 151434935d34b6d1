//! The per-tick force resolver and the debug vector emitter.
//!
//! For each thruster the resolver computes the effective world rotation —
//! the body's world rotation composed with the thruster's own deflection —
//! rotates the canonical exhaust axis (the thruster's local +Y: a nozzle
//! pointed down relative to its own frame pushes up) by it, and scales the
//! result by `power * nominal`. The application point is the thruster's
//! world position from the transform hierarchy. The two resulting samples
//! are handed to an external rigid-body integrator, which derives torque
//! from the offset between application point and body centre and advances
//! the dynamics; this crate never integrates.

use crate::drone::Drone;
use crate::fixed::{in_i64, lemma_mul_bound, lemma_tdiv_bound, lemma_tdiv_mul_exact,
    lemma_tdiv_neg, tdiv, tdiv_i128, FIX_ONE, POS_LIMIT, POWER_LIMIT};
use crate::geom::{comp_c, comp_ci, comp_s, comp_si, lemma_compose_wf_bound, rot2_ident, rot_x,
    rot_xi, rot_y, rot_yi, Rot2, Vec2};
use crate::hierarchy::{node_wf, world_xform, xform_fits, Transform2};
use vstd::arithmetic::div_mod::lemma_div_multiples_vanish;
use vstd::prelude::*;

verus! {

/// The ephemeral per-tick value for one thruster: the world position the
/// force acts at, and the world-space force vector itself.
#[derive(Clone, Copy, PartialEq, Eq, Structural, Debug)]
pub struct ForceSample {
    pub origin: Vec2,
    pub vector: Vec2,
}

/// Cosine numerator of the effective world rotation of thruster `i`: the
/// body's world rotation composed with the thruster's deflection.
pub open spec fn eff_c(d: Drone, i: int) -> int {
    tdiv(comp_c(d.hier.nodes@[0].local.rot, d.info.spec_rotation(i)), FIX_ONE as int)
}

/// Sine numerator of the effective world rotation of thruster `i`.
pub open spec fn eff_s(d: Drone, i: int) -> int {
    tdiv(comp_s(d.hier.nodes@[0].local.rot, d.info.spec_rotation(i)), FIX_ONE as int)
}

/// X component of the force produced by a thruster whose effective world
/// rotation has sine numerator `s`, at power `p` and nominal
/// force-per-power `n`: the exhaust axis `(0, 1)` rotated by the effective
/// rotation and scaled by `p * n`, renormalised once.
pub open spec fn force_xi(s: int, p: int, n: int) -> int {
    tdiv(p * n * (-s), (FIX_ONE as int) * (FIX_ONE as int))
}

/// Y component of the thruster force; `c` is the cosine numerator of the
/// effective world rotation.
pub open spec fn force_yi(c: int, p: int, n: int) -> int {
    tdiv(p * n * c, (FIX_ONE as int) * (FIX_ONE as int))
}

/// Law: the force components really are the canonical exhaust axis `(0, 1)`
/// rotated by the effective rotation, scaled by `power * nominal` — the
/// direction of the force is the rotated +Y axis.
pub proof fn lemma_force_direction(c: int, s: int, p: int, n: int)
    ensures
        force_xi(s, p, n) == tdiv(p * n * rot_xi(c, s, 0, 1), (FIX_ONE as int) * (FIX_ONE as int)),
        force_yi(c, p, n) == tdiv(p * n * rot_yi(c, s, 0, 1), (FIX_ONE as int) * (FIX_ONE as int)),
{
    assert(rot_xi(c, s, 0, 1) == -s);
    assert(rot_yi(c, s, 0, 1) == c);
}

/// Law: zero power gives the zero force vector, for any rotation values.
pub proof fn lemma_zero_power(c: int, s: int, n: int)
    ensures
        force_xi(s, 0, n) == 0,
        force_yi(c, 0, n) == 0,
{
    let dd: int = (FIX_ONE as int) * (FIX_ONE as int);
    assert(0 * n * (-s) == 0) by (nonlinear_arith);
    assert(0 * n * c == 0) by (nonlinear_arith);
    assert(0 * dd == 0);
    lemma_tdiv_mul_exact(0, dd);
}

/// Law: reversing the sign of the power reverses the force vector exactly —
/// negative power is thrust antiparallel to the positive-power force at the
/// same rotations.
pub proof fn lemma_reverse_power(c: int, s: int, p: int, n: int)
    ensures
        force_xi(s, -p, n) == -force_xi(s, p, n),
        force_yi(c, -p, n) == -force_yi(c, p, n),
{
    let dd: int = (FIX_ONE as int) * (FIX_ONE as int);
    assert((-p) * n * (-s) == -(p * n * (-s))) by (nonlinear_arith);
    assert((-p) * n * c == -(p * n * c)) by (nonlinear_arith);
    lemma_tdiv_neg(p * n * (-s), dd);
    lemma_tdiv_neg(p * n * c, dd);
}

/// Law: with both powers zero the net applied force is the zero vector,
/// regardless of every rotation involved.
pub proof fn lemma_zero_net_force(cl: int, sl: int, cr: int, sr: int, n: int)
    ensures
        force_xi(sl, 0, n) + force_xi(sr, 0, n) == 0,
        force_yi(cl, 0, n) + force_yi(cr, 0, n) == 0,
{
    lemma_zero_power(cl, sl, n);
    lemma_zero_power(cr, sr, n);
}

/// Law: the world transform of thruster `i` of a well-formed drone carries
/// the body's rotation unchanged (the thruster node rests at the identity
/// rotation), and its position — the force application point — is the body's
/// world position plus the body-rotated local offset. Also discharges the
/// fit premise of [`crate::hierarchy::Hierarchy::world_transform`].
pub proof fn lemma_thruster_world(d: Drone, i: int)
    requires
        d.wf(),
        0 <= i < 2,
    ensures
        xform_fits(d.hier.nodes@, i + 1),
        world_xform(d.hier.nodes@, i + 1).0 == d.hier.nodes@[0].local.rot.c,
        world_xform(d.hier.nodes@, i + 1).1 == d.hier.nodes@[0].local.rot.s,
        world_xform(d.hier.nodes@, i + 1).2 == d.hier.nodes@[0].local.pos.x + tdiv(
            rot_x(d.hier.nodes@[0].local.rot, d.hier.nodes@[i + 1].local.pos),
            FIX_ONE as int,
        ),
        world_xform(d.hier.nodes@, i + 1).3 == d.hier.nodes@[0].local.pos.y + tdiv(
            rot_y(d.hier.nodes@[0].local.rot, d.hier.nodes@[i + 1].local.pos),
            FIX_ONE as int,
        ),
{
    let nodes = d.hier.nodes@;
    assert(node_wf(nodes[0], 0));
    assert(node_wf(nodes[i + 1], i + 1));
    let b = nodes[0].local;
    let n = nodes[i + 1].local;
    assert(world_xform(nodes, 0) == (b.rot.c as int, b.rot.s as int, b.pos.x as int,
    b.pos.y as int));
    assert(comp_ci(b.rot.c as int, b.rot.s as int, FIX_ONE as int, 0) == (b.rot.c as int) * (
    FIX_ONE as int));
    assert(comp_si(b.rot.c as int, b.rot.s as int, FIX_ONE as int, 0) == (b.rot.s as int) * (
    FIX_ONE as int));
    lemma_tdiv_mul_exact(b.rot.c as int, FIX_ONE as int);
    lemma_tdiv_mul_exact(b.rot.s as int, FIX_ONE as int);
    lemma_mul_bound(b.rot.c as int, n.pos.x as int, FIX_ONE as int, POS_LIMIT as int);
    lemma_mul_bound(b.rot.s as int, n.pos.y as int, FIX_ONE as int, POS_LIMIT as int);
    lemma_mul_bound(b.rot.s as int, n.pos.x as int, FIX_ONE as int, POS_LIMIT as int);
    lemma_mul_bound(b.rot.c as int, n.pos.y as int, FIX_ONE as int, POS_LIMIT as int);
    lemma_tdiv_bound(rot_x(b.rot, n.pos), 2 * (FIX_ONE as int) * (POS_LIMIT as int),
        FIX_ONE as int);
    lemma_tdiv_bound(rot_y(b.rot, n.pos), 2 * (FIX_ONE as int) * (POS_LIMIT as int),
        FIX_ONE as int);
    assert(2 * (FIX_ONE as int) * (POS_LIMIT as int) == 0x20_0000_0000_0000) by (nonlinear_arith)
        requires
            FIX_ONE == 4096i64,
            POS_LIMIT == 0x100_0000_0000i64,
    ;
    assert(xform_fits(nodes, 0));
    assert(in_i64(world_xform(nodes, i + 1).2));
    assert(in_i64(world_xform(nodes, i + 1).3));
    assert(xform_fits(nodes, i + 1));
}

/// Law: when the body is unrotated, the application point of thruster `i`
/// is the body's world position plus the thruster's plain local offset —
/// `(-thruster_distance, 0)` for the left thruster, `(+thruster_distance,
/// 0)` for the right.
pub proof fn lemma_application_point_identity(d: Drone, i: int)
    requires
        d.wf(),
        0 <= i < 2,
        d.hier.nodes@[0].local.rot == rot2_ident(),
    ensures
        world_xform(d.hier.nodes@, i + 1).2 == d.hier.nodes@[0].local.pos.x
            + crate::drone::thruster_offset_x(d.geometry, i),
        world_xform(d.hier.nodes@, i + 1).3 == d.hier.nodes@[0].local.pos.y,
{
    lemma_thruster_world(d, i);
    let nodes = d.hier.nodes@;
    let off = nodes[i + 1].local.pos;
    assert(rot_x(nodes[0].local.rot, off) == (off.x as int) * (FIX_ONE as int));
    assert(rot_y(nodes[0].local.rot, off) == (off.y as int) * (FIX_ONE as int));
    lemma_tdiv_mul_exact(off.x as int, FIX_ONE as int);
    lemma_tdiv_mul_exact(off.y as int, FIX_ONE as int);
}

/// The force vector of one thruster: the exhaust axis rotated by the
/// effective world rotation `rot`, scaled by `power * nominal` and
/// renormalised once. `rot` may be any composition of two well-formed
/// rotors, which bounds its components by twice the unit.
pub fn thrust_force(rot: &Rot2, power: i64, nominal: i64) -> (f: Vec2)
    requires
        -2 * FIX_ONE <= rot.c <= 2 * FIX_ONE,
        -2 * FIX_ONE <= rot.s <= 2 * FIX_ONE,
        -POWER_LIMIT <= power <= POWER_LIMIT,
        -POWER_LIMIT <= nominal <= POWER_LIMIT,
    ensures
        f.x == force_xi(rot.s as int, power as int, nominal as int),
        f.y == force_yi(rot.c as int, power as int, nominal as int),
{
    let p: i128 = power as i128;
    let n: i128 = nominal as i128;
    let c: i128 = rot.c as i128;
    let s: i128 = rot.s as i128;
    proof {
        let dd: int = (FIX_ONE as int) * (FIX_ONE as int);
        assert((FIX_ONE as int) * (FIX_ONE as int) == 0x100_0000) by (nonlinear_arith)
            requires
                FIX_ONE == 4096i64,
        ;
        lemma_mul_bound(p as int, n as int, POWER_LIMIT as int, POWER_LIMIT as int);
        assert((POWER_LIMIT as int) * (POWER_LIMIT as int) == 0x1000_0000_0000_0000)
            by (nonlinear_arith)
            requires
                POWER_LIMIT == 0x4000_0000i64,
        ;
        lemma_mul_bound(p * n, -s, 0x1000_0000_0000_0000, 2 * (FIX_ONE as int));
        lemma_mul_bound(p * n, c as int, 0x1000_0000_0000_0000, 2 * (FIX_ONE as int));
        assert(0x1000_0000_0000_0000 * (2 * (FIX_ONE as int)) == 0x200_0000_0000_0000_0000)
            by (nonlinear_arith)
            requires
                FIX_ONE == 4096i64,
        ;
        lemma_tdiv_bound(p * n * (-s), 0x200_0000_0000_0000_0000, dd);
        lemma_tdiv_bound(p * n * c, 0x200_0000_0000_0000_0000, dd);
        assert(0x200_0000_0000_0000_0000int == dd * 0x2_0000_0000_0000);
        lemma_div_multiples_vanish(0x2_0000_0000_0000, dd);
    }
    let xn: i128 = p * n * (-s);
    let yn: i128 = p * n * c;
    let dd: i128 = (FIX_ONE as i128) * (FIX_ONE as i128);
    let xq: i128 = tdiv_i128(xn, dd);
    let yq: i128 = tdiv_i128(yn, dd);
    Vec2 { x: xq as i64, y: yq as i64 }
}

/// The per-tick force resolution for both thrusters of a well-formed drone:
/// returns the (left, right) force samples. Each sample's origin is the
/// thruster's world position from the transform hierarchy, and each
/// sample's vector is the exhaust axis rotated by the body rotation
/// composed with that thruster's deflection, scaled by that thruster's
/// power times `nominal`.
pub fn apply_thruster_force(d: &Drone, nominal: i64) -> (samples: (ForceSample, ForceSample))
    requires
        d.wf(),
        -POWER_LIMIT <= nominal <= POWER_LIMIT,
    ensures
        samples.0.origin.x == world_xform(d.hier.nodes@, 1).2,
        samples.0.origin.y == world_xform(d.hier.nodes@, 1).3,
        samples.1.origin.x == world_xform(d.hier.nodes@, 2).2,
        samples.1.origin.y == world_xform(d.hier.nodes@, 2).3,
        samples.0.origin.x == d.hier.nodes@[0].local.pos.x + tdiv(
            rot_x(d.hier.nodes@[0].local.rot, d.hier.nodes@[1].local.pos),
            FIX_ONE as int,
        ),
        samples.0.origin.y == d.hier.nodes@[0].local.pos.y + tdiv(
            rot_y(d.hier.nodes@[0].local.rot, d.hier.nodes@[1].local.pos),
            FIX_ONE as int,
        ),
        samples.1.origin.x == d.hier.nodes@[0].local.pos.x + tdiv(
            rot_x(d.hier.nodes@[0].local.rot, d.hier.nodes@[2].local.pos),
            FIX_ONE as int,
        ),
        samples.1.origin.y == d.hier.nodes@[0].local.pos.y + tdiv(
            rot_y(d.hier.nodes@[0].local.rot, d.hier.nodes@[2].local.pos),
            FIX_ONE as int,
        ),
        samples.0.vector.x == force_xi(eff_s(*d, 0), d.info.spec_power(0) as int, nominal as int),
        samples.0.vector.y == force_yi(eff_c(*d, 0), d.info.spec_power(0) as int, nominal as int),
        samples.1.vector.x == force_xi(eff_s(*d, 1), d.info.spec_power(1) as int, nominal as int),
        samples.1.vector.y == force_yi(eff_c(*d, 1), d.info.spec_power(1) as int, nominal as int),
{
    proof {
        lemma_thruster_world(*d, 0);
        lemma_thruster_world(*d, 1);
        assert(node_wf(d.hier.nodes@[0], 0));
    }
    let left_world: Transform2 = d.hier.world_transform(1);
    let right_world: Transform2 = d.hier.world_transform(2);
    let defl_left: Rot2 = d.info.rotation(0);
    let defl_right: Rot2 = d.info.rotation(1);
    proof {
        lemma_compose_wf_bound(left_world.rot, defl_left);
        lemma_compose_wf_bound(right_world.rot, defl_right);
    }
    let eff_left: Rot2 = left_world.rot.compose(&defl_left);
    let eff_right: Rot2 = right_world.rot.compose(&defl_right);
    let force_left: Vec2 = thrust_force(&eff_left, d.info.power(0), nominal);
    let force_right: Vec2 = thrust_force(&eff_right, d.info.power(1), nominal);
    (
        ForceSample { origin: left_world.pos, vector: force_left },
        ForceSample { origin: right_world.pos, vector: force_right },
    )
}

/// The component-wise sum of the two samples' force vectors: what the pair
/// of thrusters applies to the body in total this tick.
pub fn net_force(a: &ForceSample, b: &ForceSample) -> (v: Vec2)
    requires
        in_i64(a.vector.x + b.vector.x),
        in_i64(a.vector.y + b.vector.y),
    ensures
        v.x == a.vector.x + b.vector.x,
        v.y == a.vector.y + b.vector.y,
{
    a.vector.plus(&b.vector)
}

/// The debug line segment for one force sample: from the application point
/// to the application point plus the force vector scaled by `debug_scale`
/// (a fixed-point factor). Purely observational; drawn for a single tick by
/// an external immediate-mode line renderer.
pub fn debug_segment(sample: &ForceSample, debug_scale: i64) -> (seg: (Vec2, Vec2))
    requires
        in_i64(sample.origin.x + tdiv(sample.vector.x * debug_scale, FIX_ONE as int)),
        in_i64(sample.origin.y + tdiv(sample.vector.y * debug_scale, FIX_ONE as int)),
    ensures
        seg.0 == sample.origin,
        seg.1.x == sample.origin.x + tdiv(sample.vector.x * debug_scale, FIX_ONE as int),
        seg.1.y == sample.origin.y + tdiv(sample.vector.y * debug_scale, FIX_ONE as int),
{
    let big: i128 = 0x8000_0000_0000_0000;
    let sx: i128 = (sample.vector.x as i128) * (debug_scale as i128);
    let sy: i128 = (sample.vector.y as i128) * (debug_scale as i128);
    proof {
        lemma_mul_bound(sample.vector.x as int, debug_scale as int, big as int, big as int);
        lemma_mul_bound(sample.vector.y as int, debug_scale as int, big as int, big as int);
        lemma_tdiv_bound(sx as int, (big as int) * (big as int), FIX_ONE as int);
        lemma_tdiv_bound(sy as int, (big as int) * (big as int), FIX_ONE as int);
    }
    let qx: i128 = tdiv_i128(sx, FIX_ONE as i128);
    let qy: i128 = tdiv_i128(sy, FIX_ONE as i128);
    let ex: i128 = (sample.origin.x as i128) + qx;
    let ey: i128 = (sample.origin.y as i128) + qy;
    (sample.origin, Vec2 { x: ex as i64, y: ey as i64 })
}

} // verus!
