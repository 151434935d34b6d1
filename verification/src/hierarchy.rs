//! The parent-child transform hierarchy.
//!
//! Entities live in an arena of nodes; each node stores a transform relative
//! to its parent, and a parent always precedes its children in the arena, so
//! every ancestor chain is finite. The world transform of a node composes
//! the local transforms root-to-leaf: a child's world rotation is its
//! parent's world rotation composed with the child's local rotation, and a
//! child's world position is the parent's world position plus the parent's
//! world rotation applied to the child's local position offset. A node with
//! no parent is its own world transform.

use crate::fixed::{in_i64, lemma_mul_bound, lemma_tdiv_bound, tdiv, tdiv_i128, FIX_ONE,
    POS_LIMIT};
use crate::geom::{comp_ci, comp_si, rot_xi, rot_yi, Rot2, Vec2};
use vstd::prelude::*;

verus! {

/// A position and a rotation: one node's transform relative to its parent.
#[derive(Clone, Copy, PartialEq, Eq, Structural, Debug)]
pub struct Transform2 {
    pub pos: Vec2,
    pub rot: Rot2,
}

impl Transform2 {
    /// A transform the hierarchy accepts: a well-formed rotor and position
    /// coordinates within the crate's fixed-point range.
    pub open spec fn wf(self) -> bool {
        &&& self.rot.wf()
        &&& -POS_LIMIT <= self.pos.x <= POS_LIMIT
        &&& -POS_LIMIT <= self.pos.y <= POS_LIMIT
    }

    /// The identity transform: at the origin, unrotated.
    pub fn identity() -> (t: Transform2)
        ensures
            t == (Transform2 { pos: Vec2 { x: 0, y: 0 }, rot: crate::geom::rot2_ident() }),
            t.wf(),
    {
        Transform2 { pos: Vec2 { x: 0, y: 0 }, rot: Rot2::identity() }
    }
}

/// One arena entry: the index of the parent node, if any, and the local
/// transform relative to it.
#[derive(Clone, Copy, Debug)]
pub struct Node {
    pub parent: Option<usize>,
    pub local: Transform2,
}

/// What the arena guarantees of the node at index `j`: its local transform
/// is well-formed and its parent, if any, comes earlier in the arena.
pub open spec fn node_wf(n: Node, j: int) -> bool {
    &&& n.local.wf()
    &&& (n.parent matches Some(p) ==> p < j)
}

/// Every node of the arena satisfies [`node_wf`].
pub open spec fn nodes_wf(nodes: Seq<Node>) -> bool {
    forall|j: int| 0 <= j < nodes.len() ==> node_wf(#[trigger] nodes[j], j)
}

/// The world transform of node `i`, as the exact mathematical quadruple
/// (rotation cosine, rotation sine, position x, position y). A root node's
/// world transform is its local transform; a child's composes its parent's,
/// renormalising each rotation product and each rotated offset by
/// [`FIX_ONE`].
pub open spec fn world_xform(nodes: Seq<Node>, i: int) -> (int, int, int, int)
    decreases i,
{
    if 0 <= i < nodes.len() {
        let n = nodes[i];
        match n.parent {
            Option::None => (
                n.local.rot.c as int,
                n.local.rot.s as int,
                n.local.pos.x as int,
                n.local.pos.y as int,
            ),
            Option::Some(p) => if p < i {
                let pt = world_xform(nodes, p as int);
                (
                    tdiv(comp_ci(pt.0, pt.1, n.local.rot.c as int, n.local.rot.s as int), FIX_ONE as int),
                    tdiv(comp_si(pt.0, pt.1, n.local.rot.c as int, n.local.rot.s as int), FIX_ONE as int),
                    pt.2 + tdiv(rot_xi(pt.0, pt.1, n.local.pos.x as int, n.local.pos.y as int), FIX_ONE as int),
                    pt.3 + tdiv(rot_yi(pt.0, pt.1, n.local.pos.x as int, n.local.pos.y as int), FIX_ONE as int),
                )
            } else {
                (FIX_ONE as int, 0, 0, 0)
            },
        }
    } else {
        (FIX_ONE as int, 0, 0, 0)
    }
}

/// Whether every world transform along the ancestor chain of node `i` fits
/// the crate's 64-bit fixed-point range — the machine-limit premise of
/// [`Hierarchy::world_transform`].
pub open spec fn xform_fits(nodes: Seq<Node>, i: int) -> bool
    decreases i,
{
    if 0 <= i < nodes.len() {
        match nodes[i].parent {
            Option::None => true,
            Option::Some(p) => if p < i {
                &&& xform_fits(nodes, p as int)
                &&& in_i64(world_xform(nodes, i).0)
                &&& in_i64(world_xform(nodes, i).1)
                &&& in_i64(world_xform(nodes, i).2)
                &&& in_i64(world_xform(nodes, i).3)
            } else {
                true
            },
        }
    } else {
        true
    }
}

/// The arena of transform nodes.
#[derive(Debug)]
pub struct Hierarchy {
    pub nodes: Vec<Node>,
}

impl Hierarchy {
    /// An empty hierarchy.
    pub fn new() -> (h: Hierarchy)
        ensures
            h.nodes@.len() == 0,
            nodes_wf(h.nodes@),
    {
        Hierarchy { nodes: Vec::new() }
    }

    /// How many nodes the hierarchy holds.
    pub fn len(&self) -> (n: usize)
        ensures
            n == self.nodes@.len(),
    {
        self.nodes.len()
    }

    /// Appends a node and returns its index. The parent, if any, must
    /// already be present, which keeps every ancestor chain acyclic.
    pub fn add_node(&mut self, parent: Option<usize>, local: Transform2) -> (i: usize)
        requires
            nodes_wf(old(self).nodes@),
            local.wf(),
            parent matches Some(p) ==> p < old(self).nodes@.len(),
            old(self).nodes@.len() < usize::MAX,
        ensures
            i == old(self).nodes@.len(),
            final(self).nodes@ == old(self).nodes@.push(Node { parent, local }),
            nodes_wf(final(self).nodes@),
    {
        let i: usize = self.nodes.len();
        self.nodes.push(Node { parent, local });
        proof {
            assert forall|j: int| 0 <= j < self.nodes@.len() implies node_wf(
                #[trigger] self.nodes@[j],
                j,
            ) by {
                if j < self.nodes@.len() - 1 {
                    assert(self.nodes@[j] == old(self).nodes@[j]);
                }
            }
        }
        i
    }

    /// The local transform of node `i`.
    pub fn local_transform(&self, i: usize) -> (t: Transform2)
        requires
            i < self.nodes@.len(),
        ensures
            t == self.nodes@[i as int].local,
    {
        self.nodes[i].local
    }

    /// Replaces the local transform of node `i`, keeping its parent.
    pub fn set_local(&mut self, i: usize, local: Transform2)
        requires
            nodes_wf(old(self).nodes@),
            i < old(self).nodes@.len(),
            local.wf(),
        ensures
            final(self).nodes@ == old(self).nodes@.update(
                i as int,
                Node { parent: old(self).nodes@[i as int].parent, local },
            ),
            nodes_wf(final(self).nodes@),
    {
        let parent: Option<usize> = self.nodes[i].parent;
        self.nodes.set(i, Node { parent, local });
        proof {
            assert forall|j: int| 0 <= j < self.nodes@.len() implies node_wf(
                #[trigger] self.nodes@[j],
                j,
            ) by {
                if j != i {
                    assert(self.nodes@[j] == old(self).nodes@[j]);
                }
            }
        }
    }

    /// The world transform of node `i`, composed root-to-leaf along the
    /// ancestor chain exactly as [`world_xform`] states.
    pub fn world_transform(&self, i: usize) -> (t: Transform2)
        requires
            nodes_wf(self.nodes@),
            i < self.nodes@.len(),
            xform_fits(self.nodes@, i as int),
        ensures
            t.rot.c == world_xform(self.nodes@, i as int).0,
            t.rot.s == world_xform(self.nodes@, i as int).1,
            t.pos.x == world_xform(self.nodes@, i as int).2,
            t.pos.y == world_xform(self.nodes@, i as int).3,
        decreases i,
    {
        let n: Node = self.nodes[i];
        match n.parent {
            Option::None => n.local,
            Option::Some(p) => {
                proof {
                    assert(node_wf(self.nodes@[i as int], i as int));
                }
                let pt: Transform2 = self.world_transform(p);
                let pc: i128 = pt.rot.c as i128;
                let ps: i128 = pt.rot.s as i128;
                let lc: i128 = n.local.rot.c as i128;
                let ls: i128 = n.local.rot.s as i128;
                let lx: i128 = n.local.pos.x as i128;
                let ly: i128 = n.local.pos.y as i128;
                proof {
                    let big: int = i64::MAX as int + 1;
                    lemma_mul_bound(pc as int, lc as int, big, FIX_ONE as int);
                    lemma_mul_bound(ps as int, ls as int, big, FIX_ONE as int);
                    lemma_mul_bound(ps as int, lc as int, big, FIX_ONE as int);
                    lemma_mul_bound(pc as int, ls as int, big, FIX_ONE as int);
                    lemma_mul_bound(pc as int, lx as int, big, POS_LIMIT as int);
                    lemma_mul_bound(ps as int, ly as int, big, POS_LIMIT as int);
                    lemma_mul_bound(ps as int, lx as int, big, POS_LIMIT as int);
                    lemma_mul_bound(pc as int, ly as int, big, POS_LIMIT as int);
                }
                let cn: i128 = pc * lc - ps * ls;
                let sn: i128 = ps * lc + pc * ls;
                let xn: i128 = pc * lx - ps * ly;
                let yn: i128 = ps * lx + pc * ly;
                proof {
                    let big: int = i64::MAX as int + 1;
                    lemma_tdiv_bound(xn as int, 2 * big * (POS_LIMIT as int), FIX_ONE as int);
                    lemma_tdiv_bound(yn as int, 2 * big * (POS_LIMIT as int), FIX_ONE as int);
                }
                let cq: i128 = tdiv_i128(cn, FIX_ONE as i128);
                let sq: i128 = tdiv_i128(sn, FIX_ONE as i128);
                let xq: i128 = tdiv_i128(xn, FIX_ONE as i128);
                let yq: i128 = tdiv_i128(yn, FIX_ONE as i128);
                let x_out: i128 = (pt.pos.x as i128) + xq;
                let y_out: i128 = (pt.pos.y as i128) + yq;
                Transform2 {
                    pos: Vec2 { x: x_out as i64, y: y_out as i64 },
                    rot: Rot2 { c: cq as i64, s: sq as i64 },
                }
            },
        }
    }
}

} // verus!
