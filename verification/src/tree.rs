//! The spatial subdivision tree: quadrant nodes and point insertion.

use vstd::prelude::*;

use crate::fixed::{div_trunc, sat_add, sat_sub, add_sat, sub_sat, div_wide};
use crate::particle::Particle;
use crate::vector::Vector;

verus! {

/// Edge length of the nominal simulation domain (fixed-point): a square of
/// half-width `BOX_SIZE / 2` centered on the origin. Points outside it are
/// still routed by sign comparison, without any bound check; the constant
/// also feeds the opening-angle ratio of the force evaluation.
pub const BOX_SIZE: i64 = 2_000_000_000;

/// Bound on the subdivision depth below the root. Two distinct particles
/// separate after finitely many subdivisions, but exactly co-located ones
/// never would; once the budget is exhausted the particles share one leaf
/// bucket instead of recursing forever.
pub const MAX_DEPTH: u32 = 64;

/// The content of a node: exactly one of nothing, a single particle
/// bucket, or four child quadrants. The three states are mutually
/// exclusive by construction.
#[derive(Debug)]
pub enum NodeState {
    Empty,
    Leaf(Particle),
    Internal(Box<Quadrants>),
}

/// The four children of a subdivided node, one per quadrant: `q0`
/// upper-right, `q1` lower-right, `q2` lower-left, `q3` upper-left.
#[derive(Debug)]
pub struct Quadrants {
    pub q0: Tree,
    pub q1: Tree,
    pub q2: Tree,
    pub q3: Tree,
}

/// A quadrant node: its fixed geometric center, its content, and the total
/// enclosed mass as of the last aggregation pass (0 until then).
#[derive(Debug)]
pub struct Tree {
    pub center: Vector,
    pub state: NodeState,
    pub total_mass: i64,
}

/// Quadrant index of point `p` relative to center `c`: 0 upper-right,
/// 1 lower-right, 2 lower-left, 3 upper-left. The boundaries `x >= c.x`
/// and `y >= c.y` belong to the right and upper halves.
pub open spec fn spec_quadrant(c: Vector, p: Vector) -> int {
    if p.x >= c.x && p.y >= c.y {
        0
    } else if p.x >= c.x {
        1
    } else if p.y < c.y {
        2
    } else {
        3
    }
}

/// Center offset of a node's children: half the absolute x-coordinate of
/// the node's own center, or half the domain when that is zero (the root).
pub open spec fn spec_child_offset(c: Vector) -> int {
    let off = div_trunc(
        if c.x < 0 {
            -(c.x as int)
        } else {
            c.x as int
        },
        2,
    );
    if off == 0 {
        (BOX_SIZE as int) / 2
    } else {
        off
    }
}

/// The center of child quadrant `q` of a node centered at `c`.
pub open spec fn spec_child_center(c: Vector, q: int) -> Vector {
    let off = spec_child_offset(c);
    if q == 0 {
        Vector { x: sat_add(c.x as int, off) as i64, y: sat_add(c.y as int, off) as i64 }
    } else if q == 1 {
        Vector { x: sat_add(c.x as int, off) as i64, y: sat_sub(c.y as int, off) as i64 }
    } else if q == 2 {
        Vector { x: sat_sub(c.x as int, off) as i64, y: sat_sub(c.y as int, off) as i64 }
    } else {
        Vector { x: sat_sub(c.x as int, off) as i64, y: sat_add(c.y as int, off) as i64 }
    }
}

/// A fresh, empty child node for quadrant `q` of a node centered at `c`.
pub open spec fn spec_empty_child(c: Vector, q: int) -> Tree {
    Tree { center: spec_child_center(c, q), state: NodeState::Empty, total_mass: 0 }
}

/// The four fresh children a leaf subdivides into.
pub open spec fn spec_fresh_quadrants(c: Vector) -> Quadrants {
    Quadrants {
        q0: spec_empty_child(c, 0),
        q1: spec_empty_child(c, 1),
        q2: spec_empty_child(c, 2),
        q3: spec_empty_child(c, 3),
    }
}

/// Two co-located particles merge into one bucket at the first one's
/// position; the masses accumulate.
pub open spec fn spec_merged(q: Particle, p: Particle) -> Particle {
    Particle {
        position: q.position,
        velocity: q.velocity,
        mass: sat_add(q.mass as int, p.mass as int) as i64,
    }
}

/// What inserting `p` into `t` yields, with `depth` subdivisions still
/// allowed below `t`: an empty node becomes a leaf; a leaf either merges
/// (same position, or no depth left) or subdivides and re-routes both
/// particles; an internal node routes `p` into the matching child.
pub open spec fn spec_inserted(t: Tree, p: Particle, depth: nat) -> Tree
    decreases depth, t,
{
    match t.state {
        NodeState::Empty => Tree {
            center: t.center,
            state: NodeState::Leaf(p),
            total_mass: t.total_mass,
        },
        NodeState::Leaf(q) => {
            if depth == 0 || q.position == p.position {
                Tree {
                    center: t.center,
                    state: NodeState::Leaf(spec_merged(q, p)),
                    total_mass: t.total_mass,
                }
            } else {
                let qs = spec_fresh_quadrants(t.center);
                let qs1 = spec_routed(qs, t.center, q, (depth - 1) as nat);
                let qs2 = spec_routed(qs1, t.center, p, (depth - 1) as nat);
                Tree {
                    center: t.center,
                    state: NodeState::Internal(Box::new(qs2)),
                    total_mass: t.total_mass,
                }
            }
        },
        NodeState::Internal(b) => {
            let d2 = if depth == 0 {
                0
            } else {
                (depth - 1) as nat
            };
            Tree {
                center: t.center,
                state: NodeState::Internal(Box::new(spec_routed(*b, t.center, p, d2))),
                total_mass: t.total_mass,
            }
        },
    }
}

/// Routing within a subdivided node: `p` is inserted into the child of its
/// quadrant; the other three children are untouched.
pub open spec fn spec_routed(qs: Quadrants, c: Vector, p: Particle, depth: nat) -> Quadrants
    decreases depth, qs,
{
    let q = spec_quadrant(c, p.position);
    if q == 0 {
        Quadrants { q0: spec_inserted(qs.q0, p, depth), q1: qs.q1, q2: qs.q2, q3: qs.q3 }
    } else if q == 1 {
        Quadrants { q0: qs.q0, q1: spec_inserted(qs.q1, p, depth), q2: qs.q2, q3: qs.q3 }
    } else if q == 2 {
        Quadrants { q0: qs.q0, q1: qs.q1, q2: spec_inserted(qs.q2, p, depth), q3: qs.q3 }
    } else {
        Quadrants { q0: qs.q0, q1: qs.q1, q2: qs.q2, q3: spec_inserted(qs.q3, p, depth) }
    }
}

/// The particles a subtree holds, in traversal order (upper-right,
/// lower-right, lower-left, upper-left).
pub open spec fn spec_particles(t: Tree) -> Seq<Particle>
    decreases t,
{
    match t.state {
        NodeState::Empty => Seq::empty(),
        NodeState::Leaf(p) => seq![p],
        NodeState::Internal(b) => spec_particles(b.q0) + spec_particles(b.q1) + spec_particles(
            b.q2,
        ) + spec_particles(b.q3),
    }
}

/// The mass a subtree holds, as an unbounded integer.
pub open spec fn spec_mass_sum(t: Tree) -> int
    decreases t,
{
    match t.state {
        NodeState::Empty => 0,
        NodeState::Leaf(p) => p.mass as int,
        NodeState::Internal(b) => spec_mass_sum(b.q0) + spec_mass_sum(b.q1) + spec_mass_sum(b.q2)
            + spec_mass_sum(b.q3),
    }
}

/// Every particle mass held in the subtree is nonnegative.
pub open spec fn spec_masses_nonneg(t: Tree) -> bool
    decreases t,
{
    match t.state {
        NodeState::Empty => true,
        NodeState::Leaf(p) => p.mass >= 0,
        NodeState::Internal(b) => spec_masses_nonneg(b.q0) && spec_masses_nonneg(b.q1)
            && spec_masses_nonneg(b.q2) && spec_masses_nonneg(b.q3),
    }
}

/// The empty root tree, centered on the origin.
pub open spec fn spec_new_tree() -> Tree {
    Tree {
        center: Vector { x: 0, y: 0 },
        state: NodeState::Empty,
        total_mass: 0,
    }
}

/// Bucket merge of two co-located particles, executable form.
fn merged(q: Particle, p: Particle) -> (r: Particle)
    ensures
        r == spec_merged(q, p),
{
    Particle { position: q.position, velocity: q.velocity, mass: add_sat(q.mass, p.mass) }
}

/// Builds the four fresh, empty children of a node centered at `c`.
fn fresh_quadrants(c: Vector) -> (qs: Quadrants)
    ensures
        qs == spec_fresh_quadrants(c),
{
    let ax: i128 = if c.x < 0 {
        -(c.x as i128)
    } else {
        c.x as i128
    };
    proof {
        vstd::arithmetic::div_mod::lemma_div_is_ordered(ax as int, i64::MAX as int + 1, 2);
    }
    let mut off: i64 = div_wide(ax, 2) as i64;
    if off == 0 {
        off = BOX_SIZE / 2;
    }
    let q0 = Tree {
        center: Vector { x: add_sat(c.x, off), y: add_sat(c.y, off) },
        state: NodeState::Empty,
        total_mass: 0,
    };
    let q1 = Tree {
        center: Vector { x: add_sat(c.x, off), y: sub_sat(c.y, off) },
        state: NodeState::Empty,
        total_mass: 0,
    };
    let q2 = Tree {
        center: Vector { x: sub_sat(c.x, off), y: sub_sat(c.y, off) },
        state: NodeState::Empty,
        total_mass: 0,
    };
    let q3 = Tree {
        center: Vector { x: sub_sat(c.x, off), y: add_sat(c.y, off) },
        state: NodeState::Empty,
        total_mass: 0,
    };
    Quadrants { q0, q1, q2, q3 }
}

/// Inserts `particle` below a node taken by value, with `depth`
/// subdivisions still allowed.
fn inserted_node(t: Tree, particle: Particle, depth: u32) -> (r: Tree)
    ensures
        r == spec_inserted(t, particle, depth as nat),
    decreases depth, t,
{
    let Tree { center, state, total_mass } = t;
    match state {
        NodeState::Empty => Tree { center, state: NodeState::Leaf(particle), total_mass },
        NodeState::Leaf(q) => {
            if depth == 0 || (q.position == particle.position) {
                Tree { center, state: NodeState::Leaf(merged(q, particle)), total_mass }
            } else {
                let qs = fresh_quadrants(center);
                let qs1 = route_into(qs, center, q, depth - 1);
                let qs2 = route_into(qs1, center, particle, depth - 1);
                Tree { center, state: NodeState::Internal(Box::new(qs2)), total_mass }
            }
        },
        NodeState::Internal(b) => {
            let d2: u32 = if depth == 0 {
                0
            } else {
                depth - 1
            };
            let qs = route_into(*b, center, particle, d2);
            Tree { center, state: NodeState::Internal(Box::new(qs)), total_mass }
        },
    }
}

/// Routes `particle` into the child quadrant its position selects.
fn route_into(qs: Quadrants, center: Vector, particle: Particle, depth: u32) -> (r: Quadrants)
    ensures
        r == spec_routed(qs, center, particle, depth as nat),
    decreases depth, qs,
{
    let p = particle.position;
    if p.x >= center.x && p.y >= center.y {
        Quadrants { q0: inserted_node(qs.q0, particle, depth), q1: qs.q1, q2: qs.q2, q3: qs.q3 }
    } else if p.x >= center.x {
        Quadrants { q0: qs.q0, q1: inserted_node(qs.q1, particle, depth), q2: qs.q2, q3: qs.q3 }
    } else if p.y < center.y {
        Quadrants { q0: qs.q0, q1: qs.q1, q2: inserted_node(qs.q2, particle, depth), q3: qs.q3 }
    } else {
        Quadrants { q0: qs.q0, q1: qs.q1, q2: qs.q2, q3: inserted_node(qs.q3, particle, depth) }
    }
}

impl Tree {
    /// A fresh, empty tree for one simulation step, centered on the origin.
    pub fn new() -> (t: Tree)
        ensures
            t == spec_new_tree(),
    {
        Tree {
            center: Vector { x: 0, y: 0 },
            state: NodeState::Empty,
            total_mass: 0,
        }
    }

    /// Inserts a copy of `node` into the tree, subdividing lazily, with at
    /// most `MAX_DEPTH` subdivisions below the root. The stored copy never
    /// aliases the caller's particle list.
    pub fn append_node(&mut self, node: &Particle)
        ensures
            *final(self) == spec_inserted(*old(self), *node, MAX_DEPTH as nat),
    {
        let mut taken = Tree::new();
        core::mem::swap(self, &mut taken);
        *self = inserted_node(taken, *node, MAX_DEPTH);
    }
}

} // verus!
