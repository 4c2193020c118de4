//! The mass aggregation pass: a post-order traversal filling in each
//! node's total enclosed mass.

use vstd::prelude::*;

use crate::fixed::{sat_add, add_sat};
use crate::tree::{Tree, NodeState, Quadrants};

verus! {

/// What one aggregation pass yields: every node's `total_mass` set
/// bottom-up — 0 for an empty node, the held particle's mass for a leaf,
/// the saturating sum of the four children's totals for an internal node.
/// Centers and contents are untouched.
pub open spec fn spec_aggregated(t: Tree) -> Tree
    decreases t,
{
    match t.state {
        NodeState::Empty => Tree { center: t.center, state: t.state, total_mass: 0 },
        NodeState::Leaf(p) => Tree { center: t.center, state: t.state, total_mass: p.mass },
        NodeState::Internal(b) => {
            let a0 = spec_aggregated(b.q0);
            let a1 = spec_aggregated(b.q1);
            let a2 = spec_aggregated(b.q2);
            let a3 = spec_aggregated(b.q3);
            let m = sat_add(
                sat_add(
                    sat_add(a0.total_mass as int, a1.total_mass as int),
                    a2.total_mass as int,
                ),
                a3.total_mass as int,
            );
            Tree {
                center: t.center,
                state: NodeState::Internal(Box::new(Quadrants { q0: a0, q1: a1, q2: a2, q3: a3 })),
                total_mass: m as i64,
            }
        },
    }
}

/// The aggregation pass over a node taken by value.
fn aggregated_tree(t: Tree) -> (r: Tree)
    ensures
        r == spec_aggregated(t),
    decreases t,
{
    let Tree { center, state, total_mass } = t;
    match state {
        NodeState::Empty => Tree { center, state: NodeState::Empty, total_mass: 0 },
        NodeState::Leaf(p) => Tree { center, state: NodeState::Leaf(p), total_mass: p.mass },
        NodeState::Internal(b) => {
            let qs: Quadrants = *b;
            let a0 = aggregated_tree(qs.q0);
            let a1 = aggregated_tree(qs.q1);
            let a2 = aggregated_tree(qs.q2);
            let a3 = aggregated_tree(qs.q3);
            let m = add_sat(add_sat(add_sat(a0.total_mass, a1.total_mass), a2.total_mass),
                a3.total_mass);
            Tree {
                center,
                state: NodeState::Internal(Box::new(Quadrants { q0: a0, q1: a1, q2: a2, q3: a3 })),
                total_mass: m,
            }
        },
    }
}

impl Tree {
    /// Runs the aggregation pass and returns the total enclosed mass at
    /// this node. The name notwithstanding, no averaging occurs:
    /// the value is the (saturating) sum of the held particles' masses.
    pub fn build_average_mass(&mut self) -> (m: i64)
        ensures
            *final(self) == spec_aggregated(*old(self)),
            m == final(self).total_mass,
    {
        let mut taken = Tree::new();
        core::mem::swap(self, &mut taken);
        *self = aggregated_tree(taken);
        self.total_mass
    }
}

} // verus!
