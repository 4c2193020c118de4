//! The force evaluation pass: a per-target traversal driven by the
//! opening-angle criterion, followed by position integration.

use vstd::prelude::*;

use crate::particle::{Particle, spec_apply_force, spec_update_position};
use crate::tree::{Tree, NodeState, BOX_SIZE};
use crate::vector::{Vector, spec_distance};

verus! {

/// Numerator of the default opening-angle threshold: together with
/// `THETA_DEN` it encodes `THETA = 1/2`. Smaller is more accurate and
/// slower, larger is faster and coarser.
pub const THETA_NUM: u64 = 1;

/// Denominator of the default opening-angle threshold (see `THETA_NUM`).
pub const THETA_DEN: u64 = 2;

/// The opening-angle test: a subtree centered at `c` is far enough from a
/// target at `p` to treat as one pseudo-particle when
/// `BOX_SIZE / distance > theta`, stated over a rational
/// `theta = tn / td`. The ratio uses the fixed global domain size, not the
/// node's own shrinking cell size — the simulation rule this crate
/// implements. At distance zero the test holds for every positive
/// denominator (the ratio's limit) and the coincidence test then skips the
/// force; with a zero denominator nothing is ever far, so the traversal
/// recurses all the way to the leaves.
pub open spec fn spec_far(c: Vector, p: Vector, tn: int, td: int) -> bool {
    (BOX_SIZE as int) * td > tn * spec_distance(c, p)
}

/// The pseudo-particle standing for a whole subtree: its aggregated mass
/// placed at its fixed geometric center (not a mass-weighted centroid).
pub open spec fn spec_pseudo(t: Tree) -> Particle {
    Particle { position: t.center, velocity: Vector { x: 0, y: 0 }, mass: t.total_mass }
}

/// What the traversal does to a target `p`: nothing for a massless
/// (empty) region; for a far subtree, one force application from the
/// pseudo-particle (skipped when the target sits exactly on the node
/// center); otherwise the leaf's direct force (skipped when the target
/// sits exactly on the stored particle), or the four children in order.
pub open spec fn spec_accelerated(t: Tree, p: Particle, dt: int, tn: int, td: int) -> Particle
    decreases t,
{
    if t.total_mass == 0 {
        p
    } else if spec_far(t.center, p.position, tn, td) {
        if p.position == t.center {
            p
        } else {
            spec_apply_force(p, spec_pseudo(t), dt)
        }
    } else {
        match t.state {
            NodeState::Empty => p,
            NodeState::Leaf(q) => if p.position == q.position {
                p
            } else {
                spec_apply_force(p, q, dt)
            },
            NodeState::Internal(b) => {
                let p0 = spec_accelerated(b.q0, p, dt, tn, td);
                let p1 = spec_accelerated(b.q1, p0, dt, tn, td);
                let p2 = spec_accelerated(b.q2, p1, dt, tn, td);
                spec_accelerated(b.q3, p2, dt, tn, td)
            },
        }
    }
}

/// One evaluation step for a single target: the accumulated force
/// contributions, then position integration. A tree whose root is a bare
/// leaf holds a single particle, which has nothing to attract it: no
/// force applies, but the position still integrates.
pub open spec fn spec_unit_step(t: Tree, p: Particle, dt: int, tn: int, td: int) -> Particle {
    if t.state is Leaf {
        spec_update_position(p, dt)
    } else {
        spec_update_position(spec_accelerated(t, p, dt, tn, td), dt)
    }
}

impl Tree {
    /// Accumulates this subtree's force contributions onto `point`'s
    /// velocity, approximating far subtrees by their pseudo-particle.
    fn get_acc_vector(&self, point: &mut Particle, delta_time: &i64, theta_num: u64, theta_den: u64)
        ensures
            *final(point) == spec_accelerated(
                *self,
                *old(point),
                *delta_time as int,
                theta_num as int,
                theta_den as int,
            ),
        decreases self,
    {
        if self.total_mass == 0 {
            return;
        }
        let d: i64 = self.center.get_distance(&point.position);
        proof {
            assert((BOX_SIZE as int) * (theta_den as int) <= u128::MAX as int)
                by (nonlinear_arith)
                requires
                    BOX_SIZE == 2_000_000_000,
                    0 <= theta_den <= u64::MAX,
            ;
            assert((theta_num as int) * (d as int) <= u128::MAX as int) by (nonlinear_arith)
                requires
                    0 <= theta_num <= u64::MAX,
                    0 <= d <= i64::MAX,
            ;
        }
        let far: bool = (BOX_SIZE as u128) * (theta_den as u128) > (theta_num as u128) * (
        d as u128);
        if far {
            if !(point.position == self.center) {
                let pseudo = Particle {
                    position: self.center,
                    velocity: Vector { x: 0, y: 0 },
                    mass: self.total_mass,
                };
                point.apply_force(&pseudo, delta_time);
            }
            return;
        }
        match &self.state {
            NodeState::Empty => {},
            NodeState::Leaf(q) => {
                if !(point.position == q.position) {
                    point.apply_force(q, delta_time);
                }
            },
            NodeState::Internal(b) => {
                b.q0.get_acc_vector(point, delta_time, theta_num, theta_den);
                b.q1.get_acc_vector(point, delta_time, theta_num, theta_den);
                b.q2.get_acc_vector(point, delta_time, theta_num, theta_den);
                b.q3.get_acc_vector(point, delta_time, theta_num, theta_den);
            },
        }
    }

    /// Force evaluation and position integration over a particle list,
    /// with a caller-chosen opening-angle threshold `theta_num/theta_den`
    /// (a denominator of zero makes every subtree "near", so the
    /// traversal always recurses to the leaves).
    pub fn update_units_theta(
        &self,
        list_of_points: &mut Vec<Particle>,
        delta_time: &i64,
        theta_num: u64,
        theta_den: u64,
    )
        ensures
            final(list_of_points)@.len() == old(list_of_points)@.len(),
            forall|i: int|
                0 <= i < old(list_of_points)@.len() ==> final(list_of_points)@[i]
                    == spec_unit_step(
                    *self,
                    old(list_of_points)@[i],
                    *delta_time as int,
                    theta_num as int,
                    theta_den as int,
                ),
    {
        let n: usize = list_of_points.len();
        let mut i: usize = 0;
        while i < n
            invariant
                i <= n,
                n == old(list_of_points)@.len(),
                list_of_points@.len() == n,
                forall|j: int|
                    0 <= j < i ==> list_of_points@[j] == spec_unit_step(
                        *self,
                        old(list_of_points)@[j],
                        *delta_time as int,
                        theta_num as int,
                        theta_den as int,
                    ),
                forall|j: int| i <= j < n ==> list_of_points@[j] == old(list_of_points)@[j],
            decreases n - i,
        {
            let mut q: Particle = list_of_points[i];
            let is_leaf: bool = match &self.state {
                NodeState::Leaf(_) => true,
                _ => false,
            };
            if !is_leaf {
                self.get_acc_vector(&mut q, delta_time, theta_num, theta_den);
            }
            q.update_position(delta_time);
            list_of_points[i] = q;
            i = i + 1;
        }
    }

    /// Applies gravity to every particle in the list and integrates each
    /// position, using the default opening-angle threshold. The tree is
    /// only read: it must already be aggregated for the traversal to see
    /// the enclosed masses.
    pub fn update_units(&mut self, list_of_points: &mut Vec<Particle>, delta_time: &i64)
        ensures
            *final(self) == *old(self),
            final(list_of_points)@.len() == old(list_of_points)@.len(),
            forall|i: int|
                0 <= i < old(list_of_points)@.len() ==> final(list_of_points)@[i]
                    == spec_unit_step(
                    *old(self),
                    old(list_of_points)@[i],
                    *delta_time as int,
                    THETA_NUM as int,
                    THETA_DEN as int,
                ),
    {
        self.update_units_theta(list_of_points, delta_time, THETA_NUM, THETA_DEN);
    }
}

} // verus!
