//! The library's laws: properties of insertion, aggregation and force
//! evaluation, each proved once and for all inputs.

use vstd::prelude::*;

use crate::gravity::{spec_accelerated, spec_far, spec_pseudo};
use crate::mass::spec_aggregated;
use crate::particle::{Particle, spec_apply_force};
use crate::tree::{
    Tree, NodeState, Quadrants, spec_inserted, spec_routed, spec_mass_sum, spec_masses_nonneg,
    spec_particles, spec_new_tree, spec_fresh_quadrants, spec_quadrant, MAX_DEPTH,
};
use crate::vector::{Vector, spec_distance};

verus! {

/// The mass held by four sibling quadrants together.
pub open spec fn spec_quad_mass(qs: Quadrants) -> int {
    spec_mass_sum(qs.q0) + spec_mass_sum(qs.q1) + spec_mass_sum(qs.q2) + spec_mass_sum(qs.q3)
}

/// Every particle mass in each of four sibling quadrants is nonnegative.
pub open spec fn spec_quad_nonneg(qs: Quadrants) -> bool {
    spec_masses_nonneg(qs.q0) && spec_masses_nonneg(qs.q1) && spec_masses_nonneg(qs.q2)
        && spec_masses_nonneg(qs.q3)
}

/// A subtree of nonnegative masses holds a nonnegative total.
pub proof fn lemma_mass_sum_nonneg(t: Tree)
    requires
        spec_masses_nonneg(t),
    ensures
        spec_mass_sum(t) >= 0,
    decreases t,
{
    match t.state {
        NodeState::Internal(b) => {
            lemma_mass_sum_nonneg(b.q0);
            lemma_mass_sum_nonneg(b.q1);
            lemma_mass_sum_nonneg(b.q2);
            lemma_mass_sum_nonneg(b.q3);
        },
        _ => {},
    }
}

/// Inserting a particle of nonnegative mass adds exactly that mass to the
/// subtree's enclosed mass — whatever the depth budget — provided the new
/// total still fits in `i64`; and every mass stays nonnegative.
pub proof fn lemma_insert_mass(t: Tree, p: Particle, depth: nat)
    requires
        spec_masses_nonneg(t),
        p.mass >= 0,
        spec_mass_sum(t) + p.mass <= i64::MAX,
    ensures
        spec_mass_sum(spec_inserted(t, p, depth)) == spec_mass_sum(t) + p.mass,
        spec_masses_nonneg(spec_inserted(t, p, depth)),
    decreases depth, t,
{
    match t.state {
        NodeState::Empty => {},
        NodeState::Leaf(q) => {
            if depth == 0 || q.position == p.position {
            } else {
                let qs = spec_fresh_quadrants(t.center);
                let d2 = (depth - 1) as nat;
                lemma_route_mass(qs, t.center, q, d2);
                let qs1 = spec_routed(qs, t.center, q, d2);
                lemma_route_mass(qs1, t.center, p, d2);
            }
        },
        NodeState::Internal(b) => {
            let d2 = if depth == 0 {
                0
            } else {
                (depth - 1) as nat
            };
            lemma_route_mass(*b, t.center, p, d2);
        },
    }
}

/// Routing a particle into its quadrant adds exactly its mass to the four
/// siblings' combined mass, and keeps every mass nonnegative.
pub proof fn lemma_route_mass(qs: Quadrants, c: Vector, p: Particle, depth: nat)
    requires
        spec_quad_nonneg(qs),
        p.mass >= 0,
        spec_quad_mass(qs) + p.mass <= i64::MAX,
    ensures
        spec_quad_mass(spec_routed(qs, c, p, depth)) == spec_quad_mass(qs) + p.mass,
        spec_quad_nonneg(spec_routed(qs, c, p, depth)),
    decreases depth, qs,
{
    lemma_mass_sum_nonneg(qs.q0);
    lemma_mass_sum_nonneg(qs.q1);
    lemma_mass_sum_nonneg(qs.q2);
    lemma_mass_sum_nonneg(qs.q3);
    let q = spec_quadrant(c, p.position);
    if q == 0 {
        lemma_insert_mass(qs.q0, p, depth);
    } else if q == 1 {
        lemma_insert_mass(qs.q1, p, depth);
    } else if q == 2 {
        lemma_insert_mass(qs.q2, p, depth);
    } else {
        lemma_insert_mass(qs.q3, p, depth);
    }
}

/// After one aggregation pass, every node's stored total equals its
/// subtree's exact mass sum, provided every mass is nonnegative and the
/// sum fits in `i64`.
pub proof fn lemma_aggregate_total(t: Tree)
    requires
        spec_masses_nonneg(t),
        spec_mass_sum(t) <= i64::MAX,
    ensures
        spec_aggregated(t).total_mass == spec_mass_sum(t),
    decreases t,
{
    match t.state {
        NodeState::Internal(b) => {
            lemma_mass_sum_nonneg(b.q0);
            lemma_mass_sum_nonneg(b.q1);
            lemma_mass_sum_nonneg(b.q2);
            lemma_mass_sum_nonneg(b.q3);
            lemma_aggregate_total(b.q0);
            lemma_aggregate_total(b.q1);
            lemma_aggregate_total(b.q2);
            lemma_aggregate_total(b.q3);
        },
        _ => {},
    }
}

/// The tree built by inserting each particle of `ps`, in order, into `t`.
pub open spec fn spec_inserted_all(t: Tree, ps: Seq<Particle>) -> Tree
    decreases ps.len(),
{
    if ps.len() == 0 {
        t
    } else {
        spec_inserted_all(spec_inserted(t, ps[0], MAX_DEPTH as nat), ps.drop_first())
    }
}

/// The sum of the masses of a particle list.
pub open spec fn spec_list_mass(ps: Seq<Particle>) -> int
    decreases ps.len(),
{
    if ps.len() == 0 {
        0
    } else {
        ps[0].mass + spec_list_mass(ps.drop_first())
    }
}

/// A list of nonnegative masses sums to a nonnegative total.
pub proof fn lemma_list_mass_nonneg(ps: Seq<Particle>)
    requires
        forall|i: int| 0 <= i < ps.len() ==> ps[i].mass >= 0,
    ensures
        spec_list_mass(ps) >= 0,
    decreases ps.len(),
{
    if ps.len() != 0 {
        lemma_list_mass_nonneg(ps.drop_first());
    }
}

/// Inserting a whole list adds exactly the list's mass to the tree.
pub proof fn lemma_insert_all_mass(t: Tree, ps: Seq<Particle>)
    requires
        spec_masses_nonneg(t),
        forall|i: int| 0 <= i < ps.len() ==> ps[i].mass >= 0,
        spec_mass_sum(t) + spec_list_mass(ps) <= i64::MAX,
    ensures
        spec_mass_sum(spec_inserted_all(t, ps)) == spec_mass_sum(t) + spec_list_mass(ps),
        spec_masses_nonneg(spec_inserted_all(t, ps)),
    decreases ps.len(),
{
    if ps.len() != 0 {
        lemma_list_mass_nonneg(ps.drop_first());
        lemma_insert_mass(t, ps[0], MAX_DEPTH as nat);
        lemma_insert_all_mass(spec_inserted(t, ps[0], MAX_DEPTH as nat), ps.drop_first());
    }
}

/// Mass conservation: build a tree by inserting any list of particles
/// into a fresh root, aggregate, and the root's total is exactly the sum
/// of the inserted masses — provided the masses are nonnegative and their
/// sum fits in `i64`.
pub proof fn lemma_mass_conservation(ps: Seq<Particle>)
    requires
        forall|i: int| 0 <= i < ps.len() ==> ps[i].mass >= 0,
        spec_list_mass(ps) <= i64::MAX,
    ensures
        spec_aggregated(spec_inserted_all(spec_new_tree(), ps)).total_mass == spec_list_mass(ps),
{
    lemma_insert_all_mass(spec_new_tree(), ps);
    lemma_aggregate_total(spec_inserted_all(spec_new_tree(), ps));
}

/// A single insertion into a fresh root leaves the root a bare leaf
/// holding the particle — no children are created — and aggregation then
/// reports exactly that particle's mass.
pub proof fn lemma_single_particle(p: Particle, depth: nat)
    ensures
        spec_inserted(spec_new_tree(), p, depth) == (Tree {
            center: spec_new_tree().center,
            state: NodeState::Leaf(p),
            total_mass: 0,
        }),
        spec_aggregated(spec_inserted(spec_new_tree(), p, depth)).total_mass == p.mass,
{
}

/// Aggregation is idempotent: a second pass over an already aggregated
/// tree changes nothing.
pub proof fn lemma_aggregate_idempotent(t: Tree)
    ensures
        spec_aggregated(spec_aggregated(t)) == spec_aggregated(t),
    decreases t,
{
    match t.state {
        NodeState::Internal(b) => {
            lemma_aggregate_idempotent(b.q0);
            lemma_aggregate_idempotent(b.q1);
            lemma_aggregate_idempotent(b.q2);
            lemma_aggregate_idempotent(b.q3);
        },
        _ => {},
    }
}

/// Every particle mass held in the subtree is strictly positive.
pub open spec fn spec_masses_positive(t: Tree) -> bool
    decreases t,
{
    match t.state {
        NodeState::Empty => true,
        NodeState::Leaf(p) => p.mass > 0,
        NodeState::Internal(b) => spec_masses_positive(b.q0) && spec_masses_positive(b.q1)
            && spec_masses_positive(b.q2) && spec_masses_positive(b.q3),
    }
}

/// Direct pairwise force summation over a particle list, in order; a
/// contribution is skipped exactly when the positions coincide.
pub open spec fn spec_brute(ps: Seq<Particle>, p: Particle, dt: int) -> Particle
    decreases ps.len(),
{
    if ps.len() == 0 {
        p
    } else {
        let p1 = if p.position == ps[0].position {
            p
        } else {
            spec_apply_force(p, ps[0], dt)
        };
        spec_brute(ps.drop_first(), p1, dt)
    }
}

/// Strictly positive masses are in particular nonnegative.
pub proof fn lemma_positive_implies_nonneg(t: Tree)
    requires
        spec_masses_positive(t),
    ensures
        spec_masses_nonneg(t),
    decreases t,
{
    match t.state {
        NodeState::Internal(b) => {
            lemma_positive_implies_nonneg(b.q0);
            lemma_positive_implies_nonneg(b.q1);
            lemma_positive_implies_nonneg(b.q2);
            lemma_positive_implies_nonneg(b.q3);
        },
        _ => {},
    }
}

/// With strictly positive masses, a subtree of mass zero holds no
/// particle at all.
pub proof fn lemma_empty_when_massless(t: Tree)
    requires
        spec_masses_positive(t),
        spec_mass_sum(t) == 0,
    ensures
        spec_particles(t).len() == 0,
    decreases t,
{
    match t.state {
        NodeState::Internal(b) => {
            lemma_positive_implies_nonneg(t);
            lemma_mass_sum_nonneg(b.q0);
            lemma_mass_sum_nonneg(b.q1);
            lemma_mass_sum_nonneg(b.q2);
            lemma_mass_sum_nonneg(b.q3);
            lemma_empty_when_massless(b.q0);
            lemma_empty_when_massless(b.q1);
            lemma_empty_when_massless(b.q2);
            lemma_empty_when_massless(b.q3);
        },
        _ => {},
    }
}

/// A force application changes only the velocity: position and mass stay.
pub proof fn lemma_apply_force_keeps(p: Particle, o: Particle, dt: int)
    ensures
        spec_apply_force(p, o, dt).position == p.position,
        spec_apply_force(p, o, dt).mass == p.mass,
{
}

/// The whole traversal changes only the velocity: position and mass stay.
pub proof fn lemma_accelerated_keeps(t: Tree, p: Particle, dt: int, tn: int, td: int)
    ensures
        spec_accelerated(t, p, dt, tn, td).position == p.position,
        spec_accelerated(t, p, dt, tn, td).mass == p.mass,
    decreases t,
{
    if t.total_mass == 0 {
    } else if spec_far(t.center, p.position, tn, td) {
        lemma_apply_force_keeps(p, spec_pseudo(t), dt);
    } else {
        match t.state {
            NodeState::Empty => {},
            NodeState::Leaf(q) => {
                lemma_apply_force_keeps(p, q, dt);
            },
            NodeState::Internal(b) => {
                let p0 = spec_accelerated(b.q0, p, dt, tn, td);
                let p1 = spec_accelerated(b.q1, p0, dt, tn, td);
                let p2 = spec_accelerated(b.q2, p1, dt, tn, td);
                lemma_accelerated_keeps(b.q0, p, dt, tn, td);
                lemma_accelerated_keeps(b.q1, p0, dt, tn, td);
                lemma_accelerated_keeps(b.q2, p1, dt, tn, td);
                lemma_accelerated_keeps(b.q3, p2, dt, tn, td);
            },
        }
    }
}

/// Brute-force summation over a concatenation is summation over the first
/// part, then over the second.
pub proof fn lemma_brute_concat(a: Seq<Particle>, b: Seq<Particle>, p: Particle, dt: int)
    ensures
        spec_brute(a + b, p, dt) == spec_brute(b, spec_brute(a, p, dt), dt),
    decreases a.len(),
{
    if a.len() == 0 {
        assert(a + b =~= b);
    } else {
        assert((a + b).drop_first() =~= a.drop_first() + b);
        let p1 = if p.position == a[0].position {
            p
        } else {
            spec_apply_force(p, a[0], dt)
        };
        lemma_brute_concat(a.drop_first(), b, p1, dt);
    }
}

/// Convergence to brute force: when the opening-angle test never approves
/// an approximation (threshold denominator 0, an infinite threshold), the
/// traversal over the aggregated tree applies exactly the direct pairwise
/// forces of the particles the tree holds, in traversal order. Holds when
/// every mass is strictly positive and the exact mass total fits in
/// `i64`.
pub proof fn lemma_brute_force(t: Tree, p: Particle, dt: int)
    requires
        spec_masses_positive(t),
        spec_mass_sum(t) <= i64::MAX,
    ensures
        spec_accelerated(spec_aggregated(t), p, dt, 1, 0) == spec_brute(
            spec_particles(t),
            p,
            dt,
        ),
    decreases t,
{
    let ta = spec_aggregated(t);
    lemma_positive_implies_nonneg(t);
    lemma_aggregate_total(t);
    if ta.total_mass == 0 {
        lemma_empty_when_massless(t);
    } else {
        assert(spec_distance(ta.center, p.position) >= 0);
        assert(!spec_far(ta.center, p.position, 1, 0));
        match t.state {
            NodeState::Empty => {},
            NodeState::Leaf(q) => {
                assert(spec_particles(t) =~= seq![q]);
                let ps = spec_particles(t);
                let p1 = if p.position == q.position {
                    p
                } else {
                    spec_apply_force(p, q, dt)
                };
                assert(ps[0] == q);
                assert(ps.drop_first().len() == 0);
                assert(spec_brute(ps.drop_first(), p1, dt) == p1);
                assert(spec_accelerated(ta, p, dt, 1, 0) == spec_brute(
                    spec_particles(t), p, dt));
            },
            NodeState::Internal(b) => {
                lemma_positive_implies_nonneg(b.q0);
                lemma_positive_implies_nonneg(b.q1);
                lemma_positive_implies_nonneg(b.q2);
                lemma_positive_implies_nonneg(b.q3);
                lemma_mass_sum_nonneg(b.q0);
                lemma_mass_sum_nonneg(b.q1);
                lemma_mass_sum_nonneg(b.q2);
                lemma_mass_sum_nonneg(b.q3);
                let a0 = spec_aggregated(b.q0);
                let a1 = spec_aggregated(b.q1);
                let a2 = spec_aggregated(b.q2);
                let a3 = spec_aggregated(b.q3);
                let p0 = spec_accelerated(a0, p, dt, 1, 0);
                let p1 = spec_accelerated(a1, p0, dt, 1, 0);
                let p2 = spec_accelerated(a2, p1, dt, 1, 0);
                lemma_accelerated_keeps(a0, p, dt, 1, 0);
                lemma_accelerated_keeps(a1, p0, dt, 1, 0);
                lemma_accelerated_keeps(a2, p1, dt, 1, 0);
                lemma_brute_force(b.q0, p, dt);
                lemma_brute_force(b.q1, p0, dt);
                lemma_brute_force(b.q2, p1, dt);
                lemma_brute_force(b.q3, p2, dt);
                let s0 = spec_particles(b.q0);
                let s1 = spec_particles(b.q1);
                let s2 = spec_particles(b.q2);
                let s3 = spec_particles(b.q3);
                lemma_brute_concat(s0 + s1 + s2, s3, p, dt);
                lemma_brute_concat(s0 + s1, s2, p, dt);
                lemma_brute_concat(s0, s1, p, dt);
            },
        }
    }
}

} // verus!
