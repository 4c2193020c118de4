//! Tree construction, aggregation and force evaluation on concrete values.

use rusty_orbit::fixed::SCALE;
use rusty_orbit::particle::Particle;
use rusty_orbit::tree::{NodeState, Quadrants, Tree};
use rusty_orbit::vector::Vector;

fn particle(x: i64, y: i64, vx: i64, vy: i64, mass: i64) -> Particle {
    Particle {
        position: Vector { x, y },
        velocity: Vector { x: vx, y: vy },
        mass,
    }
}

fn quadrants(tree: &Tree) -> &Quadrants {
    match &tree.state {
        NodeState::Internal(b) => b,
        _ => panic!("expected an internal node"),
    }
}

#[test]
fn tree_append_many_nodes() {
    let part1 = particle(SCALE, SCALE, SCALE, SCALE, 50 * SCALE);
    let part2 = particle(-SCALE, -SCALE, SCALE, SCALE, 50 * SCALE);

    let mut tree = Tree::new();
    // check for empty tree
    assert_eq!(tree.total_mass, 0);
    assert!(matches!(tree.state, NodeState::Empty));

    tree.append_node(&part1);
    // check for node in base position
    assert_eq!(tree.total_mass, 0);
    assert!(matches!(tree.state, NodeState::Leaf(_)));

    tree.append_node(&part2);
    // check for BOTH nodes to be moved into child nodes and out of base
    assert_eq!(tree.total_mass, 0);
    let qs = quadrants(&tree);

    // items should only be in the first and third quadrant
    assert!(matches!(qs.q0.state, NodeState::Leaf(_)));
    assert!(matches!(qs.q1.state, NodeState::Empty));
    assert!(matches!(qs.q2.state, NodeState::Leaf(_)));
    assert!(matches!(qs.q3.state, NodeState::Empty));

    // the children sit at the quadrant centers
    assert_eq!(qs.q0.center, Vector { x: SCALE, y: SCALE });
    assert_eq!(qs.q1.center, Vector { x: SCALE, y: -SCALE });
    assert_eq!(qs.q2.center, Vector { x: -SCALE, y: -SCALE });
    assert_eq!(qs.q3.center, Vector { x: -SCALE, y: SCALE });
}

#[test]
fn tree_build_average_mass() {
    let part1 = particle(SCALE, SCALE, SCALE, SCALE, 50 * SCALE);
    let part2 = particle(-SCALE, -SCALE, SCALE, SCALE, 100 * SCALE);

    let mut tree = Tree::new();
    tree.append_node(&part1);
    tree.append_node(&part2);

    // should still be zero
    assert_eq!(tree.total_mass, 0);

    tree.build_average_mass();

    assert_eq!(tree.total_mass, 150 * SCALE);

    // first quadrant should have the first particle's mass
    let qs = quadrants(&tree);
    assert_eq!(qs.q0.total_mass, 50 * SCALE);
    assert_eq!(qs.q1.total_mass, 0);
    // third quadrant should have the second particle's mass
    assert_eq!(qs.q2.total_mass, 100 * SCALE);
    assert_eq!(qs.q3.total_mass, 0);
}

#[test]
fn tree_update_units() {
    let part1 = particle(SCALE, SCALE, SCALE, SCALE, 50 * SCALE);
    let part2 = particle(-SCALE, -SCALE, SCALE, SCALE, 100 * SCALE);

    let mut tree = Tree::new();
    tree.append_node(&part1);
    tree.append_node(&part2);
    tree.build_average_mass();

    // part1 and part2 are being copied here
    let mut list_of_points = vec![part1, part2];

    // positions must change from starting positions after update_units
    assert_eq!(list_of_points[0].position, Vector { x: SCALE, y: SCALE });
    assert_eq!(list_of_points[1].position, Vector { x: -SCALE, y: -SCALE });

    tree.update_units(&mut list_of_points, &(100 * SCALE));

    assert_ne!(list_of_points[0].position.x, SCALE);
    assert_ne!(list_of_points[0].position.y, SCALE);
    assert_ne!(list_of_points[1].position.x, -SCALE);
    assert_ne!(list_of_points[1].position.y, -SCALE);

    // the exact fixed-point outcome
    assert_eq!(list_of_points[0].velocity, Vector { x: 999_982_400, y: 999_982_400 });
    assert_eq!(
        list_of_points[0].position,
        Vector { x: 100_998_240_000, y: 100_998_240_000 }
    );
    assert_eq!(list_of_points[1].velocity, Vector { x: 1_000_035_300, y: 1_000_035_300 });
    assert_eq!(
        list_of_points[1].position,
        Vector { x: 99_003_530_000, y: 99_003_530_000 }
    );
}

#[test]
fn single_particle_tree() {
    let part = particle(SCALE, SCALE, 0, 0, 50 * SCALE);
    let mut tree = Tree::new();
    tree.append_node(&part);

    // a single insertion leaves the root a bare leaf, no children created
    assert!(matches!(tree.state, NodeState::Leaf(_)));
    assert_eq!(tree.center, Vector { x: 0, y: 0 });

    let total = tree.build_average_mass();
    assert_eq!(total, 50 * SCALE);
    assert_eq!(tree.total_mass, 50 * SCALE);
}

#[test]
fn single_particle_tree_still_integrates_positions() {
    let part = particle(SCALE, SCALE, 7 * SCALE, -2 * SCALE, 50 * SCALE);
    let mut tree = Tree::new();
    tree.append_node(&part);
    tree.build_average_mass();

    let mut list = vec![part];
    tree.update_units(&mut list, &SCALE);

    // no force: a lone particle has nothing to attract it
    assert_eq!(list[0].velocity, Vector { x: 7 * SCALE, y: -2 * SCALE });
    // but the position still integrates
    assert_eq!(list[0].position, Vector { x: 8 * SCALE, y: -SCALE });
}

#[test]
fn evaluate_on_an_empty_tree_only_integrates() {
    let part = particle(3 * SCALE, 4 * SCALE, SCALE, SCALE, 10 * SCALE);
    let mut tree = Tree::new();
    tree.build_average_mass();

    let mut list = vec![part];
    tree.update_units(&mut list, &(2 * SCALE));

    assert_eq!(list[0].velocity, Vector { x: SCALE, y: SCALE });
    assert_eq!(list[0].position, Vector { x: 5 * SCALE, y: 6 * SCALE });
}

#[test]
fn coincident_particles_merge_into_one_bucket() {
    let part1 = particle(SCALE, SCALE, 1, 2, 50 * SCALE);
    let part2 = particle(SCALE, SCALE, 3, 4, 100 * SCALE);

    let mut tree = Tree::new();
    tree.append_node(&part1);
    tree.append_node(&part2);

    // insertion terminates and the root stays a single leaf bucket
    match &tree.state {
        NodeState::Leaf(p) => {
            assert_eq!(p.position, Vector { x: SCALE, y: SCALE });
            assert_eq!(p.mass, 150 * SCALE);
        },
        _ => panic!("expected a leaf bucket"),
    }
    let total = tree.build_average_mass();
    assert_eq!(total, 150 * SCALE);
}

#[test]
fn center_point_goes_to_the_upper_right_quadrant() {
    // the boundary is inclusive toward the right/upper side
    let part1 = particle(0, 0, 0, 0, 10 * SCALE);
    let part2 = particle(-SCALE, SCALE, 0, 0, 20 * SCALE);

    let mut tree = Tree::new();
    tree.append_node(&part1);
    tree.append_node(&part2);

    let qs = quadrants(&tree);
    assert!(matches!(qs.q0.state, NodeState::Leaf(_)));
    assert!(matches!(qs.q1.state, NodeState::Empty));
    assert!(matches!(qs.q2.state, NodeState::Empty));
    assert!(matches!(qs.q3.state, NodeState::Leaf(_)));
}

#[test]
fn mass_conservation_over_many_inserts() {
    let masses: Vec<i64> = vec![50, 100, 75, 1, 9999];
    let positions: Vec<(i64, i64)> = vec![
        (SCALE, SCALE),
        (-SCALE, -SCALE),
        (3 * SCALE / 2, -SCALE / 2),
        (7, -13),
        (-4 * SCALE, 9 * SCALE),
    ];

    let mut tree = Tree::new();
    let mut expected: i64 = 0;
    for i in 0..masses.len() {
        let m = masses[i] * SCALE;
        expected += m;
        tree.append_node(&particle(positions[i].0, positions[i].1, 0, 0, m));
    }
    let total = tree.build_average_mass();
    assert_eq!(total, expected);
}

#[test]
fn aggregation_is_idempotent() {
    let part1 = particle(SCALE, SCALE, 0, 0, 50 * SCALE);
    let part2 = particle(-SCALE, -SCALE, 0, 0, 100 * SCALE);
    let part3 = particle(SCALE / 2, -SCALE / 4, 0, 0, 33 * SCALE);

    let mut tree = Tree::new();
    tree.append_node(&part1);
    tree.append_node(&part2);
    tree.append_node(&part3);

    let first = tree.build_average_mass();
    let totals_first = {
        let qs = quadrants(&tree);
        (qs.q0.total_mass, qs.q1.total_mass, qs.q2.total_mass, qs.q3.total_mass)
    };
    let second = tree.build_average_mass();
    let totals_second = {
        let qs = quadrants(&tree);
        (qs.q0.total_mass, qs.q1.total_mass, qs.q2.total_mass, qs.q3.total_mass)
    };
    assert_eq!(first, 183 * SCALE);
    assert_eq!(second, first);
    assert_eq!(totals_second, totals_first);
}

#[test]
fn theta_zero_denominator_matches_brute_force() {
    // an infinite opening-angle threshold forces recursion to the leaves,
    // so the traversal must reproduce direct pairwise summation
    let a = particle(11 * SCALE / 10, 9 * SCALE / 10, 0, 0, 50 * SCALE);
    let b = particle(3 * SCALE / 10, -17 * SCALE / 10, 0, 0, 75 * SCALE);
    let c = particle(-12 * SCALE / 10, -4 * SCALE / 10, 0, 0, 100 * SCALE);
    let dt: i64 = 100 * SCALE;

    let mut tree = Tree::new();
    tree.append_node(&a);
    tree.append_node(&b);
    tree.append_node(&c);
    tree.build_average_mass();

    let initial = vec![a, b, c];
    let mut evaluated = initial.clone();
    tree.update_units_theta(&mut evaluated, &dt, 1, 0);

    let mut brute = Vec::new();
    for i in 0..initial.len() {
        let mut p = initial[i];
        for j in 0..initial.len() {
            if p.position != initial[j].position {
                p.apply_force(&initial[j], &dt);
            }
        }
        p.update_position(&dt);
        brute.push(p);
    }

    assert_eq!(evaluated, brute);
    // and forces actually flowed: the velocities moved
    for i in 0..initial.len() {
        assert_ne!(evaluated[i].velocity, initial[i].velocity);
    }
}

#[test]
fn target_on_a_node_center_still_feels_force() {
    // with the always-recurse threshold, a particle sitting exactly on a
    // node center (here the root's own center) must still receive the
    // direct pairwise force
    let at_center = particle(0, 0, 0, 0, 50 * SCALE);
    let other = particle(SCALE, SCALE, 0, 0, 100 * SCALE);
    let dt: i64 = 100 * SCALE;

    let mut tree = Tree::new();
    tree.append_node(&at_center);
    tree.append_node(&other);
    tree.build_average_mass();

    let mut list = vec![at_center, other];
    tree.update_units_theta(&mut list, &dt, 1, 0);

    assert_eq!(list[0].velocity, Vector { x: 11_700, y: 11_700 });
    assert_eq!(list[0].position, Vector { x: 1_170_000, y: 1_170_000 });
    assert_eq!(list[1].velocity, Vector { x: -11_700, y: -11_700 });
    assert_eq!(
        list[1].position,
        Vector { x: 998_830_000, y: 998_830_000 }
    );
}

#[test]
fn default_theta_skips_a_target_on_the_node_center() {
    // with a positive threshold, distance zero makes the ratio's limit
    // infinite: the subtree is "far", and the coincidence test then skips
    // the pseudo-particle force entirely
    let at_center = particle(0, 0, 0, 0, 50 * SCALE);
    let other = particle(SCALE, SCALE, 0, 0, 100 * SCALE);

    let mut tree = Tree::new();
    tree.append_node(&at_center);
    tree.append_node(&other);
    tree.build_average_mass();

    let mut list = vec![at_center, other];
    tree.update_units(&mut list, &(100 * SCALE));

    // the particle on the root center feels nothing and does not move
    assert_eq!(list[0].velocity, Vector { x: 0, y: 0 });
    assert_eq!(list[0].position, Vector { x: 0, y: 0 });
    // its neighbor is pulled toward the aggregate at the origin
    assert_ne!(list[1].velocity, Vector { x: 0, y: 0 });
}

#[test]
fn two_body_scenario() {
    // mass 50 at (1,1) with velocity (1,1); mass 100 at (-1,-1) with
    // velocity (1,1); insert both, aggregate, evaluate with dt = 100
    let part1 = particle(SCALE, SCALE, SCALE, SCALE, 50 * SCALE);
    let part2 = particle(-SCALE, -SCALE, SCALE, SCALE, 100 * SCALE);

    let mut tree = Tree::new();
    tree.append_node(&part1);
    tree.append_node(&part2);
    let total = tree.build_average_mass();
    assert_eq!(total, 150 * SCALE);

    let mut list = vec![part1, part2];
    tree.update_units(&mut list, &(100 * SCALE));

    assert_ne!(list[0].velocity, part1.velocity);
    assert_ne!(list[0].position, part1.position);
    assert_ne!(list[1].velocity, part2.velocity);
    assert_ne!(list[1].position, part2.position);
}
