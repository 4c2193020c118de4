//! Vector and particle operations on concrete values.

use rusty_orbit::fixed::SCALE;
use rusty_orbit::particle::Particle;
use rusty_orbit::vector::Vector;

#[test]
fn vector_multiple() {
    let vec1 = Vector { x: SCALE, y: SCALE };
    assert_eq!(vec1.x, SCALE);
    assert_eq!(vec1.y, SCALE);
    let vec2 = vec1.multiple(&(2 * SCALE));
    assert_eq!(vec2.x, 2 * SCALE);
    assert_eq!(vec2.y, 2 * SCALE);
}

#[test]
fn vector_normialize() {
    let vec1 = Vector { x: SCALE, y: SCALE };
    assert_eq!(vec1.x, SCALE);
    assert_eq!(vec1.y, SCALE);
    let vec2 = vec1.normialize().unwrap();
    assert_eq!(vec2.x, 707_106_781);
    assert_eq!(vec2.y, 707_106_781);
}

#[test]
fn normialize_rejects_the_zero_vector() {
    let v = Vector { x: 0, y: 0 };
    assert!(v.normialize().is_none());
}

#[test]
fn vector_distance() {
    let vec1 = Vector { x: SCALE, y: SCALE };
    let vec2 = Vector { x: -SCALE, y: -SCALE };
    let distance = vec1.get_distance(&vec2);
    assert_eq!(distance, 2_828_427_124);
}

#[test]
fn multiple_saturates_at_the_bounds() {
    let v = Vector { x: i64::MAX, y: i64::MIN };
    let r = v.multiple(&(2 * SCALE));
    assert_eq!(r.x, i64::MAX);
    assert_eq!(r.y, i64::MIN);
}

#[test]
fn particle_apply_force() {
    let mut part1 = Particle {
        position: Vector { x: SCALE, y: SCALE },
        velocity: Vector { x: SCALE, y: SCALE },
        mass: 50 * SCALE,
    };
    let part2 = Particle {
        position: Vector { x: -SCALE, y: -SCALE },
        velocity: Vector { x: SCALE, y: SCALE },
        mass: 50 * SCALE,
    };

    // large delta time to get some momentum
    part1.apply_force(&part2, &(100 * SCALE));

    // only particle 1 should have its velocity change
    assert_ne!(part1.velocity.x, SCALE);
    assert_ne!(part1.velocity.y, SCALE);
    assert_eq!(part1.velocity.x, 999_998_600);
    assert_eq!(part1.velocity.y, 999_998_600);
    assert_eq!(part2.velocity.x, SCALE);
    assert_eq!(part2.velocity.y, SCALE);
}

#[test]
fn apply_force_on_coincident_positions_changes_nothing() {
    let mut part1 = Particle {
        position: Vector { x: SCALE, y: SCALE },
        velocity: Vector { x: 3, y: 4 },
        mass: 50 * SCALE,
    };
    let part2 = Particle {
        position: Vector { x: SCALE, y: SCALE },
        velocity: Vector { x: 0, y: 0 },
        mass: 100 * SCALE,
    };
    part1.apply_force(&part2, &(100 * SCALE));
    assert_eq!(part1.velocity, Vector { x: 3, y: 4 });
    assert_eq!(part1.position, Vector { x: SCALE, y: SCALE });
}

#[test]
fn particle_update_position() {
    let mut part = Particle {
        position: Vector { x: SCALE, y: SCALE },
        velocity: Vector { x: -SCALE, y: -SCALE },
        mass: 50 * SCALE,
    };

    part.update_position(&SCALE);

    assert_eq!(part.position.x, 0);
    assert_eq!(part.position.y, 0);
}
