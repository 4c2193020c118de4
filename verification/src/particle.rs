//! Point masses and the pairwise gravity rule.

use vstd::prelude::*;

use crate::fixed::{
    clip, clip_wide, div_trunc, mul_fx, sat_add, sat_sub, sqrt_floor, add_sat, div_wide, narrow,
    mul_fx_exec, sub_sat,
};
use crate::vector::{Vector, spec_multiple, spec_unit, spec_distance};

verus! {

/// Numerator of the gravitational constant. Together with `G_DEN` it
/// encodes `G = 6.6743e-11` for quantities measured in whole units
/// (meters, kilograms): with every value stored as billionths, the force
/// comes out as `G_NUM * m1 * m2 / (d * d * G_DEN)`.
pub const G_NUM: i128 = 66743;

/// Denominator factor of the gravitational constant (see `G_NUM`).
pub const G_DEN: i128 = 1_000_000;

/// A point mass: a position and a velocity (fixed-point vectors) and a
/// mass (fixed-point scalar, strictly positive for physically meaningful
/// input).
#[derive(Clone, Copy, Debug, PartialEq, Eq, Structural)]
pub struct Particle {
    pub position: Vector,
    pub velocity: Vector,
    pub mass: i64,
}

/// The gravitational force magnitude `G * m1 * m2 / d²` in fixed-point:
/// evaluated in 128 bits, truncated toward zero at each division, and
/// saturated at the integer bounds.
pub open spec fn spec_force_mag(m1: int, m2: int, d: int) -> int {
    clip(div_trunc(div_trunc(clip_wide(G_NUM as int * m1 * m2), d * d), G_DEN as int))
}

/// What `apply_force` does to the receiver: the gravitational pull of
/// `other`, scaled by `dt`, added to the velocity. Exactly coincident
/// positions are a defined degenerate interaction: no change at all.
pub open spec fn spec_apply_force(p: Particle, other: Particle, dt: int) -> Particle {
    let d = spec_distance(p.position, other.position);
    if d == 0 {
        p
    } else {
        let f = spec_force_mag(p.mass as int, other.mass as int, d);
        let delta = Vector {
            x: sat_sub(other.position.x as int, p.position.x as int) as i64,
            y: sat_sub(other.position.y as int, p.position.y as int) as i64,
        };
        let fv = spec_multiple(spec_unit(delta), f);
        Particle {
            position: p.position,
            velocity: Vector {
                x: sat_add(p.velocity.x as int, mul_fx(fv.x as int, dt)) as i64,
                y: sat_add(p.velocity.y as int, mul_fx(fv.y as int, dt)) as i64,
            },
            mass: p.mass,
        }
    }
}

/// What `update_position` does: the position advanced by `velocity * dt`,
/// accumulating onto the previous position.
pub open spec fn spec_update_position(p: Particle, dt: int) -> Particle {
    Particle {
        position: Vector {
            x: sat_add(p.position.x as int, mul_fx(p.velocity.x as int, dt)) as i64,
            y: sat_add(p.position.y as int, mul_fx(p.velocity.y as int, dt)) as i64,
        },
        velocity: p.velocity,
        mass: p.mass,
    }
}

/// The gravitational force magnitude, executable form.
fn force_mag(m1: i64, m2: i64, d: i64) -> (r: i64)
    requires
        1 <= d,
    ensures
        r as int == spec_force_mag(m1 as int, m2 as int, d as int),
{
    proof {
        assert(m1 as int * m2 as int <= i128::MAX as int && m1 as int * m2 as int >= i128::MIN
            as int) by (nonlinear_arith)
            requires
                i64::MIN <= m1 <= i64::MAX,
                i64::MIN <= m2 <= i64::MAX,
        ;
    }
    let mm: i128 = (m1 as i128) * (m2 as i128);
    proof {
        assert(G_NUM as int * m1 as int * m2 as int == mm as int * G_NUM as int)
            by (nonlinear_arith)
            requires
                mm as int == m1 as int * m2 as int,
        ;
    }
    let num: i128 = match mm.checked_mul(G_NUM) {
        Some(v) => v,
        None => {
            proof {
                assert(mm != 0 && (mm > 0 ==> (mm as int) * (G_NUM as int) > (i128::MAX as int))
                    && (mm < 0 ==> (mm as int) * (G_NUM as int) < (i128::MIN as int)))
                    by (nonlinear_arith)
                    requires
                        ((mm as int) * (G_NUM as int) > (i128::MAX as int)) || ((mm as int) * (
                        G_NUM as int) < (i128::MIN as int)),
                        G_NUM == 66743,
                ;
            }
            if mm > 0 {
                i128::MAX
            } else {
                i128::MIN
            }
        },
    };
    proof {
        assert(1 <= d as int * d as int <= i128::MAX as int) by (nonlinear_arith)
            requires
                1 <= d <= i64::MAX,
        ;
    }
    let dd: i128 = (d as i128) * (d as i128);
    let q1: i128 = div_wide(num, dd);
    let q2: i128 = div_wide(q1, G_DEN);
    narrow(q2)
}

impl Particle {
    /// Adds the gravitational pull of `other`, scaled by `delta_time`,
    /// onto this particle's velocity. The stated formula treats the force
    /// magnitude as a velocity change per unit time without dividing by
    /// this particle's own mass, which mirrors the simulation rule this
    /// crate implements.
    pub fn apply_force(&mut self, other: &Particle, delta_time: &i64)
        ensures
            *final(self) == spec_apply_force(*old(self), *other, *delta_time as int),
    {
        let d: i64 = self.position.get_distance(&other.position);
        if d == 0 {
            return;
        }
        let f: i64 = force_mag(self.mass, other.mass, d);
        let delta = Vector {
            x: sub_sat(other.position.x, self.position.x),
            y: sub_sat(other.position.y, self.position.y),
        };
        proof {
            if delta.x == 0 && delta.y == 0 {
                assert(sqrt_floor(0nat) == 0);
                assert(spec_distance(old(self).position, other.position) == 0);
            }
        }
        let dir: Vector = delta.normialize().unwrap();
        let fv: Vector = dir.multiple(&f);
        self.velocity = Vector {
            x: add_sat(self.velocity.x, mul_fx_exec(fv.x, *delta_time)),
            y: add_sat(self.velocity.y, mul_fx_exec(fv.y, *delta_time)),
        };
    }

    /// Advances the position by `velocity * delta_time`, accumulating onto
    /// the current position.
    pub fn update_position(&mut self, delta_time: &i64)
        ensures
            *final(self) == spec_update_position(*old(self), *delta_time as int),
    {
        self.position = Vector {
            x: add_sat(self.position.x, mul_fx_exec(self.velocity.x, *delta_time)),
            y: add_sat(self.position.y, mul_fx_exec(self.velocity.y, *delta_time)),
        };
    }
}

} // verus!
