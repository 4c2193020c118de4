//! The 2-D fixed-point vector type and its geometry.

use vstd::prelude::*;

use crate::fixed::{
    clip, div_trunc, mul_fx, sat_sub, sqrt_floor, lemma_sqrt_floor_bounds, mul_fx_exec, sub_sat,
    div_wide, narrow, isqrt, SCALE,
};

verus! {

/// A 2-D quantity (a position, velocity or displacement), each component a
/// fixed-point `i64`.
#[derive(Clone, Copy, Debug, PartialEq, Eq, Structural)]
pub struct Vector {
    pub x: i64,
    pub y: i64,
}

/// What `multiple` returns: each component scaled by the fixed-point factor
/// `k`.
pub open spec fn spec_multiple(v: Vector, k: int) -> Vector {
    Vector { x: mul_fx(v.x as int, k) as i64, y: mul_fx(v.y as int, k) as i64 }
}

/// The exact squared length of `v`.
pub open spec fn spec_norm_sq(v: Vector) -> nat {
    (v.x as int * v.x as int + v.y as int * v.y as int) as nat
}

/// The length of `v`, rounded down.
pub open spec fn spec_magnitude(v: Vector) -> int {
    sqrt_floor(spec_norm_sq(v)) as int
}

/// The unit vector of a nonzero `v`: each component divided by the
/// magnitude, in fixed-point.
pub open spec fn spec_unit(v: Vector) -> Vector {
    let m = spec_magnitude(v);
    Vector {
        x: clip(div_trunc(v.x as int * SCALE as int, m)) as i64,
        y: clip(div_trunc(v.y as int * SCALE as int, m)) as i64,
    }
}

/// What `normialize` returns: `None` for the zero vector (whose direction
/// is undefined), otherwise the unit vector.
pub open spec fn spec_normialized(v: Vector) -> Option<Vector> {
    if v.x == 0 && v.y == 0 {
        None
    } else {
        Some(spec_unit(v))
    }
}

/// What `get_distance` returns: the Euclidean distance from `a` to `b`,
/// with saturating component differences, rounded down and saturated.
pub open spec fn spec_distance(a: Vector, b: Vector) -> int {
    let dx = sat_sub(b.x as int, a.x as int);
    let dy = sat_sub(b.y as int, a.y as int);
    clip(sqrt_floor((dx * dx + dy * dy) as nat) as int)
}

/// The square of an `i64`, exact in 128 bits.
pub fn square_wide(x: i64) -> (r: i128)
    ensures
        r as int == x as int * x as int,
        0 <= r as int <= 0x4000_0000_0000_0000_0000_0000_0000_0000,
{
    proof {
        assert(0 <= x as int * x as int <= 0x4000_0000_0000_0000_0000_0000_0000_0000)
            by (nonlinear_arith)
            requires
                i64::MIN <= x <= i64::MAX,
        ;
    }
    (x as i128) * (x as i128)
}

impl Vector {
    /// Returns this vector scaled by the fixed-point factor `magnitude`.
    pub fn multiple(&self, magnitude: &i64) -> (r: Vector)
        ensures
            r == spec_multiple(*self, *magnitude as int),
    {
        Vector { x: mul_fx_exec(self.x, *magnitude), y: mul_fx_exec(self.y, *magnitude) }
    }

    /// Returns the unit vector with this vector's direction, or `None` for
    /// the zero vector.
    pub fn normialize(&self) -> (r: Option<Vector>)
        ensures
            r == spec_normialized(*self),
    {
        if self.x == 0 && self.y == 0 {
            None
        } else {
            let xx: i128 = square_wide(self.x);
            let yy: i128 = square_wide(self.y);
            let n: u128 = (xx as u128) + (yy as u128);
            let m: u64 = isqrt(n);
            proof {
                assert(n as nat == spec_norm_sq(*self));
                lemma_sqrt_floor_bounds(spec_norm_sq(*self));
                assert(spec_norm_sq(*self) >= 1) by (nonlinear_arith)
                    requires
                        !(self.x == 0 && self.y == 0),
                        spec_norm_sq(*self) == (self.x as int * self.x as int + self.y as int
                            * self.y as int) as nat,
                ;
                let s = sqrt_floor(spec_norm_sq(*self));
                assert(s >= 1) by (nonlinear_arith)
                    requires
                        spec_norm_sq(*self) >= 1,
                        spec_norm_sq(*self) < (s + 1) * (s + 1),
                ;
                assert(m >= 1);
                assert(self.x as int * SCALE as int <= i128::MAX as int && self.x as int * SCALE
                    as int >= i128::MIN as int) by (nonlinear_arith)
                    requires
                        i64::MIN <= self.x <= i64::MAX,
                ;
                assert(self.y as int * SCALE as int <= i128::MAX as int && self.y as int * SCALE
                    as int >= i128::MIN as int) by (nonlinear_arith)
                    requires
                        i64::MIN <= self.y <= i64::MAX,
                ;
            }
            let ux: i64 = narrow(div_wide((self.x as i128) * (SCALE as i128), m as i128));
            let uy: i64 = narrow(div_wide((self.y as i128) * (SCALE as i128), m as i128));
            Some(Vector { x: ux, y: uy })
        }
    }

    /// Returns the Euclidean distance from this point to `other_position`,
    /// rounded down.
    pub fn get_distance(&self, other_position: &Vector) -> (r: i64)
        ensures
            r as int == spec_distance(*self, *other_position),
    {
        let dx: i64 = sub_sat(other_position.x, self.x);
        let dy: i64 = sub_sat(other_position.y, self.y);
        let dx2: i128 = square_wide(dx);
        let dy2: i128 = square_wide(dy);
        let n: u128 = (dx2 as u128) + (dy2 as u128);
        let r: u64 = isqrt(n);
        if r > i64::MAX as u64 {
            i64::MAX
        } else {
            r as i64
        }
    }
}

} // verus!
