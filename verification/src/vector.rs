use vstd::prelude::*;

use crate::rng::random_in_range;
use crate::trig::{cos_mrad, cos_mrad_val, sin_mrad, sin_mrad_val, TAU_MRAD};

verus! {

/// Positions and velocities are measured in milli-pixels: one pixel is 1000
/// units. A coordinate of a well-formed vector stays within this bound.
pub open spec fn coord_ok(v: int) -> bool {
    -900_000_000 <= v <= 900_000_000
}

/// A 2D point or velocity in milli-pixel units.
#[derive(Clone, Copy, PartialEq, Eq, Structural, Debug)]
pub struct Vector {
    pub x: i64,
    pub y: i64,
}

impl Vector {
    /// Both coordinates within the range the simulation works in.
    pub open spec fn wf(self) -> bool {
        coord_ok(self.x as int) && coord_ok(self.y as int)
    }

    pub fn new(x: i64, y: i64) -> (r: Vector)
        ensures
            r == (Vector { x, y }),
    {
        Vector { x, y }
    }

    /// Component-wise sum.
    pub fn add(self, other: Vector) -> (r: Vector)
        requires
            i64::MIN <= self.x + other.x <= i64::MAX,
            i64::MIN <= self.y + other.y <= i64::MAX,
        ensures
            r.x == self.x + other.x,
            r.y == self.y + other.y,
    {
        Vector { x: self.x + other.x, y: self.y + other.y }
    }

    /// A vector whose components are each drawn uniformly from [lo, hi).
    pub fn random(lo: i64, hi: i64) -> (r: Vector)
        requires
            lo < hi,
        ensures
            lo <= r.x < hi,
            lo <= r.y < hi,
    {
        Vector { x: random_in_range(lo, hi), y: random_in_range(lo, hi) }
    }

    /// A vector with a uniformly random direction and a magnitude drawn from
    /// [base * factor_permille / 1000, base): a length jittered below `base`.
    /// Whatever is drawn, the result is some magnitude in that range
    /// projected by the fixed-point trig at some angle.
    pub fn random_limit(base: i64, factor_permille: i64) -> (r: Vector)
        requires
            1 <= base <= 100_000_000,
            0 <= factor_permille < 1000,
        ensures
            -base <= r.x <= base,
            -base <= r.y <= base,
            exists|m: int, a: int|
                base * factor_permille / 1000 <= m < base && 0 <= a < 6283 && r.x == (
                #[trigger] scaled(m, cos_mrad_val(a))) && r.y == scaled(m, sin_mrad_val(a)),
    {
        proof {
            assert(0 <= base * factor_permille <= base * 1000 && base * factor_permille / 1000
                < base) by (nonlinear_arith)
                requires
                    1 <= base <= 100_000_000,
                    0 <= factor_permille < 1000,
            ;
        }
        let lo = base * factor_permille / 1000;
        let magnitude = random_in_range(lo, base);
        let angle = random_in_range(0, TAU_MRAD);
        let along = cos_mrad(angle);
        let across = sin_mrad(angle);
        proof {
            assert(-(base * 1000) <= magnitude * along <= base * 1000
                && -(base * 1000) <= magnitude * across <= base * 1000) by (nonlinear_arith)
                requires
                    0 <= magnitude < base <= 100_000_000,
                    -1000 <= along <= 1000,
                    -1000 <= across <= 1000,
            ;
        }
        let x = scale_component(magnitude, along);
        let y = scale_component(magnitude, across);
        proof {
            assert(x == scaled(magnitude as int, cos_mrad_val(angle as int)) && y == scaled(
                magnitude as int,
                sin_mrad_val(angle as int),
            ));
        }
        Vector { x, y }
    }
}

/// magnitude * factor / 1000, rounded toward zero.
pub open spec fn scaled(magnitude: int, factor: int) -> int {
    if factor >= 0 {
        magnitude * factor / 1000
    } else {
        -(magnitude * (-factor) / 1000)
    }
}

/// The executable form of `scaled`: the division is done on a non-negative
/// value, so its rounding is plain flooring.
pub(crate) fn scale_component(magnitude: i64, factor: i64) -> (r: i64)
    requires
        0 <= magnitude <= 100_000_000,
        -1000 <= factor <= 1000,
    ensures
        r == scaled(magnitude as int, factor as int),
        -magnitude <= r <= magnitude,
{
    if factor >= 0 {
        proof {
            assert(0 <= magnitude * factor <= magnitude * 1000 && magnitude * factor / 1000
                <= magnitude) by (nonlinear_arith)
                requires
                    0 <= magnitude <= 100_000_000,
                    0 <= factor <= 1000,
            ;
        }
        magnitude * factor / 1000
    } else {
        proof {
            assert(0 <= magnitude * (-factor) <= magnitude * 1000 && magnitude * (-factor) / 1000
                <= magnitude) by (nonlinear_arith)
                requires
                    0 <= magnitude <= 100_000_000,
                    -1000 <= factor < 0,
            ;
        }
        -(magnitude * (-factor) / 1000)
    }
}

} // verus!
