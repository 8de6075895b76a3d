use vstd::prelude::*;

verus! {

/// One full turn, in milliradians.
pub const TAU_MRAD: i64 = 6283;

/// Half a turn, in milliradians (rounded up, so two halves cover a turn).
pub const HALF_TURN_MRAD: i64 = 3142;

/// A quarter turn, in milliradians.
pub const QUARTER_TURN_MRAD: i64 = 1571;

/// Three quarters of a turn, in milliradians: the angle that points straight
/// up on a canvas whose y axis grows downward.
pub const UP_MRAD: i64 = 4712;

/// A stored angle is kept folded into [0, TAU_MRAD).
pub open spec fn angle_ok(a: int) -> bool {
    0 <= a < 6283
}

/// The stored angle after advancing `a` by one step `d`, folded back into
/// [0, TAU_MRAD).
pub open spec fn angle_after_step(a: int, d: int) -> int {
    if a + d < 0 {
        a + d + 6283
    } else if a + d >= 6283 {
        a + d - 6283
    } else {
        a + d
    }
}

/// Advance an angle by one step and fold the result back into [0, TAU_MRAD).
pub fn step_angle(a: i64, d: i64) -> (r: i64)
    requires
        angle_ok(a as int),
        -6283 < d < 6283,
    ensures
        r == angle_after_step(a as int, d as int),
        angle_ok(r as int),
{
    let moved = a + d;
    if moved < 0 {
        moved + TAU_MRAD
    } else if moved >= TAU_MRAD {
        moved - TAU_MRAD
    } else {
        moved
    }
}

/// The half-turn sine value, scaled by 1000: the parabola 4 a (h - a) / h^2
/// with h one half turn, which is 0 at the ends and 1 at the crest.
pub open spec fn sin_half_turn_val(a: int) -> int {
    4 * a * (3142 - a) * 1000 / 9872164
}

/// The sine of an angle in milliradians, scaled by 1000.
pub open spec fn sin_mrad_val(a: int) -> int {
    if a <= 3142 {
        sin_half_turn_val(a)
    } else {
        -sin_half_turn_val(a - 3142)
    }
}

/// The cosine of an angle in milliradians, scaled by 1000: the sine shifted
/// by a quarter turn.
pub open spec fn cos_mrad_val(a: int) -> int {
    sin_mrad_val(angle_after_step(a, 1571))
}

/// Approximate sine over the first half turn, scaled by 1000.
fn sin_half_turn(a: i64) -> (r: i64)
    requires
        0 <= a <= 3142,
    ensures
        r == sin_half_turn_val(a as int),
        0 <= r <= 1000,
        a == 0 ==> r == 0,
        a == 1571 ==> r == 1000,
        a == 3142 ==> r == 0,
{
    proof {
        assert(0 <= 4 * a * (3142 - a) <= 3142 * 3142) by (nonlinear_arith)
            requires
                0 <= a <= 3142,
        ;
    }
    let num: i64 = 4 * a * (3142 - a);
    proof {
        if a == 0 || a == 3142 {
            assert(4 * a * (3142 - a) == 0) by (nonlinear_arith)
                requires
                    a == 0 || a == 3142,
            ;
        }
        if a == 1571 {
            assert(4 * a * (3142 - a) == 9872164) by (nonlinear_arith)
                requires
                    a == 1571,
            ;
        }
    }
    num * 1000 / 9872164
}

/// Approximate sine of an angle in milliradians, scaled by 1000.
pub fn sin_mrad(a: i64) -> (r: i64)
    requires
        angle_ok(a as int),
    ensures
        r == sin_mrad_val(a as int),
        -1000 <= r <= 1000,
        a == 0 ==> r == 0,
        a == 1571 ==> r == 1000,
{
    if a <= HALF_TURN_MRAD {
        sin_half_turn(a)
    } else {
        -sin_half_turn(a - HALF_TURN_MRAD)
    }
}

/// Approximate cosine of an angle in milliradians, scaled by 1000: the sine
/// shifted by a quarter turn.
pub fn cos_mrad(a: i64) -> (r: i64)
    requires
        angle_ok(a as int),
    ensures
        r == cos_mrad_val(a as int),
        -1000 <= r <= 1000,
        a == 0 ==> r == 1000,
{
    let shifted = step_angle(a, QUARTER_TURN_MRAD);
    sin_mrad(shifted)
}

} // verus!
