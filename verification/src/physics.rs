use vstd::prelude::*;
use crate::player::Vec2i;

verus! {

/// Velocity after gravity `g` has acted for `dt`: exactly `v + g * dt`, with
/// no clamping inside this rule.
pub open spec fn gravity_step(v: int, dt: int, g: int) -> int {
    v + g * dt
}

/// Vertical position after moving at velocity `v` for `dt`: exactly
/// `y + v * dt`.
pub open spec fn integrate_step(y: int, v: int, dt: int) -> int {
    y + v * dt
}

/// The clamp fires only when the position is out of bounds *and* the velocity
/// is still driving it further out; a corrected entity drifting back in is
/// left alone, so the clamp cannot oscillate.
pub open spec fn clamp_active(y: int, v: int, lo: int, hi: int) -> bool {
    (y < lo && v < 0) || (y > hi && v > 0)
}

/// Bounds clamp: position pinned to the violated bound and velocity zeroed
/// when the clamp fires, both unchanged otherwise. Returns
/// `(position', velocity')`.
pub open spec fn clamp_step(y: int, v: int, lo: int, hi: int) -> (int, int) {
    if y < lo && v < 0 {
        (lo, 0)
    } else if y > hi && v > 0 {
        (hi, 0)
    } else {
        (y, v)
    }
}

/// Gravity integration: returns `v + g * dt`, exactly.
pub fn apply_gravity(v: i64, dt: i64, g: i64) -> (r: i64)
    requires
        i64::MIN <= g * dt <= i64::MAX,
        i64::MIN <= v + g * dt <= i64::MAX,
    ensures
        r as int == gravity_step(v as int, dt as int, g as int),
{
    v + g * dt
}

/// Position integration: advances the vertical component by `v * dt` and
/// leaves the horizontal component untouched.
pub fn integrate(pos: Vec2i, v: i64, dt: i64) -> (r: Vec2i)
    requires
        i64::MIN <= v * dt <= i64::MAX,
        i64::MIN <= pos.y + v * dt <= i64::MAX,
    ensures
        r.x == pos.x,
        r.y as int == integrate_step(pos.y as int, v as int, dt as int),
{
    Vec2i { x: pos.x, y: pos.y + v * dt }
}

/// Bounds clamp on the vertical position; see [`clamp_step`] for the rule.
pub fn clamp(y: i64, v: i64, lo: i64, hi: i64) -> (r: (i64, i64))
    ensures
        (r.0 as int, r.1 as int) == clamp_step(y as int, v as int, lo as int, hi as int),
{
    if y < lo && v < 0 {
        (lo, 0)
    } else if y > hi && v > 0 {
        (hi, 0)
    } else {
        (y, v)
    }
}

} // verus!
