use vstd::prelude::*;
use crate::config::Config;
use crate::physics::{clamp, clamp_step, apply_gravity, gravity_step, integrate, integrate_step};
use crate::player::{Player, Vec2i};

verus! {

/// Velocity after the flap handler: overridden by the jump impulse when the
/// flap signal is set, untouched otherwise.
pub open spec fn flap_step(v: int, flap: bool, jump: int) -> int {
    if flap {
        jump
    } else {
        v
    }
}

/// One whole tick over the crate's mathematical model, in the fixed order
/// flap handler, gravity, bounds clamp, position integration. Returns
/// `(velocity', vertical position', audio trigger)`.
pub open spec fn tick_spec(v: int, y: int, flap: bool, dt: int, cfg: Config) -> (int, int, bool) {
    let v1 = flap_step(v, flap, cfg.jump_velocity as int);
    let v2 = gravity_step(v1, dt, cfg.gravity as int);
    let c = clamp_step(y, v2, cfg.lower_spec(), cfg.upper_spec());
    (c.1, integrate_step(c.0, c.1, dt), flap)
}

/// Every intermediate value of a tick fits the machine word. The clamped
/// position itself always fits (it is one of the bounds or the old position),
/// so only the two products and the two sums need stating.
pub open spec fn tick_fits(v: int, y: int, flap: bool, dt: int, cfg: Config) -> bool {
    let v1 = flap_step(v, flap, cfg.jump_velocity as int);
    let c = clamp_step(y, gravity_step(v1, dt, cfg.gravity as int), cfg.lower_spec(), cfg.upper_spec());
    &&& i64::MIN <= cfg.gravity * dt <= i64::MAX
    &&& i64::MIN <= v1 + cfg.gravity * dt <= i64::MAX
    &&& i64::MIN <= c.1 * dt <= i64::MAX
    &&& i64::MIN <= c.0 + c.1 * dt <= i64::MAX
}

/// The flap handler: a set flap signal overrides the velocity with the jump
/// impulse and requests exactly one fire-and-forget audio trigger (the second
/// component); an unset signal leaves the velocity untouched and requests
/// none.
pub fn handle_flap(v: i64, flap: bool, jump: i64) -> (r: (i64, bool))
    ensures
        r.0 as int == flap_step(v as int, flap, jump as int),
        r.1 == flap,
{
    if flap {
        (jump, true)
    } else {
        (v, false)
    }
}

/// One whole tick on one player: flap handler, gravity, bounds clamp,
/// position integration, in that fixed order. Returns the new player state,
/// the new position (horizontal component untouched) and whether the host
/// should fire the flap sound.
pub fn tick(p: Player, pos: Vec2i, flap: bool, dt: i64, cfg: &Config) -> (r: (Player, Vec2i, bool))
    requires
        cfg.wf(),
        0 <= dt,
        tick_fits(p.y_vel as int, pos.y as int, flap, dt as int, *cfg),
    ensures
        (r.0.y_vel as int, r.1.y as int, r.2) == tick_spec(
            p.y_vel as int,
            pos.y as int,
            flap,
            dt as int,
            *cfg,
        ),
        r.1.x == pos.x,
{
    let flapped: (i64, bool) = handle_flap(p.y_vel, flap, cfg.jump_velocity);
    let v2: i64 = apply_gravity(flapped.0, dt, cfg.gravity);
    let lo: i64 = cfg.lower_bound();
    let hi: i64 = cfg.upper_bound();
    let clamped: (i64, i64) = clamp(pos.y, v2, lo, hi);
    let pos2: Vec2i = integrate(Vec2i { x: pos.x, y: clamped.0 }, clamped.1, dt);
    (Player { y_vel: clamped.1 }, pos2, flapped.1)
}

proof fn lemma_i64_mul_fits_i128(a: int, b: int)
    requires
        i64::MIN <= a <= i64::MAX,
        i64::MIN <= b <= i64::MAX,
    ensures
        i128::MIN <= a * b <= i128::MAX,
{
    assert(i128::MIN <= a * b <= i128::MAX) by (nonlinear_arith)
        requires
            i64::MIN <= a <= i64::MAX,
            i64::MIN <= b <= i64::MAX,
    ;
}

/// A total entry point for hosts: runs [`tick`] when every intermediate value
/// fits the machine word and reports the overflow case as `None` instead of
/// demanding the bound up front.
pub fn tick_checked(p: Player, pos: Vec2i, flap: bool, dt: i64, cfg: &Config) -> (r: Option<
    (Player, Vec2i, bool),
>)
    requires
        cfg.wf(),
        0 <= dt,
    ensures
        r is Some <==> tick_fits(p.y_vel as int, pos.y as int, flap, dt as int, *cfg),
        (match r {
            Some(t) => (t.0.y_vel as int, t.1.y as int, t.2) == tick_spec(
                p.y_vel as int,
                pos.y as int,
                flap,
                dt as int,
                *cfg,
            ) && t.1.x == pos.x,
            None => true,
        }),
{
    let lo_w: i128 = i64::MIN as i128;
    let hi_w: i128 = i64::MAX as i128;
    let v1: i64 = if flap {
        cfg.jump_velocity
    } else {
        p.y_vel
    };
    proof {
        lemma_i64_mul_fits_i128(cfg.gravity as int, dt as int);
    }
    let gdt: i128 = (cfg.gravity as i128) * (dt as i128);
    if gdt < lo_w || hi_w < gdt {
        return None;
    }
    let v2_w: i128 = (v1 as i128) + gdt;
    if v2_w < lo_w || hi_w < v2_w {
        return None;
    }
    let v2: i64 = v2_w as i64;
    let lo: i64 = cfg.lower_bound();
    let hi: i64 = cfg.upper_bound();
    let clamped: (i64, i64) = clamp(pos.y, v2, lo, hi);
    proof {
        lemma_i64_mul_fits_i128(clamped.1 as int, dt as int);
    }
    let vdt: i128 = (clamped.1 as i128) * (dt as i128);
    if vdt < lo_w || hi_w < vdt {
        return None;
    }
    let y_w: i128 = (clamped.0 as i128) + vdt;
    if y_w < lo_w || hi_w < y_w {
        return None;
    }
    Some(tick(p, pos, flap, dt, cfg))
}

/// The tick on an optional player: when no player exists the tick is a silent
/// no-op and no audio fires, though the flap signal was still computed by the
/// caller; when one exists it is stepped exactly as by [`tick`].
pub fn tick_entity(ent: Option<(Player, Vec2i)>, flap: bool, dt: i64, cfg: &Config) -> (r: (
    Option<(Player, Vec2i)>,
    bool,
))
    requires
        cfg.wf(),
        0 <= dt,
        (match ent {
            Some(e) => tick_fits(e.0.y_vel as int, e.1.y as int, flap, dt as int, *cfg),
            None => true,
        }),
    ensures
        (match ent {
            None => r.0 is None && r.1 == false,
            Some(e) => (match r.0 {
                Some(t) => (t.0.y_vel as int, t.1.y as int, r.1) == tick_spec(
                    e.0.y_vel as int,
                    e.1.y as int,
                    flap,
                    dt as int,
                    *cfg,
                ) && t.1.x == e.1.x,
                None => false,
            }),
        }),
{
    match ent {
        None => (None, false),
        Some(e) => {
            let t: (Player, Vec2i, bool) = tick(e.0, e.1, flap, dt, cfg);
            (Some((t.0, t.1)), t.2)
        },
    }
}

} // verus!
