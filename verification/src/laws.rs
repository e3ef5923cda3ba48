use vstd::prelude::*;
use crate::config::Config;
use crate::input::{flap_edge, Buttons};
use crate::physics::{clamp_active, clamp_step, gravity_step, integrate_step};
use crate::step::tick_spec;

verus! {

/// Law: the clamp is idempotent at rest. An entity sitting exactly on the
/// lower bound with zero velocity is returned unchanged, whatever the bounds.
pub proof fn lemma_clamp_at_rest(lo: int, hi: int)
    ensures
        clamp_step(lo, 0, lo, hi) == (lo, 0int),
{
}

/// Law: zero velocity means no motion. Integration over any elapsed time
/// returns the position unchanged.
pub proof fn lemma_integrate_zero_velocity(y: int, dt: int)
    ensures
        integrate_step(y, 0, dt) == y,
{
}

/// Law: buttons that merely stay in the same state, held or released,
/// produce no flap edge; the impulse can fire at most once per distinct
/// press, never once per tick held.
pub proof fn lemma_steady_buttons_no_edge(s: Buttons)
    ensures
        !flap_edge(s, s),
{
}

/// Law: with no flap edge on two consecutive ticks and no boundary contact on
/// either, the velocity is affected by gravity alone: it changes by exactly
/// `g * (dt1 + dt2)` over the two ticks.
pub proof fn lemma_no_flap_two_ticks_gravity_only(v: int, y: int, dt1: int, dt2: int, cfg: Config)
    requires
        !clamp_active(
            y,
            gravity_step(v, dt1, cfg.gravity as int),
            cfg.lower_spec(),
            cfg.upper_spec(),
        ),
        !clamp_active(
            tick_spec(v, y, false, dt1, cfg).1,
            gravity_step(tick_spec(v, y, false, dt1, cfg).0, dt2, cfg.gravity as int),
            cfg.lower_spec(),
            cfg.upper_spec(),
        ),
    ensures
        tick_spec(
            tick_spec(v, y, false, dt1, cfg).0,
            tick_spec(v, y, false, dt1, cfg).1,
            false,
            dt2,
            cfg,
        ).0 == v + cfg.gravity * (dt1 + dt2),
{
    assert(cfg.gravity * (dt1 + dt2) == cfg.gravity * dt1 + cfg.gravity * dt2)
        by (nonlinear_arith);
}

} // verus!
