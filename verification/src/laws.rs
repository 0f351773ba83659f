//! General laws of the tick pipeline, proved over the spec model that the
//! executable functions are verified against.

use vstd::prelude::*;
use crate::coord::lemma_clamp_in_interval;
use crate::input::{holds_down, holds_left, holds_right, holds_up, no_key_held, KeyState};
use crate::player::{
    confined, diag_step, in_bounds, integrated, position_movable, spawn_position, spec_low_bound,
    spec_x_high, spec_y_high, viewport_fits, Position, Viewport,
};

verus! {

/// Idle ticks are exact no-ops: for every elapsed time, if no key is held
/// the Movement Integrator leaves the position unchanged.
pub proof fn lemma_idle_tick_identity(p: Position, k: KeyState, dt_ms: int)
    requires
        no_key_held(k),
    ensures
        integrated(p, k, dt_ms) == p,
{
}

/// Opposing keys cancel: with Left and Right held together the net x
/// component of the direction vector is zero, so the x coordinate is
/// unchanged for every elapsed time; if no vertical key is held either, the
/// whole position is unchanged.
pub proof fn lemma_opposing_keys_cancel(p: Position, k: KeyState, dt_ms: int)
    requires
        holds_left(k),
        holds_right(k),
    ensures
        integrated(p, k, dt_ms).x == p.x,
        integrated(p, k, dt_ms).z == p.z,
        !holds_up(k) && !holds_down(k) ==> integrated(p, k, dt_ms) == p,
{
}

/// Unit-speed diagonal law: holding Up and Right together for `dt_ms`
/// advances each axis by exactly `PLAYER_SPEED * dt_ms / 1000 / sqrt(2)`
/// world units — the `diag` coefficient grows by `diag_step(dt_ms)` and the
/// `axis` coefficient is untouched — not by the full `PLAYER_SPEED * dt_ms /
/// 1000` per axis, which would grow `axis` by `2 * diag_step(dt_ms)`.
pub proof fn lemma_diagonal_unit_speed(p: Position, k: KeyState, dt_ms: int)
    requires
        holds_up(k),
        holds_right(k),
        !holds_left(k),
        !holds_down(k),
        position_movable(p),
        0 <= dt_ms <= 0xFFFF_FFFF,
    ensures
        integrated(p, k, dt_ms).x.axis == p.x.axis,
        integrated(p, k, dt_ms).x.diag as int == p.x.diag as int + diag_step(dt_ms),
        integrated(p, k, dt_ms).y.axis == p.y.axis,
        integrated(p, k, dt_ms).y.diag as int == p.y.diag as int + diag_step(dt_ms),
{
}

/// Alias equivalence: two key snapshots that hold the same directions — for
/// instance arrow Left alone and the letter A alone — integrate to the same
/// position, for every start position and elapsed time.
pub proof fn lemma_alias_equivalence(p: Position, k1: KeyState, k2: KeyState, dt_ms: int)
    requires
        holds_left(k1) == holds_left(k2),
        holds_right(k1) == holds_right(k2),
        holds_up(k1) == holds_up(k2),
        holds_down(k1) == holds_down(k2),
    ensures
        integrated(p, k1, dt_ms) == integrated(p, k2, dt_ms),
{
}

/// Clamp invariant: for every position and every viewport at least one
/// player diameter in each extent, the Boundary Clamp lands the position
/// inside `[PLAYER_RADIUS, extent - PLAYER_RADIUS]` on both axes.
pub proof fn lemma_clamp_invariant(p: Position, vp: Viewport)
    requires
        viewport_fits(vp),
    ensures
        in_bounds(confined(p, vp), vp),
{
    lemma_clamp_in_interval(p.x, spec_low_bound(), spec_x_high(vp));
    lemma_clamp_in_interval(p.y, spec_low_bound(), spec_y_high(vp));
}

/// The spawn point already satisfies the clamp invariant: in a viewport at
/// least one player diameter in each extent, the centre lies between the
/// radius and the extent minus the radius on both axes.
pub proof fn lemma_spawn_in_bounds(vp: Viewport)
    requires
        viewport_fits(vp),
    ensures
        in_bounds(spawn_position(vp), vp),
{
}

/// Order dependence, the sound half: a tick that integrates first and clamps
/// second always ends in bounds, whatever position it started from — even
/// one already outside the viewport.
pub proof fn lemma_integrate_then_clamp_in_bounds(
    p: Position,
    k: KeyState,
    dt_ms: int,
    vp: Viewport,
)
    requires
        viewport_fits(vp),
    ensures
        in_bounds(confined(integrated(p, k, dt_ms), vp), vp),
{
    lemma_clamp_invariant(integrated(p, k, dt_ms), vp);
}

} // verus!
