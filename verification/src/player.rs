//! The player core: spawn, per-tick movement integration, and the boundary
//! clamp, in that fixed order.
//!
//! Speeds and radii are whole world units, elapsed time is whole
//! milliseconds, so every displacement is exact in the [`Coord`] model: an
//! axis-aligned tick adds `PLAYER_SPEED * dt_ms * 2` subunits to `axis`, and
//! a diagonal tick — `PLAYER_SPEED * dt / sqrt(2)` per axis — adds
//! `PLAYER_SPEED * dt_ms` subunits to `diag`.

use vstd::prelude::*;
use crate::coord::{
    Coord, clamp_coord, coord_le, coord_ok, spec_clamp, COORD_LIMIT, SUBUNITS_PER_UNIT,
};
use crate::input::{x_dir, x_step, y_dir, y_step, KeyState};

verus! {

/// Player movement speed, in world units per second.
pub const PLAYER_SPEED: i64 = 200;

/// Player sprite radius, in world units; the clamp keeps the whole sprite
/// inside the viewport.
pub const PLAYER_RADIUS: i64 = 32;

/// The radius in subunits: the lower clamp bound on both axes.
pub const PLAYER_RADIUS_SUB: i64 = PLAYER_RADIUS * SUBUNITS_PER_UNIT;

/// Largest coefficient magnitude the integrator accepts: one tick's
/// displacement (at most `PLAYER_SPEED * 2^32 * 2` subunits) then still fits
/// under [`COORD_LIMIT`], so the result can always be clamped.
pub const MOVE_LIMIT: i64 = COORD_LIMIT - 2_000_000_000_000;

/// The player's position: two exact planar coordinates and a depth layer
/// that is fixed at spawn and never changed by the per-tick steps.
#[derive(Clone, Copy, Debug, PartialEq, Eq, Structural)]
pub struct Position {
    /// Horizontal coordinate.
    pub x: Coord,
    /// Vertical coordinate.
    pub y: Coord,
    /// Depth layer, in subunits; constant after spawn.
    pub z: i64,
}

/// Current viewport size, in whole pixels (world units). Read fresh each
/// tick; it may change between ticks.
#[derive(Clone, Copy, Debug, PartialEq, Eq, Structural)]
pub struct Viewport {
    /// Width in pixels.
    pub width: u32,
    /// Height in pixels.
    pub height: u32,
}

/// Both planar coordinates fit the comparison bound.
pub open spec fn position_ok(p: Position) -> bool {
    coord_ok(p.x) && coord_ok(p.y)
}

/// A coordinate far enough from the coefficient limit for one tick's
/// displacement.
pub open spec fn coord_movable(c: Coord) -> bool {
    &&& -MOVE_LIMIT <= c.axis <= MOVE_LIMIT
    &&& -MOVE_LIMIT <= c.diag <= MOVE_LIMIT
}

/// Both planar coordinates are far enough from the coefficient limit.
pub open spec fn position_movable(p: Position) -> bool {
    coord_movable(p.x) && coord_movable(p.y)
}

/// Subunits an axis-aligned tick moves: `PLAYER_SPEED * dt_ms / 1000` world
/// units.
pub open spec fn axis_step(dt_ms: int) -> int {
    (PLAYER_SPEED as int) * dt_ms * 2
}

/// The `diag` increment of a diagonal tick, worth
/// `PLAYER_SPEED * dt_ms / 1000 / sqrt(2)` world units on this axis.
pub open spec fn diag_step(dt_ms: int) -> int {
    (PLAYER_SPEED as int) * dt_ms
}

/// One axis of the integration step: `d` is this axis's direction component
/// and `od` the other's, each in `{-1, 0, 1}`. A zero component leaves the
/// coordinate untouched; a lone component moves at full speed along `axis`;
/// a diagonal moves this axis by the normalized share, along `diag`.
pub open spec fn moved_coord(c: Coord, d: int, od: int, dt_ms: int) -> Coord {
    if d == 0 {
        c
    } else if od == 0 {
        Coord {
            axis: ((c.axis as int) + if d > 0 { axis_step(dt_ms) } else { -axis_step(dt_ms) }) as i64,
            diag: c.diag,
        }
    } else {
        Coord {
            axis: c.axis,
            diag: ((c.diag as int) + if d > 0 { diag_step(dt_ms) } else { -diag_step(dt_ms) }) as i64,
        }
    }
}

/// The position after one Movement Integrator tick: the direction vector
/// summed from the held keys, normalized, times `PLAYER_SPEED * dt_ms`;
/// depth unchanged.
pub open spec fn integrated(p: Position, k: KeyState, dt_ms: int) -> Position {
    Position {
        x: moved_coord(p.x, x_dir(k), y_dir(k), dt_ms),
        y: moved_coord(p.y, y_dir(k), x_dir(k), dt_ms),
        z: p.z,
    }
}

/// The lower clamp bound of both axes: the player radius.
pub open spec fn spec_low_bound() -> Coord {
    Coord { axis: PLAYER_RADIUS_SUB, diag: 0 }
}

/// The upper clamp bound of the x axis: viewport width minus the radius.
pub open spec fn spec_x_high(vp: Viewport) -> Coord {
    Coord {
        axis: ((vp.width as int) * (SUBUNITS_PER_UNIT as int) - (PLAYER_RADIUS_SUB as int)) as i64,
        diag: 0,
    }
}

/// The upper clamp bound of the y axis: viewport height minus the radius.
pub open spec fn spec_y_high(vp: Viewport) -> Coord {
    Coord {
        axis: ((vp.height as int) * (SUBUNITS_PER_UNIT as int) - (PLAYER_RADIUS_SUB as int)) as i64,
        diag: 0,
    }
}

/// A viewport at least one player diameter wide and high; below that the
/// clamp interval is inverted and the clamp degenerates (lower bound wins).
pub open spec fn viewport_fits(vp: Viewport) -> bool {
    &&& (vp.width as int) >= 2 * (PLAYER_RADIUS as int)
    &&& (vp.height as int) >= 2 * (PLAYER_RADIUS as int)
}

/// The whole sprite lies inside the viewport: each coordinate between the
/// radius and the viewport extent minus the radius.
pub open spec fn in_bounds(p: Position, vp: Viewport) -> bool {
    &&& coord_le(spec_low_bound(), p.x)
    &&& coord_le(p.x, spec_x_high(vp))
    &&& coord_le(spec_low_bound(), p.y)
    &&& coord_le(p.y, spec_y_high(vp))
}

/// The position after the Boundary Clamp: each axis clamped independently,
/// lower bound first; depth unchanged.
pub open spec fn confined(p: Position, vp: Viewport) -> Position {
    Position {
        x: spec_clamp(p.x, spec_low_bound(), spec_x_high(vp)),
        y: spec_clamp(p.y, spec_low_bound(), spec_y_high(vp)),
        z: p.z,
    }
}

/// The spawn point: the viewport centre `(width / 2, height / 2)`, exact
/// even for odd extents since a subunit is half a milliunit; depth zero.
pub open spec fn spawn_position(vp: Viewport) -> Position {
    Position {
        x: Coord { axis: ((vp.width as int) * 1000) as i64, diag: 0 },
        y: Coord { axis: ((vp.height as int) * 1000) as i64, diag: 0 },
        z: 0,
    }
}

/// Entity Spawn: the player starts centred in the viewport, at depth zero.
pub fn spawn_player(vp: &Viewport) -> (p: Position)
    ensures
        p == spawn_position(*vp),
        p.x == (Coord { axis: ((vp.width as int) * 1000) as i64, diag: 0 }),
        p.y == (Coord { axis: ((vp.height as int) * 1000) as i64, diag: 0 }),
        p.z == 0,
        position_movable(p),
        position_ok(p),
{
    let half: i64 = SUBUNITS_PER_UNIT / 2;
    Position {
        x: Coord { axis: (vp.width as i64) * half, diag: 0 },
        y: Coord { axis: (vp.height as i64) * half, diag: 0 },
        z: 0,
    }
}

/// Movement Integrator, one tick: adds the normalized key direction times
/// `PLAYER_SPEED * dt_ms` to the position. A zero direction (no key, or
/// opposing keys cancelling) and `dt_ms == 0` are exact no-ops.
pub fn move_position(p: &mut Position, keys: &KeyState, dt_ms: u32)
    requires
        position_movable(*old(p)),
    ensures
        *final(p) == integrated(*old(p), *keys, dt_ms as int),
        position_ok(*final(p)),
{
    let xd = x_step(keys);
    let yd = y_step(keys);
    let step_axis: i64 = PLAYER_SPEED * (dt_ms as i64) * 2;
    let step_diag: i64 = PLAYER_SPEED * (dt_ms as i64);
    if xd != 0 {
        if yd == 0 {
            let step: i64 = if xd > 0 { step_axis } else { -step_axis };
            p.x = Coord { axis: p.x.axis + step, diag: p.x.diag };
        } else {
            let step: i64 = if xd > 0 { step_diag } else { -step_diag };
            p.x = Coord { axis: p.x.axis, diag: p.x.diag + step };
        }
    }
    if yd != 0 {
        if xd == 0 {
            let step: i64 = if yd > 0 { step_axis } else { -step_axis };
            p.y = Coord { axis: p.y.axis + step, diag: p.y.diag };
        } else {
            let step: i64 = if yd > 0 { step_diag } else { -step_diag };
            p.y = Coord { axis: p.y.axis, diag: p.y.diag + step };
        }
    }
}

/// Boundary Clamp, one tick: clamps each axis to
/// `[PLAYER_RADIUS, extent - PLAYER_RADIUS]` against the viewport read this
/// tick, never a cached one.
pub fn confine_position(p: &mut Position, vp: &Viewport)
    requires
        position_ok(*old(p)),
    ensures
        *final(p) == confined(*old(p), *vp),
        position_ok(*final(p)),
        viewport_fits(*vp) ==> in_bounds(*final(p), *vp),
{
    let lo = Coord { axis: PLAYER_RADIUS_SUB, diag: 0 };
    let hi_x = Coord {
        axis: (vp.width as i64) * SUBUNITS_PER_UNIT - PLAYER_RADIUS_SUB,
        diag: 0,
    };
    let hi_y = Coord {
        axis: (vp.height as i64) * SUBUNITS_PER_UNIT - PLAYER_RADIUS_SUB,
        diag: 0,
    };
    p.x = clamp_coord(p.x, lo, hi_x);
    p.y = clamp_coord(p.y, lo, hi_y);
}

/// Movement Integrator over an optional player: silently skipped when the
/// player is absent, so the tick pipeline never fails.
pub fn move_player(player: &mut Option<Position>, keys: &KeyState, dt_ms: u32)
    requires
        (*old(player)) matches Some(p) ==> position_movable(p),
    ensures
        match *old(player) {
            None => *final(player) is None,
            Some(p) => *final(player) == Some(integrated(p, *keys, dt_ms as int))
                && position_ok(integrated(p, *keys, dt_ms as int)),
        },
{
    match player {
        Some(p) => move_position(p, keys, dt_ms),
        None => {}
    }
}

/// Boundary Clamp over an optional player: silently skipped when the player
/// is absent.
pub fn confine_player_movement(player: &mut Option<Position>, vp: &Viewport)
    requires
        (*old(player)) matches Some(p) ==> position_ok(p),
    ensures
        match *old(player) {
            None => *final(player) is None,
            Some(p) => *final(player) == Some(confined(p, *vp))
                && (viewport_fits(*vp) ==> in_bounds(confined(p, *vp), *vp)),
        },
{
    match player {
        Some(p) => confine_position(p, vp),
        None => {}
    }
}

/// One full simulation tick: Movement Integrator, then Boundary Clamp,
/// strictly in that order, so the position handed to the renderer is always
/// the clamp of the freshly integrated one.
pub fn player_tick(player: &mut Option<Position>, keys: &KeyState, dt_ms: u32, vp: &Viewport)
    requires
        (*old(player)) matches Some(p) ==> position_movable(p),
    ensures
        match *old(player) {
            None => *final(player) is None,
            Some(p) => *final(player) == Some(confined(integrated(p, *keys, dt_ms as int), *vp))
                && (viewport_fits(*vp)
                    ==> in_bounds(confined(integrated(p, *keys, dt_ms as int), *vp), *vp)),
        },
{
    move_player(player, keys, dt_ms);
    confine_player_movement(player, vp);
}

} // verus!
