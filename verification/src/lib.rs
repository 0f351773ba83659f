//! A small simulation core for one controllable entity: per tick it integrates
//! keyboard-driven movement into the entity's position and then clamps that
//! position to the current viewport.
//!
//! Positions are kept in an exact arithmetic model: every coordinate is a
//! number of the form `(axis + diag * sqrt(2)) / 2000` with integer
//! coefficients. Axis-aligned movement changes `axis`; diagonal movement —
//! which advances each axis by `speed * dt / sqrt(2)` — changes `diag`. Both
//! are therefore exact, and the boundary clamp compares such numbers exactly.

pub mod coord;
pub mod input;
pub mod player;
pub mod laws;
