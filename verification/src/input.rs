//! Input model: a per-tick snapshot of the eight movement keys.
//!
//! Each direction has two physical keys — an arrow key and a letter key —
//! that are aliases: a direction counts as held when either of its keys is
//! held, so holding both never doubles that axis's contribution. Opposing
//! directions compose additively before normalization and so cancel.

use vstd::prelude::*;

verus! {

/// Which of the eight movement keys are held this tick. Supplied fresh by
/// the host each tick; this library never caches or mutates it.
#[derive(Clone, Copy, Debug, PartialEq, Eq, Structural)]
pub struct KeyState {
    /// Left arrow key.
    pub left: bool,
    /// Right arrow key.
    pub right: bool,
    /// Up arrow key.
    pub up: bool,
    /// Down arrow key.
    pub down: bool,
    /// The letter A, an alias of the left arrow.
    pub key_a: bool,
    /// The letter D, an alias of the right arrow.
    pub key_d: bool,
    /// The letter W, an alias of the up arrow.
    pub key_w: bool,
    /// The letter S, an alias of the down arrow.
    pub key_s: bool,
}

/// Whether a leftward key (arrow Left or A) is held.
pub open spec fn holds_left(k: KeyState) -> bool {
    k.left || k.key_a
}

/// Whether a rightward key (arrow Right or D) is held.
pub open spec fn holds_right(k: KeyState) -> bool {
    k.right || k.key_d
}

/// Whether an upward key (arrow Up or W) is held.
pub open spec fn holds_up(k: KeyState) -> bool {
    k.up || k.key_w
}

/// Whether a downward key (arrow Down or S) is held.
pub open spec fn holds_down(k: KeyState) -> bool {
    k.down || k.key_s
}

/// Whether no movement key at all is held.
pub open spec fn no_key_held(k: KeyState) -> bool {
    &&& !k.left
    &&& !k.right
    &&& !k.up
    &&& !k.down
    &&& !k.key_a
    &&& !k.key_d
    &&& !k.key_w
    &&& !k.key_s
}

/// Net horizontal component of the direction vector before normalization:
/// `+1` for rightward, `-1` for leftward, summed, so opposing keys cancel.
pub open spec fn x_dir(k: KeyState) -> int {
    (if holds_right(k) { 1int } else { 0int }) - (if holds_left(k) { 1int } else { 0int })
}

/// Net vertical component of the direction vector before normalization:
/// `+1` for upward, `-1` for downward, summed.
pub open spec fn y_dir(k: KeyState) -> int {
    (if holds_up(k) { 1int } else { 0int }) - (if holds_down(k) { 1int } else { 0int })
}

/// Computes the net horizontal direction component.
pub fn x_step(k: &KeyState) -> (d: i64)
    ensures
        d as int == x_dir(*k),
        -1 <= d <= 1,
{
    let mut d: i64 = 0;
    if k.left || k.key_a {
        d = d - 1;
    }
    if k.right || k.key_d {
        d = d + 1;
    }
    d
}

/// Computes the net vertical direction component.
pub fn y_step(k: &KeyState) -> (d: i64)
    ensures
        d as int == y_dir(*k),
        -1 <= d <= 1,
{
    let mut d: i64 = 0;
    if k.up || k.key_w {
        d = d + 1;
    }
    if k.down || k.key_s {
        d = d - 1;
    }
    d
}

} // verus!
