//! Exact world coordinates.
//!
//! A [`Coord`] with coefficients `(axis, diag)` denotes the real number
//! `(axis + diag * sqrt(2)) / SUBUNITS_PER_UNIT`. All positions this library
//! produces are of that form: axis-aligned movement adds to `axis`, diagonal
//! movement adds to `diag`, and clamp bounds are plain subunit counts
//! (`diag == 0`). Comparison of two such numbers is decided exactly by the
//! sign of a difference `p + q * sqrt(2)`, which in turn reduces to comparing
//! `p * p` with `2 * (q * q)` — exact integer arithmetic throughout.

use vstd::prelude::*;

verus! {

/// Subunits per world unit. The factor 2000 makes both movement forms exact:
/// `speed * dt_ms` milliunits for an axis-aligned step (factor 1000 for
/// milliseconds, times 2), and a `diag` increment of `speed * dt_ms` for a
/// diagonal step, since `1 / sqrt(2) == sqrt(2) / 2`.
pub const SUBUNITS_PER_UNIT: i64 = 2000;

/// Largest coefficient magnitude (2^61) the comparison and clamp routines
/// accept; it keeps every intermediate square inside `i128`.
pub const COORD_LIMIT: i64 = 0x2000_0000_0000_0000;

/// One exact coordinate: the real number
/// `(axis + diag * sqrt(2)) / SUBUNITS_PER_UNIT`.
#[derive(Clone, Copy, Debug, PartialEq, Eq, Structural)]
pub struct Coord {
    /// Rational part, in subunits.
    pub axis: i64,
    /// Coefficient of `sqrt(2)`, in subunits.
    pub diag: i64,
}

/// Whether `p + q * sqrt(2) < 0`. For `q >= 0` this needs `p < 0` and
/// `p * p > 2 * (q * q)`; for `q < 0` it holds once `p <= 0`, and otherwise
/// needs `p * p < 2 * (q * q)`. The borderline `p * p == 2 * (q * q)` occurs for
/// integers only at `p == q == 0` (see `lemma_square_double_square_zero`), so
/// this case split decides the sign exactly.
pub open spec fn sqrt2_neg(p: int, q: int) -> bool {
    if q >= 0 {
        p < 0 && p * p > 2 * (q * q)
    } else {
        p <= 0 || p * p < 2 * (q * q)
    }
}

/// Strict order on coordinates: whether `a` denotes a smaller real number
/// than `b`.
pub open spec fn coord_lt(a: Coord, b: Coord) -> bool {
    sqrt2_neg(a.axis - b.axis, a.diag - b.diag)
}

/// Non-strict order on coordinates.
pub open spec fn coord_le(a: Coord, b: Coord) -> bool {
    !coord_lt(b, a)
}

/// Coefficients small enough for exact comparison (and hence for clamping).
pub open spec fn coord_ok(c: Coord) -> bool {
    &&& -COORD_LIMIT <= c.axis <= COORD_LIMIT
    &&& -COORD_LIMIT <= c.diag <= COORD_LIMIT
}

/// The clamp of `c` to `[lo, hi]`, testing the lower bound first; with
/// `lo <= hi` this is the usual clamp, and with an inverted interval the
/// lower bound wins, matching the per-axis `if`/`else if` of the clamp step.
pub open spec fn spec_clamp(c: Coord, lo: Coord, hi: Coord) -> Coord {
    if coord_lt(c, lo) {
        lo
    } else if coord_lt(hi, c) {
        hi
    } else {
        c
    }
}

/// Decides whether `p + q * sqrt(2) < 0`.
fn sqrt2_neg_exec(p: i128, q: i128) -> (r: bool)
    requires
        -0x4000_0000_0000_0000 <= p <= 0x4000_0000_0000_0000,
        -0x4000_0000_0000_0000 <= q <= 0x4000_0000_0000_0000,
    ensures
        r == sqrt2_neg(p as int, q as int),
{
    proof {
        assert(0 <= p * p <= 0x1000_0000_0000_0000_0000_0000_0000_0000) by (nonlinear_arith)
            requires
                -0x4000_0000_0000_0000 <= p <= 0x4000_0000_0000_0000,
        ;
        assert(0 <= q * q <= 0x1000_0000_0000_0000_0000_0000_0000_0000) by (nonlinear_arith)
            requires
                -0x4000_0000_0000_0000 <= q <= 0x4000_0000_0000_0000,
        ;
    }
    if q >= 0 {
        p < 0 && p * p > 2 * (q * q)
    } else {
        p <= 0 || p * p < 2 * (q * q)
    }
}

/// Descent step: over the naturals, `p * p == 2 * (q * q)` forces
/// `p == q == 0`. An odd `p` makes `p * p` odd while `2 * (q * q)` is even;
/// an even `p == 2 * h` gives `q * q == 2 * (h * h)` with `q < p`, and the
/// descent bottoms out.
proof fn lemma_sqrt2_descent(p: nat, q: nat)
    requires
        p * p == 2 * (q * q),
    ensures
        p == 0 && q == 0,
    decreases p,
{
    if p == 0 {
        assert(q * q == 0);
        assert(q == 0) by (nonlinear_arith)
            requires
                q * q == 0,
        ;
    } else {
        let h = p / 2;
        if p % 2 == 1 {
            assert(p == 2 * h + 1);
            assert(p * p == 4 * (h * h) + 4 * h + 1) by (nonlinear_arith)
                requires
                    p == 2 * h + 1,
            ;
            assert(false);
        } else {
            assert(p == 2 * h);
            assert(4 * (h * h) == 2 * (q * q)) by (nonlinear_arith)
                requires
                    p == 2 * h,
                    p * p == 2 * (q * q),
            ;
            assert(q < p) by (nonlinear_arith)
                requires
                    q * q == 2 * (h * h),
                    p == 2 * h,
                    p * p == 2 * (q * q),
                    p >= 1,
            ;
            lemma_sqrt2_descent(q, h);
            assert(false);
        }
    }
}

/// `sqrt(2)` is irrational: the only integer solution of
/// `p * p == 2 * (q * q)` is `p == q == 0`. Hence the borderline case of
/// `sqrt2_neg` never occurs and the coordinate order is total.
pub proof fn lemma_square_double_square_zero(p: int, q: int)
    requires
        p * p == 2 * (q * q),
    ensures
        p == 0 && q == 0,
{
    let pn: nat = (if p >= 0 { p } else { -p }) as nat;
    let qn: nat = (if q >= 0 { q } else { -q }) as nat;
    assert(pn * pn == p * p) by (nonlinear_arith)
        requires
            pn == (if p >= 0 { p } else { -p }),
    ;
    assert(qn * qn == q * q) by (nonlinear_arith)
        requires
            qn == (if q >= 0 { q } else { -q }),
    ;
    lemma_sqrt2_descent(pn, qn);
}

/// The coordinate order is sound: of two coordinates, either they are equal
/// or exactly one is strictly smaller — so `coord_lt` and `coord_le` behave
/// as the order of the real numbers they denote.
pub proof fn lemma_coord_order_total(a: Coord, b: Coord)
    ensures
        a == b || coord_lt(a, b) || coord_lt(b, a),
        !(coord_lt(a, b) && coord_lt(b, a)),
{
    let p: int = a.axis - b.axis;
    let q: int = a.diag - b.diag;
    assert((-p) * (-p) == p * p) by (nonlinear_arith);
    assert((-q) * (-q) == q * q) by (nonlinear_arith);
    if p * p == 2 * (q * q) {
        lemma_square_double_square_zero(p, q);
    }
    if p != 0 {
        assert(p * p > 0) by (nonlinear_arith)
            requires
                p != 0,
        ;
    }
}

/// A proper clamp lands in its interval: with `lo <= hi`, the clamp of any
/// coordinate lies between `lo` and `hi`.
pub proof fn lemma_clamp_in_interval(c: Coord, lo: Coord, hi: Coord)
    requires
        coord_le(lo, hi),
    ensures
        coord_le(lo, spec_clamp(c, lo, hi)),
        coord_le(spec_clamp(c, lo, hi), hi),
{
}

/// Clamps `c` to `[lo, hi]`, lower bound first. When the interval is proper
/// (`lo <= hi`) the result lies in it.
pub fn clamp_coord(c: Coord, lo: Coord, hi: Coord) -> (r: Coord)
    requires
        coord_ok(c),
        coord_ok(lo),
        coord_ok(hi),
    ensures
        r == spec_clamp(c, lo, hi),
        coord_ok(r),
        coord_le(lo, hi) ==> coord_le(lo, r) && coord_le(r, hi),
{
    let below = sqrt2_neg_exec(
        (c.axis as i128) - (lo.axis as i128),
        (c.diag as i128) - (lo.diag as i128),
    );
    if below {
        lo
    } else {
        let above = sqrt2_neg_exec(
            (hi.axis as i128) - (c.axis as i128),
            (hi.diag as i128) - (c.diag as i128),
        );
        if above {
            hi
        } else {
            c
        }
    }
}

} // verus!
