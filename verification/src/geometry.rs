//! Positions and straight-line steering.
//!
//! A position is a point in the world with integer coordinates measured in
//! thousandths of a world unit. Coordinates are kept within `COORD_LIMIT`
//! so that squared distances fit comfortably in a `u64`.

use vstd::prelude::*;

use crate::SCALE;

verus! {

/// Largest coordinate magnitude a well-formed position may hold
/// (100,000 world units from the origin on each axis).
pub const COORD_LIMIT: i64 = 100_000_000;

/// A point in the world, in thousandths of a world unit.
#[derive(Clone, Copy, Debug, PartialEq, Eq, Structural)]
pub struct Pos {
    pub x: i64,
    pub y: i64,
    pub z: i64,
}

impl Pos {
    /// All coordinates within `COORD_LIMIT`.
    pub open spec fn wf(self) -> bool {
        &&& -COORD_LIMIT <= self.x <= COORD_LIMIT
        &&& -COORD_LIMIT <= self.y <= COORD_LIMIT
        &&& -COORD_LIMIT <= self.z <= COORD_LIMIT
    }
}

/// Squared Euclidean distance between two points, as a mathematical integer.
pub open spec fn dist_sq(a: Pos, b: Pos) -> int {
    (a.x - b.x) * (a.x - b.x) + (a.y - b.y) * (a.y - b.y) + (a.z - b.z) * (a.z - b.z)
}

/// Squared distance in the horizontal plane only (the vertical axis is
/// ignored by steering).
pub open spec fn horizontal_dist_sq(a: Pos, b: Pos) -> int {
    (a.x - b.x) * (a.x - b.x) + (a.z - b.z) * (a.z - b.z)
}

/// The absolute difference of two coordinates, as a `u64`.
fn abs_diff(a: i64, b: i64) -> (r: u64)
    requires
        -COORD_LIMIT <= a <= COORD_LIMIT,
        -COORD_LIMIT <= b <= COORD_LIMIT,
    ensures
        r == if a >= b { a - b } else { b - a },
{
    if a >= b {
        (a - b) as u64
    } else {
        (b - a) as u64
    }
}

/// Squared Euclidean distance between two well-formed points.
pub fn dist_sq_exec(a: &Pos, b: &Pos) -> (r: u64)
    requires
        a.wf(),
        b.wf(),
    ensures
        r == dist_sq(*a, *b),
{
    let dx: u64 = abs_diff(a.x, b.x);
    let dy: u64 = abs_diff(a.y, b.y);
    let dz: u64 = abs_diff(a.z, b.z);
    assert(dx * dx == (a.x - b.x) * (a.x - b.x)) by (nonlinear_arith)
        requires dx == if a.x >= b.x { a.x - b.x } else { b.x - a.x };
    assert(dy * dy == (a.y - b.y) * (a.y - b.y)) by (nonlinear_arith)
        requires dy == if a.y >= b.y { a.y - b.y } else { b.y - a.y };
    assert(dz * dz == (a.z - b.z) * (a.z - b.z)) by (nonlinear_arith)
        requires dz == if a.z >= b.z { a.z - b.z } else { b.z - a.z };
    assert(dx <= 2 * COORD_LIMIT && dy <= 2 * COORD_LIMIT && dz <= 2 * COORD_LIMIT);
    assert(dx * dx <= 4 * COORD_LIMIT * COORD_LIMIT) by (nonlinear_arith)
        requires dx <= 2 * COORD_LIMIT;
    assert(dy * dy <= 4 * COORD_LIMIT * COORD_LIMIT) by (nonlinear_arith)
        requires dy <= 2 * COORD_LIMIT;
    assert(dz * dz <= 4 * COORD_LIMIT * COORD_LIMIT) by (nonlinear_arith)
        requires dz <= 2 * COORD_LIMIT;
    dx * dx + dy * dy + dz * dz
}

/// Squared distance in the horizontal plane between two well-formed points.
pub fn horizontal_dist_sq_exec(a: &Pos, b: &Pos) -> (r: u64)
    requires
        a.wf(),
        b.wf(),
    ensures
        r == horizontal_dist_sq(*a, *b),
{
    let dx: u64 = abs_diff(a.x, b.x);
    let dz: u64 = abs_diff(a.z, b.z);
    assert(dx * dx == (a.x - b.x) * (a.x - b.x)) by (nonlinear_arith)
        requires dx == if a.x >= b.x { a.x - b.x } else { b.x - a.x };
    assert(dz * dz == (a.z - b.z) * (a.z - b.z)) by (nonlinear_arith)
        requires dz == if a.z >= b.z { a.z - b.z } else { b.z - a.z };
    assert(dx * dx <= 4 * COORD_LIMIT * COORD_LIMIT) by (nonlinear_arith)
        requires dx <= 2 * COORD_LIMIT;
    assert(dz * dz <= 4 * COORD_LIMIT * COORD_LIMIT) by (nonlinear_arith)
        requires dz <= 2 * COORD_LIMIT;
    dx * dx + dz * dz
}

/// Helper for `sqrt_floor`: counts up from `r` to the last root whose
/// square does not exceed `n`.
pub open spec fn sqrt_from(n: int, r: int) -> int
    decreases n - r when 0 <= r <= n
{
    if r >= n || (r + 1) * (r + 1) > n {
        r
    } else {
        sqrt_from(n, r + 1)
    }
}

/// The integer square root: the largest `r` with `r * r <= n`.
pub open spec fn sqrt_floor(n: int) -> int {
    sqrt_from(n, 0)
}

/// `sqrt_from(n, r)` really is the integer square root, whenever the search
/// starts at a root that is not yet too large.
pub proof fn lemma_sqrt_from(n: int, r: int)
    requires
        0 <= r,
        r * r <= n,
        r <= n,
    ensures
        sqrt_from(n, r) * sqrt_from(n, r) <= n,
        n < (sqrt_from(n, r) + 1) * (sqrt_from(n, r) + 1),
        r <= sqrt_from(n, r),
    decreases n - r,
{
    if r >= n || (r + 1) * (r + 1) > n {
        if r >= n {
            assert(r == n);
            assert(n < (n + 1) * (n + 1)) by (nonlinear_arith)
                requires 0 <= n;
        }
    } else {
        assert((r + 1) * (r + 1) <= n);
        assert(r + 1 <= (r + 1) * (r + 1)) by (nonlinear_arith)
            requires 0 <= r;
        lemma_sqrt_from(n, r + 1);
    }
}

/// The integer square root is the unique `r` with `r * r <= n < (r+1)^2`.
pub proof fn lemma_sqrt_floor_unique(n: int, r: int)
    requires
        0 <= n,
        0 <= r,
        r * r <= n,
        n < (r + 1) * (r + 1),
    ensures
        r == sqrt_floor(n),
{
    assert(0 * 0 <= n && 0 <= n);
    lemma_sqrt_from(n, 0);
    let s = sqrt_floor(n);
    if r < s {
        assert((r + 1) * (r + 1) <= s * s) by (nonlinear_arith)
            requires 0 <= r, r + 1 <= s;
        assert(false);
    }
    if s < r {
        assert((s + 1) * (s + 1) <= r * r) by (nonlinear_arith)
            requires 0 <= s, s + 1 <= r;
        assert(false);
    }
}

/// The integer square root of `n`.
pub fn isqrt(n: u64) -> (r: u64)
    ensures
        r == sqrt_floor(n as int),
        r * r <= n,
        n < (r + 1) * (r + 1),
{
    let mut lo: u64 = 0;
    let mut hi: u64 = if n < 4_294_967_295 { n } else { 4_294_967_295 };
    proof {
        if n < 4_294_967_295 {
            assert(n < (n + 1) * (n + 1)) by (nonlinear_arith);
        } else {
            assert(n < (4_294_967_295 + 1) * (4_294_967_295int + 1));
        }
    }
    while lo < hi
        invariant
            lo <= hi,
            hi <= 4_294_967_295,
            lo * lo <= n,
            n < (hi + 1) * (hi + 1),
        decreases hi - lo,
    {
        let mid: u64 = lo + (hi - lo + 1) / 2;
        assert(lo < mid <= hi);
        assert(mid * mid <= 4_294_967_295u64 * 4_294_967_295u64) by (nonlinear_arith)
            requires mid <= 4_294_967_295;
        if mid * mid <= n {
            lo = mid;
        } else {
            hi = mid - 1;
        }
    }
    proof {
        lemma_sqrt_floor_unique(n as int, lo as int);
    }
    lo
}

/// One coordinate after moving `step` of the `dist` between `from` and
/// `to`, rounding the displacement toward zero.
pub open spec fn moved_coord(from: int, to: int, step: int, dist: int) -> int {
    if to >= from {
        from + ((to - from) * step) / dist
    } else {
        from - ((from - to) * step) / dist
    }
}

/// The position reached by walking from `p` straight toward `t` for `dt_ms`
/// milliseconds at `speed` length units per second. The walk is horizontal:
/// the vertical coordinate never changes. A walker already exactly at the
/// target's horizontal coordinates holds its position; one whose step
/// covers the remaining (floored) distance lands exactly on the target.
pub open spec fn walked(p: Pos, t: Pos, speed: u64, dt_ms: u64) -> Pos {
    let step = (speed * dt_ms) / (SCALE as int);
    let dsq = horizontal_dist_sq(p, t);
    let dist = sqrt_floor(dsq);
    if dsq == 0 {
        p
    } else if step >= dist {
        Pos { x: t.x, y: p.y, z: t.z }
    } else {
        Pos {
            x: moved_coord(p.x as int, t.x as int, step, dist) as i64,
            y: p.y,
            z: moved_coord(p.z as int, t.z as int, step, dist) as i64,
        }
    }
}

/// A moved coordinate stays between where it started and where it is headed.
proof fn lemma_moved_coord_bounds(from: int, to: int, step: int, dist: int)
    requires
        0 <= step < dist,
    ensures
        to >= from ==> from <= moved_coord(from, to, step, dist) <= to,
        to < from ==> to <= moved_coord(from, to, step, dist) <= from,
{
    if to >= from {
        let delta = to - from;
        assert(0 <= delta * step) by (nonlinear_arith)
            requires 0 <= delta, 0 <= step;
        assert(delta * step <= delta * dist) by (nonlinear_arith)
            requires 0 <= delta, step <= dist;
        assert(0 <= (delta * step) / dist);
        assert((delta * step) / dist <= (delta * dist) / dist) by {
            vstd::arithmetic::div_mod::lemma_div_is_ordered(delta * step, delta * dist, dist);
        }
        assert((delta * dist) / dist == delta) by {
            vstd::arithmetic::div_mod::lemma_div_by_multiple(delta, dist);
        }
    } else {
        let delta = from - to;
        assert(0 <= delta * step) by (nonlinear_arith)
            requires 0 <= delta, 0 <= step;
        assert(delta * step <= delta * dist) by (nonlinear_arith)
            requires 0 <= delta, step <= dist;
        assert(0 <= (delta * step) / dist);
        assert((delta * step) / dist <= (delta * dist) / dist) by {
            vstd::arithmetic::div_mod::lemma_div_is_ordered(delta * step, delta * dist, dist);
        }
        assert((delta * dist) / dist == delta) by {
            vstd::arithmetic::div_mod::lemma_div_by_multiple(delta, dist);
        }
    }
}

/// Walking keeps a position well-formed.
pub proof fn lemma_walked_wf(p: Pos, t: Pos, speed: u64, dt_ms: u64)
    requires
        p.wf(),
        t.wf(),
    ensures
        walked(p, t, speed, dt_ms).wf(),
        walked(p, t, speed, dt_ms).y == p.y,
{
    let step = (speed * dt_ms) / (SCALE as int);
    let dsq = horizontal_dist_sq(p, t);
    let dist = sqrt_floor(dsq);
    assert(0 <= step) by {
        assert(0 <= speed * dt_ms) by (nonlinear_arith);
    }
    if dsq != 0 && step < dist {
        lemma_moved_coord_bounds(p.x as int, t.x as int, step, dist);
        lemma_moved_coord_bounds(p.z as int, t.z as int, step, dist);
    }
}

/// Move `pos` straight toward `target` for `dt_ms` milliseconds at
/// `movement_speed` length units per second, clamping at the target and
/// ignoring vertical displacement.
pub fn walk_to(pos: &mut Pos, target: &Pos, movement_speed: u64, dt_ms: u64)
    requires
        old(pos).wf(),
        target.wf(),
    ensures
        *final(pos) == walked(*old(pos), *target, movement_speed, dt_ms),
        final(pos).wf(),
{
    proof {
        lemma_walked_wf(*pos, *target, movement_speed, dt_ms);
    }
    let dsq: u64 = horizontal_dist_sq_exec(pos, target);
    if dsq == 0 {
        return;
    }
    assert(dsq <= 8 * COORD_LIMIT * COORD_LIMIT) by (nonlinear_arith)
        requires
            dsq == (pos.x - target.x) * (pos.x - target.x)
                + (pos.z - target.z) * (pos.z - target.z),
            -COORD_LIMIT <= pos.x <= COORD_LIMIT,
            -COORD_LIMIT <= pos.z <= COORD_LIMIT,
            -COORD_LIMIT <= target.x <= COORD_LIMIT,
            -COORD_LIMIT <= target.z <= COORD_LIMIT;
    let dist: u64 = isqrt(dsq);
    assert(dist >= 1) by (nonlinear_arith)
        requires
            1 <= dsq,
            dsq < (dist + 1) * (dist + 1),
            0 <= dist;
    assert(movement_speed * dt_ms <= 0xffff_ffff_ffff_ffff_ffff_ffff_ffff_ffff) by (nonlinear_arith)
        requires
            0 <= movement_speed <= 0xffff_ffff_ffff_ffff,
            0 <= dt_ms <= 0xffff_ffff_ffff_ffff;
    let step_wide: u128 = (movement_speed as u128) * (dt_ms as u128) / (SCALE as u128);
    assert(step_wide == (movement_speed * dt_ms) / (SCALE as int));
    if step_wide >= dist as u128 {
        pos.x = target.x;
        pos.z = target.z;
        return;
    }
    let step: u64 = step_wide as u64;
    assert(step < dist);
    assert(dist * dist <= dsq);
    assert(dist <= 4 * COORD_LIMIT) by (nonlinear_arith)
        requires
            dist * dist <= 8 * COORD_LIMIT * COORD_LIMIT,
            0 <= dist;
    let mx: u64 = abs_diff(pos.x, target.x);
    let mz: u64 = abs_diff(pos.z, target.z);
    assert(mx * step <= (2 * COORD_LIMIT) * (4 * COORD_LIMIT)) by (nonlinear_arith)
        requires
            mx <= 2 * COORD_LIMIT,
            step <= 4 * COORD_LIMIT,
            0 <= mx && 0 <= step;
    assert(mz * step <= (2 * COORD_LIMIT) * (4 * COORD_LIMIT)) by (nonlinear_arith)
        requires
            mz <= 2 * COORD_LIMIT,
            step <= 4 * COORD_LIMIT,
            0 <= mz && 0 <= step;
    let move_x: u64 = mx * step / dist;
    let move_z: u64 = mz * step / dist;
    proof {
        lemma_moved_coord_bounds(pos.x as int, target.x as int, step as int, dist as int);
        lemma_moved_coord_bounds(pos.z as int, target.z as int, step as int, dist as int);
    }
    if target.x >= pos.x {
        pos.x = pos.x + move_x as i64;
    } else {
        pos.x = pos.x - move_x as i64;
    }
    if target.z >= pos.z {
        pos.z = pos.z + move_z as i64;
    } else {
        pos.z = pos.z - move_z as i64;
    }
}

} // verus!
