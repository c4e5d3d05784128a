//! Points on the play field and straight-line steps between them.
use vstd::prelude::*;

verus! {

/// A position on the play field, in thousandths of a pixel. At that grain
/// a step of `speed` pixels per second over `elapsed` milliseconds is the
/// whole number `speed * elapsed`.
#[derive(Clone, Copy, Debug, PartialEq, Eq, Structural)]
pub struct Point {
    pub x: i32,
    pub y: i32,
}

impl Point {
    pub fn new(x: i32, y: i32) -> (r: Point)
        ensures
            r.x == x,
            r.y == y,
    {
        Point { x, y }
    }
}

/// Squared straight-line distance between two points.
pub open spec fn dist_sq(a: Point, b: Point) -> nat {
    ((b.x - a.x) * (b.x - a.x) + (b.y - a.y) * (b.y - a.y)) as nat
}

pub open spec fn is_floor_sqrt(r: nat, n: nat) -> bool {
    r * r <= n && n < (r + 1) * (r + 1)
}

/// The largest `r` with `r * r <= n`.
pub open spec fn floor_sqrt(n: nat) -> nat {
    choose|r: nat| is_floor_sqrt(r, n)
}

/// Straight-line distance between two points, rounded down to a whole unit.
pub open spec fn distance(a: Point, b: Point) -> nat {
    floor_sqrt(dist_sq(a, b))
}

/// A number has one floor square root, so `floor_sqrt` is pinned down by any
/// `r` with `r * r <= n < (r + 1) * (r + 1)`.
pub proof fn lemma_floor_sqrt_unique(r1: nat, r2: nat, n: nat)
    requires
        is_floor_sqrt(r1, n),
        is_floor_sqrt(r2, n),
    ensures
        r1 == r2,
{
    if r1 < r2 {
        assert((r1 + 1) * (r1 + 1) <= r2 * r2) by (nonlinear_arith)
            requires
                r1 + 1 <= r2,
        ;
    } else if r2 < r1 {
        assert((r2 + 1) * (r2 + 1) <= r1 * r1) by (nonlinear_arith)
            requires
                r2 + 1 <= r1,
        ;
    }
}

/// Floor square root of `n`, by bisection.
fn isqrt(n: u128) -> (r: u64)
    requires
        n < 0x4_0000_0000_0000_0000,
    ensures
        r == floor_sqrt(n as nat),
        is_floor_sqrt(r as nat, n as nat),
{
    let mut lo: u64 = 0;
    let mut hi: u64 = 0x2_0000_0000;
    assert(hi as nat * hi as nat == 0x4_0000_0000_0000_0000);
    while lo + 1 < hi
        invariant
            lo < hi <= 0x2_0000_0000,
            lo as nat * lo as nat <= n,
            n < hi as nat * hi as nat,
        decreases hi - lo,
    {
        let mid: u64 = lo + (hi - lo) / 2;
        assert(mid as nat * mid as nat <= 0x4_0000_0000_0000_0000) by (nonlinear_arith)
            requires
                mid <= 0x2_0000_0000,
        ;
        if (mid as u128) * (mid as u128) <= n {
            lo = mid;
        } else {
            hi = mid;
        }
    }
    assert(is_floor_sqrt(lo as nat, n as nat)) by {
        assert(hi == lo + 1);
    }
    proof {
        lemma_floor_sqrt_unique(lo as nat, floor_sqrt(n as nat), n as nat);
    }
    lo
}

/// One coordinate after a step of `step` toward `b` out of a distance `dist`.
pub open spec fn toward(a: int, b: int, step: nat, dist: nat) -> int {
    if a <= b {
        a + (b - a) * (step as int) / (dist as int)
    } else {
        a - (a - b) * (step as int) / (dist as int)
    }
}

/// `v` lies between `a` and `b`, both included.
pub open spec fn between(a: int, v: int, b: int) -> bool {
    (a <= v <= b) || (b <= v <= a)
}

/// What one step of at most `step` units from `from` toward `to` gives.
pub open spec fn step_toward(from: Point, to: Point, step: nat) -> (Point, bool) {
    let d = distance(from, to);
    if step < d {
        (
            Point {
                x: toward(from.x as int, to.x as int, step, d) as i32,
                y: toward(from.y as int, to.y as int, step, d) as i32,
            },
            false,
        )
    } else {
        (to, true)
    }
}

proof fn lemma_abs_le_sqrt(a: nat, b: nat, r: nat)
    requires
        is_floor_sqrt(r, a * a + b * b),
    ensures
        a <= r,
{
    if a > r {
        assert((r + 1) * (r + 1) <= a * a) by (nonlinear_arith)
            requires
                r + 1 <= a,
        ;
        assert(0 <= b * b) by (nonlinear_arith);
    }
}

proof fn lemma_scaled_le(a: nat, step: nat, d: nat)
    requires
        step < d,
    ensures
        a * step / d <= a,
{
    assert(a * step <= a * d) by (nonlinear_arith)
        requires
            step < d,
    ;
    vstd::arithmetic::div_mod::lemma_div_is_ordered((a * step) as int, (a * d) as int, d as int);
    vstd::arithmetic::div_mod::lemma_div_multiples_vanish(a as int, d as int);
    assert(a * d == d * a) by (nonlinear_arith);
}

/// Moves from `from` toward `to` by at most `step` units. When the step
/// reaches the (whole-unit) distance, the result is exactly `to` and the
/// flag is set; otherwise each coordinate moves proportionally and never
/// passes the target's.
pub fn move_toward(from: Point, to: Point, step: u64) -> (r: (Point, bool))
    ensures
        r == step_toward(from, to, step as nat),
        step >= distance(from, to) ==> r.0 == to && r.1,
        between(from.x as int, r.0.x as int, to.x as int),
        between(from.y as int, r.0.y as int, to.y as int),
{
    let dx: i64 = to.x as i64 - from.x as i64;
    let dy: i64 = to.y as i64 - from.y as i64;
    let ax: u64 = if dx >= 0 { dx as u64 } else { (-dx) as u64 };
    let ay: u64 = if dy >= 0 { dy as u64 } else { (-dy) as u64 };
    assert(ax as nat * ax as nat <= 0x1_0000_0000_0000_0000) by (nonlinear_arith)
        requires
            ax <= 0x1_0000_0000,
    ;
    assert(ay as nat * ay as nat <= 0x1_0000_0000_0000_0000) by (nonlinear_arith)
        requires
            ay <= 0x1_0000_0000,
    ;
    let n: u128 = (ax as u128) * (ax as u128) + (ay as u128) * (ay as u128);
    assert(n as nat == dist_sq(from, to)) by (nonlinear_arith)
        requires
            ax as int == if dx >= 0 { dx as int } else { -dx },
            ay as int == if dy >= 0 { dy as int } else { -dy },
            dx == to.x - from.x,
            dy == to.y - from.y,
            n == ax * ax + ay * ay,
    ;
    let d: u64 = isqrt(n);
    if step < d {
        proof {
            assert(n as nat == ax as nat * ax as nat + ay as nat * ay as nat);
            lemma_abs_le_sqrt(ax as nat, ay as nat, d as nat);
            assert(n as nat == ay as nat * ay as nat + ax as nat * ax as nat);
            lemma_abs_le_sqrt(ay as nat, ax as nat, d as nat);
            lemma_scaled_le(ax as nat, step as nat, d as nat);
            lemma_scaled_le(ay as nat, step as nat, d as nat);
        }
        assert(ax as nat * step as nat <= 0x1_0000_0000 * 0x1_0000_0000_0000_0000) by (nonlinear_arith)
            requires
                ax <= 0x1_0000_0000,
                step < 0x1_0000_0000_0000_0000,
        ;
        assert(ay as nat * step as nat <= 0x1_0000_0000 * 0x1_0000_0000_0000_0000) by (nonlinear_arith)
            requires
                ay <= 0x1_0000_0000,
                step < 0x1_0000_0000_0000_0000,
        ;
        let mx: u64 = ((ax as u128) * (step as u128) / (d as u128)) as u64;
        let my: u64 = ((ay as u128) * (step as u128) / (d as u128)) as u64;
        let x: i32 = if dx >= 0 {
            (from.x as i64 + mx as i64) as i32
        } else {
            (from.x as i64 - mx as i64) as i32
        };
        let y: i32 = if dy >= 0 {
            (from.y as i64 + my as i64) as i32
        } else {
            (from.y as i64 - my as i64) as i32
        };
        (Point { x, y }, false)
    } else {
        (to, true)
    }
}

} // verus!
