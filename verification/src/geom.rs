//! Integer plane geometry: squared distances, an exact integer square root,
//! movement along the ray toward the origin, and aimed velocity vectors.
//!
//! Coordinates are milliunits. All operations are exact integer arithmetic,
//! with rounding toward zero where a quotient is taken, so a moved point never
//! gains magnitude in either coordinate.

use vstd::prelude::*;
use vstd::arithmetic::div_mod::{lemma_div_is_ordered, lemma_div_multiples_vanish};
use vstd::arithmetic::mul::lemma_mul_inequality;

verus! {

/// A point or displacement of the world plane, in milliunits.
#[derive(Clone, Copy, PartialEq, Eq, Structural, Debug)]
pub struct Vec2 {
    pub x: i64,
    pub y: i64,
}

/// Largest coordinate magnitude any entity may carry; bullets beyond it are
/// discarded, so every squared distance fits in an `i64`.
pub const WORLD_LIMIT: i64 = 1_000_000_000;

/// The coordinate bound under which `dist_sq_exec` cannot overflow.
pub const COORD_LIMIT: i64 = 1_050_000_000;

pub open spec fn coord_bounded(c: int, limit: int) -> bool {
    -limit <= c <= limit
}

pub open spec fn vec_bounded(p: Vec2, limit: int) -> bool {
    coord_bounded(p.x as int, limit) && coord_bounded(p.y as int, limit)
}

/// Squared Euclidean distance between two points.
pub open spec fn dist_sq(a: Vec2, b: Vec2) -> int {
    (a.x - b.x) * (a.x - b.x) + (a.y - b.y) * (a.y - b.y)
}

/// Squared distance of a point from the origin.
pub open spec fn norm_sq(p: Vec2) -> int {
    p.x * p.x + p.y * p.y
}

pub proof fn lemma_dist_sq_sym(a: Vec2, b: Vec2)
    ensures
        dist_sq(a, b) == dist_sq(b, a),
{
    assert((a.x - b.x) * (a.x - b.x) == (b.x - a.x) * (b.x - a.x)) by (nonlinear_arith);
    assert((a.y - b.y) * (a.y - b.y) == (b.y - a.y) * (b.y - a.y)) by (nonlinear_arith);
}

/// Squared distance between two points whose coordinates are bounded.
pub fn dist_sq_exec(a: Vec2, b: Vec2) -> (d: i64)
    requires
        vec_bounded(a, COORD_LIMIT as int),
        vec_bounded(b, COORD_LIMIT as int),
    ensures
        d == dist_sq(a, b),
        d >= 0,
{
    proof {
        assert((a.x - b.x) * (a.x - b.x) >= 0) by (nonlinear_arith);
        assert((a.y - b.y) * (a.y - b.y) >= 0) by (nonlinear_arith);
        assert((a.x - b.x) * (a.x - b.x) <= 4_410_000_000_000_000_000) by (nonlinear_arith)
            requires
                -2_100_000_000 <= a.x - b.x <= 2_100_000_000,
        ;
        assert((a.y - b.y) * (a.y - b.y) <= 4_410_000_000_000_000_000) by (nonlinear_arith)
            requires
                -2_100_000_000 <= a.y - b.y <= 2_100_000_000,
        ;
    }
    let dx = a.x - b.x;
    let dy = a.y - b.y;
    dx * dx + dy * dy
}

/// The exact integer square root, defined by counting up.
pub open spec fn sqrt_floor(n: nat) -> nat
    decreases n,
{
    if n == 0 {
        0
    } else {
        let r = sqrt_floor((n - 1) as nat);
        if (r + 1) * (r + 1) <= n {
            r + 1
        } else {
            r
        }
    }
}

pub proof fn lemma_sqrt_floor_bounds(n: nat)
    ensures
        sqrt_floor(n) * sqrt_floor(n) <= n,
        n < (sqrt_floor(n) + 1) * (sqrt_floor(n) + 1),
    decreases n,
{
    let s = sqrt_floor(n);
    if n == 0 {
        assert(s == 0);
        assert(s * s <= n && n < (s + 1) * (s + 1)) by (nonlinear_arith)
            requires
                s == 0 && n == 0,
        ;
    } else {
        lemma_sqrt_floor_bounds((n - 1) as nat);
        let r = sqrt_floor((n - 1) as nat);
        if (r + 1) * (r + 1) <= n {
            assert(s == r + 1);
            assert(s * s <= n && n < (s + 1) * (s + 1)) by (nonlinear_arith)
                requires
                    s == r + 1,
                    (r + 1) * (r + 1) <= n,
                    n - 1 < (r + 1) * (r + 1),
                    r >= 0,
            ;
        } else {
            assert(s == r);
            assert(s * s <= n && n < (s + 1) * (s + 1)) by (nonlinear_arith)
                requires
                    s == r,
                    r * r <= n - 1,
                    n < (r + 1) * (r + 1),
                    n >= 1,
            ;
        }
    }
}

pub proof fn lemma_sqrt_floor_unique(n: nat, r: nat)
    requires
        r * r <= n,
        n < (r + 1) * (r + 1),
    ensures
        r == sqrt_floor(n),
{
    lemma_sqrt_floor_bounds(n);
    let s = sqrt_floor(n);
    if r < s {
        assert((r + 1) * (r + 1) <= s * s) by (nonlinear_arith)
            requires
                0 <= r + 1 <= s,
        ;
    }
    if s < r {
        assert((s + 1) * (s + 1) <= r * r) by (nonlinear_arith)
            requires
                0 <= s + 1 <= r,
        ;
    }
}

/// A nonnegative value is bounded by any value whose successor out-squares it.
pub proof fn lemma_le_sqrt(a: int, n: int, b: int)
    requires
        a >= 0,
        b >= 0,
        a * a <= n,
        n < (b + 1) * (b + 1),
    ensures
        a <= b,
{
    if a > b {
        assert((b + 1) * (b + 1) <= a * a) by (nonlinear_arith)
            requires
                0 <= b + 1 <= a,
        ;
    }
}

/// Integer square root by bisection.
pub fn isqrt(n: u64) -> (r: u64)
    ensures
        r == sqrt_floor(n as nat),
        r * r <= n,
        n < (r + 1) * (r + 1),
{
    let mut lo: u64 = 0;
    let mut hi: u64 = 4_294_967_296;
    proof {
        assert(u64::MAX < 4_294_967_296int * 4_294_967_296int) by (nonlinear_arith);
    }
    while lo + 1 < hi
        invariant
            lo < hi <= 4_294_967_296,
            lo * lo <= n,
            n < hi * hi,
        decreases hi - lo,
    {
        let mid = lo + (hi - lo) / 2;
        proof {
            assert((mid as int) * (mid as int) <= 4_294_967_296int * 4_294_967_296int)
                by (nonlinear_arith)
                requires
                    0 <= mid <= 4_294_967_296int,
            ;
            assert(4_294_967_296int * 4_294_967_296int < u128::MAX) by (nonlinear_arith);
        }
        let sq: u128 = (mid as u128) * (mid as u128);
        if sq <= n as u128 {
            lo = mid;
        } else {
            hi = mid;
        }
    }
    proof {
        lemma_sqrt_floor_unique(n as nat, lo as nat);
    }
    lo
}

/// For `a >= 0` and `0 <= b <= d`, scaling by `b/d` cannot grow a value.
pub proof fn lemma_mul_div_le(a: int, b: int, d: int)
    requires
        a >= 0,
        0 <= b <= d,
        0 < d,
    ensures
        0 <= a * b / d <= a,
{
    lemma_mul_inequality(b, d, a);
    assert(a * b >= 0) by (nonlinear_arith)
        requires
            a >= 0 && b >= 0,
    ;
    assert(a * b == b * a && a * d == d * a) by (nonlinear_arith);
    lemma_div_is_ordered(a * b, a * d, d);
    lemma_div_multiples_vanish(a, d);
    assert(a * b / d >= 0) by (nonlinear_arith)
        requires
            a * b >= 0 && d > 0,
    ;
}

/// One coordinate of a point after moving `step` of its `dist` toward zero,
/// rounding the displacement toward zero.
pub open spec fn shrunk_coord(c: int, step: int, dist: int) -> int {
    if c >= 0 {
        c - c * step / dist
    } else {
        c + (-c) * step / dist
    }
}

/// The point after moving `step` milliunits along the ray toward the origin,
/// stopping at the origin when the step is at least the whole distance.
pub open spec fn stepped_toward_origin(p: Vec2, step: int) -> Vec2 {
    let dist = sqrt_floor(norm_sq(p) as nat) as int;
    if dist <= step {
        Vec2 { x: 0i64, y: 0i64 }
    } else {
        Vec2 {
            x: shrunk_coord(p.x as int, step, dist) as i64,
            y: shrunk_coord(p.y as int, step, dist) as i64,
        }
    }
}

/// Moves a point `step` milliunits toward the origin, never past it.
pub fn step_toward_origin(p: Vec2, step: u64) -> (q: Vec2)
    requires
        vec_bounded(p, 240_000),
    ensures
        q == stepped_toward_origin(p, step as int),
        p.x >= 0 ==> 0 <= q.x <= p.x,
        p.x <= 0 ==> p.x <= q.x <= 0,
        p.y >= 0 ==> 0 <= q.y <= p.y,
        p.y <= 0 ==> p.y <= q.y <= 0,
{
    let d2 = dist_sq_exec(p, Vec2 { x: 0, y: 0 });
    proof {
        assert(dist_sq(p, Vec2 { x: 0i64, y: 0i64 }) == norm_sq(p));
    }
    let dist = isqrt(d2 as u64);
    if dist <= step {
        Vec2 { x: 0, y: 0 }
    } else {
        // here 0 <= step < dist, and dist <= 339_412 since norm_sq(p) <= 2 * 240_000^2
        proof {
            assert(p.x * p.x <= 57_600_000_000 && p.y * p.y <= 57_600_000_000)
                by (nonlinear_arith)
                requires
                    -240_000 <= p.x <= 240_000 && -240_000 <= p.y <= 240_000,
            ;
            assert(115_200_000_000 < (339_412int + 1) * (339_412int + 1)) by (nonlinear_arith);
            lemma_le_sqrt(dist as int, d2 as int, 339_412int);
        }
        let ax: u64 = if p.x >= 0 { p.x as u64 } else { (-p.x) as u64 };
        let ay: u64 = if p.y >= 0 { p.y as u64 } else { (-p.y) as u64 };
        proof {
            assert(ax * step <= 240_000int * 339_412int) by (nonlinear_arith)
                requires
                    0 <= ax <= 240_000 && 0 <= step <= 339_412int,
            ;
            assert(ay * step <= 240_000int * 339_412int) by (nonlinear_arith)
                requires
                    0 <= ay <= 240_000 && 0 <= step <= 339_412int,
            ;
        }
        let sx = ax * step / dist;
        let sy = ay * step / dist;
        proof {
            lemma_mul_div_le(ax as int, step as int, dist as int);
            lemma_mul_div_le(ay as int, step as int, dist as int);
        }
        let qx: i64 = if p.x >= 0 { p.x - sx as i64 } else { p.x + sx as i64 };
        let qy: i64 = if p.y >= 0 { p.y - sy as i64 } else { p.y + sy as i64 };
        Vec2 { x: qx, y: qy }
    }
}

/// One coordinate of a vector of magnitude `speed` pointing along `(d, _)`
/// where `dist` is the vector's length, rounding toward zero.
pub open spec fn scaled_coord(d: int, speed: int, dist: int) -> int {
    if d >= 0 {
        d * speed / dist
    } else {
        -((-d) * speed / dist)
    }
}

/// The velocity of a bullet fired from `from` toward `to`: the unit vector
/// toward the target scaled by `speed`, or straight along the x axis when the
/// two points coincide so closely that their integer distance is zero.
pub open spec fn aimed_velocity(from: Vec2, to: Vec2, speed: int) -> Vec2 {
    let dist = sqrt_floor(dist_sq(from, to) as nat) as int;
    if dist == 0 {
        Vec2 { x: speed as i64, y: 0i64 }
    } else {
        Vec2 {
            x: scaled_coord(to.x - from.x, speed, dist) as i64,
            y: scaled_coord(to.y - from.y, speed, dist) as i64,
        }
    }
}

/// Computes the velocity of a bullet fired from `from` toward `to`.
pub fn aim_velocity(from: Vec2, to: Vec2, speed: i64) -> (v: Vec2)
    requires
        vec_bounded(from, 400_000),
        vec_bounded(to, 400_000),
        0 < speed <= 29_000,
    ensures
        v == aimed_velocity(from, to, speed as int),
        vec_bounded(v, speed as int),
{
    let d2 = dist_sq_exec(to, from);
    proof {
        lemma_dist_sq_sym(from, to);
    }
    let dist = isqrt(d2 as u64);
    if dist == 0 {
        Vec2 { x: speed, y: 0 }
    } else {
        let dx = to.x - from.x;
        let dy = to.y - from.y;
        let adx: u64 = if dx >= 0 { dx as u64 } else { (-dx) as u64 };
        let ady: u64 = if dy >= 0 { dy as u64 } else { (-dy) as u64 };
        proof {
            assert(adx * adx == dx * dx && ady * ady == dy * dy) by (nonlinear_arith)
                requires
                    (adx == dx || adx == -(dx as int)) && (ady == dy || ady == -(dy as int)),
            ;
            assert(adx * adx >= 0 && ady * ady >= 0) by (nonlinear_arith);
            lemma_le_sqrt(adx as int, d2 as int, dist as int);
            lemma_le_sqrt(ady as int, d2 as int, dist as int);
            assert(adx * (speed as int) <= 800_000int * 29_000int) by (nonlinear_arith)
                requires
                    0 <= adx <= 800_000 && 0 < speed <= 29_000,
            ;
            assert(ady * (speed as int) <= 800_000int * 29_000int) by (nonlinear_arith)
                requires
                    0 <= ady <= 800_000 && 0 < speed <= 29_000,
            ;
        }
        let sx = adx * (speed as u64) / dist;
        let sy = ady * (speed as u64) / dist;
        proof {
            lemma_mul_div_le(speed as int, adx as int, dist as int);
            lemma_mul_div_le(speed as int, ady as int, dist as int);
            assert(adx * (speed as int) == (speed as int) * adx) by (nonlinear_arith);
            assert(ady * (speed as int) == (speed as int) * ady) by (nonlinear_arith);
        }
        let vx: i64 = if dx >= 0 { sx as i64 } else { -(sx as i64) };
        let vy: i64 = if dy >= 0 { sy as i64 } else { -(sy as i64) };
        Vec2 { x: vx, y: vy }
    }
}

} // verus!
