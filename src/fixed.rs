//! Fixed-point helpers shared by the gameplay modules.

use vstd::prelude::*;

verus! {

/// A ratio of `ONE` stands for 1.0.
pub const ONE: u64 = 1000;

/// One second in microseconds.
pub const SECOND: u64 = 1_000_000;

/// Upper bound kept by every stat and hit-point value.
pub const CAP: u64 = 1_000_000_000_000;

/// `a` scaled by the ratio `r`, rounded down and capped at `CAP`.
pub open spec fn scaled(a: int, r: int) -> int {
    if a * r / (ONE as int) > CAP as int {
        CAP as int
    } else {
        a * r / (ONE as int)
    }
}

/// `a + b`, capped at `CAP`.
pub open spec fn capped_sum(a: int, b: int) -> int {
    if a + b > CAP as int {
        CAP as int
    } else {
        a + b
    }
}

/// The share left over by a reduction: `ONE - r`, never below zero.
pub open spec fn remaining_share(r: int) -> int {
    if r >= ONE as int {
        0
    } else {
        ONE as int - r
    }
}

pub fn scale(a: u64, r: u64) -> (out: u64)
    requires
        a <= CAP,
        r <= CAP,
    ensures
        out as int == scaled(a as int, r as int),
        out <= CAP,
{
    proof {
        assert(a * r <= CAP * CAP) by (nonlinear_arith)
            requires
                a <= CAP,
                r <= CAP,
        ;
    }
    let p = (a as u128) * (r as u128) / (ONE as u128);
    if p > CAP as u128 {
        CAP
    } else {
        p as u64
    }
}

pub fn add_capped(a: u64, b: u64) -> (out: u64)
    ensures
        out as int == capped_sum(a as int, b as int),
        out <= CAP,
{
    if (a as u128) + (b as u128) > CAP as u128 {
        CAP
    } else {
        a + b
    }
}

pub fn share_left(r: u64) -> (out: u64)
    ensures
        out as int == remaining_share(r as int),
        out <= ONE,
{
    if r >= ONE {
        0
    } else {
        ONE - r
    }
}

/// Integer square root: the largest `s` with `s * s <= n`.
pub fn isqrt(n: u64) -> (s: u64)
    ensures
        s * s <= n,
        n < (s + 1) * (s + 1),
{
    let mut lo: u64 = 0;
    let mut hi: u64 = 4_294_967_296;
    proof {
        assert(n < hi * hi) by (nonlinear_arith)
            requires hi == 4_294_967_296u64, n <= u64::MAX;
    }
    while lo + 1 < hi
        invariant
            lo < hi,
            hi <= 4_294_967_296,
            lo * lo <= n,
            n < hi * hi,
        decreases hi - lo,
    {
        let mid = lo + (hi - lo) / 2;
        proof {
            assert(mid * mid <= 4_294_967_296 * 4_294_967_296) by (nonlinear_arith)
                requires
                    mid <= 4_294_967_296u64,
            ;
        }
        if (mid as u128) * (mid as u128) <= n as u128 {
            lo = mid;
        } else {
            hi = mid;
        }
    }
    lo
}

/// Largest coordinate magnitude, in thousandths of a pixel.
pub const COORD_LIMIT: i64 = 1_000_000_000;

/// `v * m / d`, rounded toward zero.
pub open spec fn signed_ratio(v: int, m: int, d: int) -> int {
    if v >= 0 {
        v * m / d
    } else {
        -((-v) * m / d)
    }
}

/// `v` held within `[-COORD_LIMIT, COORD_LIMIT]`.
pub open spec fn clamp_coord(v: int) -> int {
    if v > COORD_LIMIT {
        COORD_LIMIT as int
    } else if v < -COORD_LIMIT {
        -COORD_LIMIT as int
    } else {
        v
    }
}

/// A coordinate moved by `velocity` (per second) over `dt` microseconds,
/// held within the coordinate limits.
pub open spec fn moved(pos: int, velocity: int, dt: int) -> int {
    clamp_coord(pos + signed_ratio(velocity, dt, SECOND as int))
}

pub fn mul_div_signed(v: i64, m: u64, d: u64) -> (r: i64)
    requires
        -(CAP as int) <= v <= CAP,
        m <= d,
        d > 0,
    ensures
        r == signed_ratio(v as int, m as int, d as int),
        -(CAP as int) <= r <= CAP,
        v >= 0 ==> 0 <= r <= v,
        v < 0 ==> v <= r <= 0,
{
    let mag: u128 = if v >= 0 { v as u128 } else { (-v) as u128 };
    proof {
        assert(mag * m <= mag * d) by (nonlinear_arith)
            requires
                m <= d,
        ;
        assert(mag * m / (d as int) <= mag) by (nonlinear_arith)
            requires
                mag * m <= mag * d,
                d > 0,
        ;
    }
    proof {
        assert(mag * m <= CAP * 18_446_744_073_709_551_615) by (nonlinear_arith)
            requires
                mag <= CAP,
                m <= 18_446_744_073_709_551_615,
        ;
    }
    let q = mag * (m as u128) / (d as u128);
    if v >= 0 {
        q as i64
    } else {
        -(q as i64)
    }
}

pub fn move_coord(pos: i64, velocity: i64, dt: u64) -> (r: i64)
    requires
        -COORD_LIMIT <= pos <= COORD_LIMIT,
        -(CAP as int) <= velocity <= CAP,
        dt <= SECOND,
    ensures
        r == moved(pos as int, velocity as int, dt as int),
        -COORD_LIMIT <= r <= COORD_LIMIT,
{
    let delta = mul_div_signed(velocity, dt, SECOND);
    let p = pos + delta;
    if p > COORD_LIMIT {
        COORD_LIMIT
    } else if p < -COORD_LIMIT {
        -COORD_LIMIT
    } else {
        p
    }
}

/// Squared distance between two points.
pub open spec fn dist_sq(ax: int, ay: int, bx: int, by: int) -> int {
    (ax - bx) * (ax - bx) + (ay - by) * (ay - by)
}

pub fn distance_squared(ax: i64, ay: i64, bx: i64, by: i64) -> (r: u128)
    requires
        -COORD_LIMIT <= ax <= COORD_LIMIT,
        -COORD_LIMIT <= ay <= COORD_LIMIT,
        -COORD_LIMIT <= bx <= COORD_LIMIT,
        -COORD_LIMIT <= by <= COORD_LIMIT,
    ensures
        r == dist_sq(ax as int, ay as int, bx as int, by as int),
        r <= 8 * COORD_LIMIT * COORD_LIMIT,
{
    let dx: i128 = ax as i128 - bx as i128;
    let dy: i128 = ay as i128 - by as i128;
    let ux: u128 = if dx >= 0 { dx as u128 } else { (-dx) as u128 };
    let uy: u128 = if dy >= 0 { dy as u128 } else { (-dy) as u128 };
    proof {
        assert(ux * ux <= 4 * COORD_LIMIT * COORD_LIMIT) by (nonlinear_arith)
            requires
                ux <= 2 * COORD_LIMIT,
        ;
        assert(uy * uy <= 4 * COORD_LIMIT * COORD_LIMIT) by (nonlinear_arith)
            requires
                uy <= 2 * COORD_LIMIT,
        ;
        assert(ux * ux == dx * dx) by (nonlinear_arith)
            requires
                ux == dx || ux == -dx,
        ;
        assert(uy * uy == dy * dy) by (nonlinear_arith)
            requires
                uy == dy || uy == -dy,
        ;
    }
    ux * ux + uy * uy
}

/// Two circles overlap: the distance between their centres is below the
/// sum of their radii.
pub open spec fn circles_overlap(ax: int, ay: int, ar: int, bx: int, by: int, br: int) -> bool {
    dist_sq(ax, ay, bx, by) < (ar + br) * (ar + br)
}

pub fn overlap(ax: i64, ay: i64, ar: u64, bx: i64, by: i64, br: u64) -> (r: bool)
    requires
        -COORD_LIMIT <= ax <= COORD_LIMIT,
        -COORD_LIMIT <= ay <= COORD_LIMIT,
        -COORD_LIMIT <= bx <= COORD_LIMIT,
        -COORD_LIMIT <= by <= COORD_LIMIT,
        ar <= CAP,
        br <= CAP,
    ensures
        r == circles_overlap(ax as int, ay as int, ar as int, bx as int, by as int, br as int),
{
    let d = distance_squared(ax, ay, bx, by);
    let s = (ar as u128) + (br as u128);
    proof {
        assert(s * s <= 4 * CAP * CAP) by (nonlinear_arith)
            requires
                s <= 2 * CAP,
        ;
    }
    d < s * s
}

/// `s` is the integer square root of `n`.
pub open spec fn is_int_sqrt(s: int, n: int) -> bool {
    s >= 0 && s * s <= n < (s + 1) * (s + 1)
}

/// The integer square root of `n`.
pub open spec fn int_sqrt(n: int) -> int {
    choose|s: int| is_int_sqrt(s, n)
}

proof fn lemma_int_sqrt_unique(a: int, b: int, n: int)
    requires
        is_int_sqrt(a, n),
        is_int_sqrt(b, n),
    ensures
        a == b,
{
    if a < b {
        assert((a + 1) * (a + 1) <= b * b) by (nonlinear_arith)
            requires
                0 <= a,
                a + 1 <= b,
        ;
    } else if b < a {
        assert((b + 1) * (b + 1) <= a * a) by (nonlinear_arith)
            requires
                0 <= b,
                b + 1 <= a,
        ;
    }
}

/// The integer square root, as `int_sqrt` names it.
pub fn sqrt_floor(n: u128) -> (s: u64)
    requires
        n <= u64::MAX,
    ensures
        s == int_sqrt(n as int),
        is_int_sqrt(s as int, n as int),
{
    let s = isqrt(n as u64);
    proof {
        assert(is_int_sqrt(s as int, n as int));
        let c = int_sqrt(n as int);
        assert(is_int_sqrt(c, n as int));
        lemma_int_sqrt_unique(s as int, c, n as int);
    }
    s
}

/// `d * speed / len`, rounded toward zero, for a direction component `d`
/// no longer than `len`.
pub fn scale_direction(speed: u64, d: i64, len: u64) -> (r: i64)
    requires
        speed <= CAP,
        -(len as int) <= d <= len,
        0 < len <= CAP,
    ensures
        r == signed_ratio(d as int, speed as int, len as int),
        -(CAP as int) <= r <= CAP,
{
    let mag: u128 = if d >= 0 { d as u128 } else { (-d) as u128 };
    proof {
        assert(mag * speed <= len * speed) by (nonlinear_arith)
            requires
                mag <= len,
        ;
        assert(mag * speed / (len as int) <= speed) by (nonlinear_arith)
            requires
                mag * speed <= len * speed,
                len > 0,
        ;
        assert(mag * speed <= CAP * CAP) by (nonlinear_arith)
            requires
                mag <= CAP,
                speed <= CAP,
        ;
    }
    let q = (mag * (speed as u128) / (len as u128)) as i64;
    if d >= 0 {
        q
    } else {
        -q
    }
}

} // verus!
