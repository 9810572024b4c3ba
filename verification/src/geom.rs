//! Integer plane geometry for positions, distances and impulse directions.
//!
//! Positions live on an integer grid inside a bounded box.  Direction
//! scaling replaces floating-point normalisation: scaling a displacement
//! `d` by a factor `k` yields, componentwise, `|d| * k / |d|_2` (floor
//! division, Euclidean length rounded down), with the component's sign
//! restored — the integer counterpart of `normalize(d) * k`.

use vstd::prelude::*;

use crate::constants::COORD_LIMIT;

verus! {

#[derive(Clone, Copy, Debug, PartialEq, Eq, Structural)]
pub struct Vec2i {
    pub x: i64,
    pub y: i64,
}

impl Vec2i {
    pub open spec fn in_box(self, limit: int) -> bool {
        -limit <= self.x <= limit && -limit <= self.y <= limit
    }

    pub fn new(x: i64, y: i64) -> (r: Self)
        ensures
            r == (Vec2i { x, y }),
    {
        Self { x, y }
    }

    pub fn zero() -> (r: Self)
        ensures
            r == (Vec2i { x: 0i64, y: 0i64 }),
    {
        Self { x: 0, y: 0 }
    }

    pub fn sub(self, other: Self) -> (r: Self)
        requires
            self.in_box(COORD_LIMIT as int),
            other.in_box(COORD_LIMIT as int),
        ensures
            r.x == self.x - other.x,
            r.y == self.y - other.y,
            r.in_box(2 * COORD_LIMIT as int),
    {
        Self { x: self.x - other.x, y: self.y - other.y }
    }

    pub fn add(self, other: Self) -> (r: Self)
        requires
            self.in_box(COORD_LIMIT as int),
            other.in_box(COORD_LIMIT as int),
        ensures
            r.x == self.x + other.x,
            r.y == self.y + other.y,
    {
        Self { x: self.x + other.x, y: self.y + other.y }
    }
}

/// Squared Euclidean length of a displacement.
pub open spec fn norm_sq(d: Vec2i) -> int {
    d.x * d.x + d.y * d.y
}

/// `r` is the floor of the square root of `n`.
pub open spec fn is_sqrt_floor(n: int, r: int) -> bool {
    0 <= r && r * r <= n < (r + 1) * (r + 1)
}

/// The floor of the square root, defined by stepping up from zero.
pub open spec fn sqrt_floor(n: int) -> int
    decreases n,
{
    if n < 1 {
        0
    } else {
        let p = sqrt_floor(n - 1);
        if (p + 1) * (p + 1) <= n {
            p + 1
        } else {
            p
        }
    }
}

pub proof fn lemma_sqrt_floor_is(n: int)
    requires
        n >= 0,
    ensures
        is_sqrt_floor(n, sqrt_floor(n)),
    decreases n,
{
    if n >= 1 {
        lemma_sqrt_floor_is(n - 1);
        let p = sqrt_floor(n - 1);
        if (p + 1) * (p + 1) <= n {
            assert(n - 1 < (p + 1) * (p + 1));
            assert(n == (p + 1) * (p + 1));
            assert((p + 1) * (p + 1) < (p + 2) * (p + 2)) by (nonlinear_arith)
                requires
                    p >= 0,
            ;
        }
    }
}

pub proof fn lemma_sqrt_floor_unique(n: int, a: int, b: int)
    requires
        is_sqrt_floor(n, a),
        is_sqrt_floor(n, b),
    ensures
        a == b,
{
    assert(a == b) by (nonlinear_arith)
        requires
            is_sqrt_floor(n, a),
            is_sqrt_floor(n, b),
    ;
}

/// Floor of the square root, by binary search.
pub fn isqrt(n: u64) -> (r: u64)
    ensures
        r == sqrt_floor(n as int),
        is_sqrt_floor(n as int, r as int),
{
    let mut lo: u64 = 0;
    let mut hi: u64 = 4294967296;
    while lo + 1 < hi
        invariant
            lo < hi <= 4294967296,
            (lo as int) * (lo as int) <= n as int,
            (n as int) < (hi as int) * (hi as int),
        decreases hi - lo,
    {
        let mid: u64 = lo + (hi - lo) / 2;
        proof {
            assert(mid < 4294967296);
            assert(mid as int * mid as int <= 0xffff_ffff_ffff_ffff) by (nonlinear_arith)
                requires
                    0 <= (mid as int) < 4294967296,
            ;
        }
        if mid * mid <= n {
            lo = mid;
        } else {
            hi = mid;
        }
    }
    proof {
        assert(is_sqrt_floor(n as int, lo as int));
        lemma_sqrt_floor_is(n as int);
        lemma_sqrt_floor_unique(n as int, lo as int, sqrt_floor(n as int));
    }
    lo
}

/// Sign-magnitude scaling of one component: `|c| * k / len` with the sign
/// of `c` restored.
pub open spec fn scaled_component(c: int, k: int, len: int) -> int {
    if c >= 0 {
        (c * k) / len
    } else {
        -(((-c) * k) / len)
    }
}

/// Integer counterpart of `normalize(d) * k`: each component becomes its
/// magnitude times `k`, divided by the rounded-down Euclidean length of
/// `d`, with its sign restored.  A degenerate (zero) displacement yields
/// the zero vector.
pub fn scaled_dir(d: Vec2i, k: i64) -> (r: Vec2i)
    requires
        d.in_box(2 * COORD_LIMIT as int),
        0 <= k <= 65536,
    ensures
        d.x == 0 && d.y == 0 ==> r == (Vec2i { x: 0i64, y: 0i64 }),
        !(d.x == 0 && d.y == 0) ==> {
            let len = sqrt_floor(norm_sq(d));
            r.x == scaled_component(d.x as int, k as int, len) && r.y == scaled_component(
                d.y as int,
                k as int,
                len,
            )
        },
{
    if d.x == 0 && d.y == 0 {
        return Vec2i { x: 0, y: 0 };
    }
    let ax: u64 = if d.x >= 0 {
        d.x as u64
    } else {
        (-d.x) as u64
    };
    let ay: u64 = if d.y >= 0 {
        d.y as u64
    } else {
        (-d.y) as u64
    };
    proof {
        assert(ax <= 2 * COORD_LIMIT && ay <= 2 * COORD_LIMIT);
        assert(d.x as int * d.x as int == ax as int * ax as int) by (nonlinear_arith)
            requires
                ax as int == if d.x >= 0 {
                    d.x as int
                } else {
                    -(d.x as int)
                },
        ;
        assert(d.y as int * d.y as int == ay as int * ay as int) by (nonlinear_arith)
            requires
                ay as int == if d.y >= 0 {
                    d.y as int
                } else {
                    -(d.y as int)
                },
        ;
        assert(norm_sq(d) == ax as int * ax as int + ay as int * ay as int);
        assert(ax as int * ax as int <= 2097152 * 2097152) by (nonlinear_arith)
            requires
                0 <= (ax as int) <= 2097152,
        ;
        assert(ay as int * ay as int <= 2097152 * 2097152) by (nonlinear_arith)
            requires
                0 <= (ay as int) <= 2097152,
        ;
    }
    let len: u64 = isqrt(ax * ax + ay * ay);
    proof {
        let n = norm_sq(d);
        assert(n >= 1) by (nonlinear_arith)
            requires
                n == d.x as int * d.x as int + d.y as int * d.y as int,
                !(d.x == 0 && d.y == 0),
        ;
        assert(len as int >= 1) by (nonlinear_arith)
            requires
                (len as int) * (len as int) <= n,
                n < ((len as int) + 1) * ((len as int) + 1),
                n >= 1,
        ;
        // Each component magnitude is at most the length, so the scaled
        // component stays within `k` and in particular within `i64`.
        assert(ax as int * ax as int <= n && ay as int * ay as int <= n) by (nonlinear_arith)
            requires
                n == ax as int * ax as int + ay as int * ay as int,
        ;
        lemma_component_le_sqrt(ax as int, n, len as int);
        lemma_component_le_sqrt(ay as int, n, len as int);
        lemma_div_scaled_bound(ax as int, k as int, len as int);
        lemma_div_scaled_bound(ay as int, k as int, len as int);
        assert(ax as int * k as int <= 2097152 * 65536) by (nonlinear_arith)
            requires
                0 <= (ax as int) <= 2097152,
                0 <= (k as int) <= 65536,
        ;
        assert(ay as int * k as int <= 2097152 * 65536) by (nonlinear_arith)
            requires
                0 <= (ay as int) <= 2097152,
                0 <= (k as int) <= 65536,
        ;
    }
    let sx: u64 = ax * (k as u64) / len;
    let sy: u64 = ay * (k as u64) / len;
    let rx: i64 = if d.x >= 0 {
        sx as i64
    } else {
        -(sx as i64)
    };
    let ry: i64 = if d.y >= 0 {
        sy as i64
    } else {
        -(sy as i64)
    };
    Vec2i { x: rx, y: ry }
}

/// If `c * c <= n` and `len` is the floor square root of `n`... then any
/// component of a displacement is at most the rounded-down length plus
/// nothing: `c <= len` fails only when `c > len`, i.e. `c >= len + 1`, and
/// then `c * c >= (len + 1) * (len + 1) > n`.
proof fn lemma_component_le_sqrt(c: int, n: int, len: int)
    requires
        0 <= c,
        c * c <= n,
        is_sqrt_floor(n, len),
    ensures
        c <= len,
{
    if c > len {
        assert((len + 1) * (len + 1) <= c * c) by (nonlinear_arith)
            requires
                0 <= len + 1 <= c,
        ;
    }
}

/// With `c <= len` and a bounded factor, `c * k / len` is at most `k`.
proof fn lemma_div_scaled_bound(c: int, k: int, len: int)
    requires
        0 <= c <= len,
        1 <= len,
        0 <= k,
    ensures
        0 <= (c * k) / len <= k,
{
    assert(c * k <= len * k) by (nonlinear_arith)
        requires
            0 <= c <= len,
            0 <= k,
    ;
    assert((len * k) / len == k) by (nonlinear_arith)
        requires
            1 <= len,
            0 <= k,
    ;
    assert((c * k) / len <= (len * k) / len) by (nonlinear_arith)
        requires
            c * k <= len * k,
            1 <= len,
    ;
    assert(0 <= (c * k) / len) by (nonlinear_arith)
        requires
            0 <= c * k,
            1 <= len,
    ;
    assert(0 <= c * k) by (nonlinear_arith)
        requires
            0 <= c,
            0 <= k,
    ;
}

} // verus!
