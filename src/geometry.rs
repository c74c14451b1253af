use vstd::prelude::*;

verus! {

/// Sub-pixel resolution: positions are in thousandths of a pixel, velocities
/// in thousandths of a pixel per second, and a unit direction has length
/// `UNIT`.
pub const UNIT: i64 = 1000;

/// Largest magnitude of a coordinate, in thousandths of a pixel.
pub const COORD_LIMIT: i64 = 0x100_0000_0000;

/// A point or a displacement in the plane.
#[derive(Clone, Copy, Debug, PartialEq, Eq, Structural)]
pub struct Vec2 {
    pub x: i64,
    pub y: i64,
}

/// `r` is the integer square root of `n`.
pub open spec fn is_isqrt(n: int, r: int) -> bool {
    0 <= r && r * r <= n < (r + 1) * (r + 1)
}

/// The largest integer whose square does not exceed `n` (zero for negative `n`).
pub open spec fn sqrt_floor(n: int) -> int
    decreases n,
{
    if n <= 0 {
        0
    } else {
        let r = sqrt_floor(n - 1);
        if (r + 1) * (r + 1) <= n {
            r + 1
        } else {
            r
        }
    }
}

/// Rust's `/` on integers: the quotient rounded toward zero.
pub open spec fn div_trunc(a: int, b: int) -> int {
    if a >= 0 {
        a / b
    } else {
        -((-a) / b)
    }
}

pub open spec fn abs(a: int) -> int {
    if a >= 0 {
        a
    } else {
        -a
    }
}

impl Vec2 {
    pub open spec fn in_bounds(self) -> bool {
        -COORD_LIMIT <= self.x <= COORD_LIMIT && -COORD_LIMIT <= self.y <= COORD_LIMIT
    }

    /// Bounds that hold of the difference of two in-bounds points.
    pub open spec fn in_diff_bounds(self) -> bool {
        -2 * COORD_LIMIT <= self.x <= 2 * COORD_LIMIT && -2 * COORD_LIMIT <= self.y <= 2
            * COORD_LIMIT
    }

    pub open spec fn norm_sq(self) -> int {
        self.x * self.x + self.y * self.y
    }

    /// Euclidean length, rounded down.
    pub open spec fn len_spec(self) -> int {
        sqrt_floor(self.norm_sq())
    }

    pub open spec fn sub_spec(self, o: Vec2) -> Vec2 {
        Vec2 { x: (self.x - o.x) as i64, y: (self.y - o.y) as i64 }
    }

    /// The direction of `self` scaled to length `UNIT`, each component rounded
    /// toward zero; the zero vector for the zero vector.
    pub open spec fn normalize_spec(self) -> Vec2 {
        let l = self.len_spec();
        if l == 0 {
            Vec2 { x: 0, y: 0 }
        } else {
            Vec2 {
                x: div_trunc(self.x * UNIT, l) as i64,
                y: div_trunc(self.y * UNIT, l) as i64,
            }
        }
    }

    pub fn zero() -> (r: Vec2)
        ensures
            r.x == 0 && r.y == 0,
    {
        Vec2 { x: 0, y: 0 }
    }

    /// `self - o`.
    pub fn sub(&self, o: &Vec2) -> (r: Vec2)
        requires
            self.in_bounds(),
            o.in_bounds(),
        ensures
            r == self.sub_spec(*o),
            r.x == self.x - o.x,
            r.y == self.y - o.y,
            r.in_diff_bounds(),
    {
        Vec2 { x: self.x - o.x, y: self.y - o.y }
    }

    /// Euclidean length, rounded down.
    pub fn length(&self) -> (r: u64)
        requires
            self.in_diff_bounds(),
        ensures
            r == self.len_spec(),
            abs(self.x as int) <= r,
            abs(self.y as int) <= r,
            r <= 4 * COORD_LIMIT,
    {
        let ax = if self.x >= 0 { self.x as u128 } else { (-self.x) as u128 };
        let ay = if self.y >= 0 { self.y as u128 } else { (-self.y) as u128 };
        proof {
            assert(ax * ax <= 0x4_0000_0000_0000_0000_0000) by (nonlinear_arith)
                requires ax <= 0x200_0000_0000;
            assert(ay * ay <= 0x4_0000_0000_0000_0000_0000) by (nonlinear_arith)
                requires ay <= 0x200_0000_0000;
        }
        let n: u128 = ax * ax + ay * ay;
        proof {
            assert(n == self.norm_sq()) by (nonlinear_arith)
                requires
                    ax == abs(self.x as int),
                    ay == abs(self.y as int),
                    n == ax * ax + ay * ay,
            ;
        }
        let r = isqrt(n);
        proof {
            lemma_sqrt_floor(n as int);
            lemma_le_sqrt(ax as int, n as int, r as int);
            lemma_le_sqrt(ay as int, n as int, r as int);
            lemma_sqrt_bound(n as int, r as int);
        }
        r
    }

    /// Direction of `self` scaled to length `UNIT`; zero when `self` is zero.
    pub fn normalize(&self) -> (r: Vec2)
        requires
            self.in_diff_bounds(),
        ensures
            r == self.normalize_spec(),
            -UNIT <= r.x <= UNIT,
            -UNIT <= r.y <= UNIT,
    {
        let l = self.length();
        if l == 0 {
            Vec2 { x: 0, y: 0 }
        } else {
            let li = l as i64;
            let x = scale_div(self.x, li);
            let y = scale_div(self.y, li);
            Vec2 { x, y }
        }
    }
}

/// `a * UNIT / l` rounded toward zero, for `|a| <= l`.
fn scale_div(a: i64, l: i64) -> (r: i64)
    requires
        0 < l <= 4 * COORD_LIMIT,
        abs(a as int) <= l,
    ensures
        r == div_trunc(a * UNIT, l as int),
        -UNIT <= r <= UNIT,
{
    if a >= 0 {
        proof {
            assert(a * UNIT <= l * UNIT) by (nonlinear_arith)
                requires 0 <= a <= l;
            assert((a * UNIT) / (l as int) <= UNIT) by (nonlinear_arith)
                requires 0 <= a <= l, l > 0;
        }
        (a * UNIT) / l
    } else {
        let m: i64 = -a;
        proof {
            assert(m * UNIT <= l * UNIT) by (nonlinear_arith)
                requires 0 <= m <= l;
            assert((m * UNIT) / (l as int) <= UNIT) by (nonlinear_arith)
                requires 0 <= m <= l, l > 0;
            assert(-a * UNIT == m * UNIT);
        }
        -((m * UNIT) / l)
    }
}

/// Largest value that `isqrt` accepts.
pub const MAX_SQUARE: u128 = 0x80_0000_0000_0000_0000_0000;

/// Integer square root by bisection.
pub fn isqrt(n: u128) -> (r: u64)
    requires
        n <= MAX_SQUARE,
    ensures
        r == sqrt_floor(n as int),
{
    let mut lo: u128 = 0;
    let mut hi: u128 = 0x100_0000_0000_0000;
    proof {
        assert(hi * hi > MAX_SQUARE) by (nonlinear_arith)
            requires hi == 0x100_0000_0000_0000u128;
    }
    while lo + 1 < hi
        invariant
            lo < hi <= 0x100_0000_0000_0000,
            lo * lo <= n,
            n < hi * hi,
        decreases hi - lo,
    {
        let mid = lo + (hi - lo) / 2;
        proof {
            assert(mid * mid <= 0x1_0000_0000_0000_0000_0000_0000_0000) by (nonlinear_arith)
                requires mid <= 0x100_0000_0000_0000u128;
        }
        if mid * mid <= n {
            lo = mid;
        } else {
            hi = mid;
        }
    }
    proof {
        lemma_sqrt_floor(n as int);
        assert(hi == lo + 1);
        lemma_isqrt_unique(n as int, lo as int, sqrt_floor(n as int));
    }
    lo as u64
}

pub proof fn lemma_sqrt_floor(n: int)
    requires
        n >= 0,
    ensures
        is_isqrt(n, sqrt_floor(n)),
    decreases n,
{
    if n > 0 {
        lemma_sqrt_floor(n - 1);
        let r = sqrt_floor(n - 1);
        assert(n < (r + 2) * (r + 2)) by (nonlinear_arith)
            requires
                n - 1 < (r + 1) * (r + 1),
                r >= 0,
        ;
    }
}

pub proof fn lemma_isqrt_unique(n: int, r1: int, r2: int)
    requires
        is_isqrt(n, r1),
        is_isqrt(n, r2),
    ensures
        r1 == r2,
{
    if r1 < r2 {
        assert((r1 + 1) * (r1 + 1) <= r2 * r2) by (nonlinear_arith)
            requires 0 <= r1 < r2;
    } else if r2 < r1 {
        assert((r2 + 1) * (r2 + 1) <= r1 * r1) by (nonlinear_arith)
            requires 0 <= r2 < r1;
    }
}

/// A nonnegative `a` whose square is at most `n` is at most the root of `n`.
pub proof fn lemma_le_sqrt(a: int, n: int, r: int)
    requires
        a >= 0,
        a * a <= n,
        is_isqrt(n, r),
    ensures
        a <= r,
{
    if a > r {
        assert((r + 1) * (r + 1) <= a * a) by (nonlinear_arith)
            requires a > r >= 0;
    }
}

proof fn lemma_sqrt_bound(n: int, r: int)
    requires
        0 <= n <= 0x8_0000_0000_0000_0000_0000,
        is_isqrt(n, r),
    ensures
        r <= 4 * COORD_LIMIT,
{
    if r > 4 * COORD_LIMIT {
        assert(r * r > 0x8_0000_0000_0000_0000_0000) by (nonlinear_arith)
            requires r > 0x400_0000_0000;
    }
}

} // verus!
