//! Two-dimensional fixed-point vectors.
//!
//! Components are `i64` values scaled by [`crate::fixed::SCALE`]. Every
//! operation's contract states the exact result over Verus's Euclidean
//! integer arithmetic.

use vstd::prelude::*;
use crate::fixed::{div_floor, fixed_mul, is_int_sqrt, isqrt, int_sqrt, SCALE};
use crate::rng::{spec_draw, SeedStream};

verus! {

/// A 2-vector of fixed-point components.
#[derive(Clone, Copy, PartialEq, Eq, Structural, Debug)]
pub struct Vec2 {
    pub x: i64,
    pub y: i64,
}

/// The squared Euclidean length of the vector `(x, y)`.
pub open spec fn spec_len2(x: int, y: int) -> int {
    x * x + y * y
}

/// The fixed-point Euclidean length of the vector `(x, y)`: because both
/// components carry the same scale factor, the plain integer square root of
/// the squared components is again a value at that scale.
pub open spec fn spec_len(x: int, y: int) -> int {
    int_sqrt(spec_len2(x, y))
}

impl Vec2 {
    /// The zero vector.
    pub fn zero() -> (r: Vec2)
        ensures
            r.x == 0,
            r.y == 0,
    {
        Vec2 { x: 0, y: 0 }
    }

    /// Componentwise sum.
    pub fn add(self, o: Vec2) -> (r: Vec2)
        requires
            i64::MIN <= self.x + o.x <= i64::MAX,
            i64::MIN <= self.y + o.y <= i64::MAX,
        ensures
            r.x == self.x + o.x,
            r.y == self.y + o.y,
    {
        Vec2 { x: self.x + o.x, y: self.y + o.y }
    }

    /// Componentwise difference.
    pub fn sub(self, o: Vec2) -> (r: Vec2)
        requires
            i64::MIN <= self.x - o.x <= i64::MAX,
            i64::MIN <= self.y - o.y <= i64::MAX,
        ensures
            r.x == self.x - o.x,
            r.y == self.y - o.y,
    {
        Vec2 { x: self.x - o.x, y: self.y - o.y }
    }

    /// Adds a scalar to both components.
    pub fn add_scalar(self, a: i64) -> (r: Vec2)
        requires
            i64::MIN <= self.x + a <= i64::MAX,
            i64::MIN <= self.y + a <= i64::MAX,
        ensures
            r.x == self.x + a,
            r.y == self.y + a,
    {
        Vec2 { x: self.x + a, y: self.y + a }
    }

    /// Subtracts a scalar from both components.
    pub fn sub_scalar(self, a: i64) -> (r: Vec2)
        requires
            i64::MIN <= self.x - a <= i64::MAX,
            i64::MIN <= self.y - a <= i64::MAX,
        ensures
            r.x == self.x - a,
            r.y == self.y - a,
    {
        Vec2 { x: self.x - a, y: self.y - a }
    }

    /// Fixed-point multiplication of both components by the scalar `a`.
    pub fn mul_scalar(self, a: i64) -> (r: Vec2)
        requires
            -0x4000_0000_0000_0000 <= self.x * a <= 0x4000_0000_0000_0000,
            -0x4000_0000_0000_0000 <= self.y * a <= 0x4000_0000_0000_0000,
        ensures
            r.x == (self.x * a) / (SCALE as int),
            r.y == (self.y * a) / (SCALE as int),
    {
        Vec2 { x: fixed_mul(self.x, a), y: fixed_mul(self.y, a) }
    }

    /// Fixed-point componentwise product.
    pub fn mul_hadamard(self, o: Vec2) -> (r: Vec2)
        requires
            -0x4000_0000_0000_0000 <= self.x * o.x <= 0x4000_0000_0000_0000,
            -0x4000_0000_0000_0000 <= self.y * o.y <= 0x4000_0000_0000_0000,
        ensures
            r.x == (self.x * o.x) / (SCALE as int),
            r.y == (self.y * o.y) / (SCALE as int),
    {
        Vec2 { x: fixed_mul(self.x, o.x), y: fixed_mul(self.y, o.y) }
    }

    /// Fixed-point division of both components by the scalar `a`.
    pub fn div_scalar(self, a: i64) -> (r: Vec2)
        requires
            1 <= a,
            -0x2000_0000_0000 <= self.x <= 0x2000_0000_0000,
            -0x2000_0000_0000 <= self.y <= 0x2000_0000_0000,
        ensures
            r.x == (self.x * (SCALE as int)) / (a as int),
            r.y == (self.y * (SCALE as int)) / (a as int),
    {
        proof {
            assert(-0x4000_0000_0000_0000 <= self.x * (SCALE as int) <= 0x4000_0000_0000_0000
                && -0x4000_0000_0000_0000 <= self.y * (SCALE as int) <= 0x4000_0000_0000_0000)
                by (nonlinear_arith)
                requires
                    -0x2000_0000_0000 <= self.x <= 0x2000_0000_0000,
                    -0x2000_0000_0000 <= self.y <= 0x2000_0000_0000;
        }
        Vec2 { x: div_floor(self.x * SCALE, a), y: div_floor(self.y * SCALE, a) }
    }

    /// The unit vector of the same direction, in fixed point: each
    /// component is scaled by [`SCALE`] and divided by the length.
    pub fn normalize(self) -> (r: Vec2)
        requires
            -0x4000_0000 <= self.x <= 0x4000_0000,
            -0x4000_0000 <= self.y <= 0x4000_0000,
            spec_len(self.x as int, self.y as int) > 0,
        ensures
            r.x == self.x * (SCALE as int) / spec_len(self.x as int, self.y as int),
            r.y == self.y * (SCALE as int) / spec_len(self.x as int, self.y as int),
            -SCALE <= r.x <= SCALE,
            -SCALE <= r.y <= SCALE,
    {
        let l: i64 = self.len();
        proof {
            assert(0 <= self.x * self.x && 0 <= self.y * self.y) by (nonlinear_arith);
            crate::fixed::lemma_component_within_sqrt(self.x as int, spec_len2(self.x as int,
                self.y as int), l as int);
            crate::fixed::lemma_component_within_sqrt(self.y as int, spec_len2(self.x as int,
                self.y as int), l as int);
            crate::fixed::lemma_div_shrink(self.x * (SCALE as int), l as int, SCALE as int);
            crate::fixed::lemma_div_shrink(self.y * (SCALE as int), l as int, SCALE as int);
        }
        Vec2 { x: div_floor(self.x * SCALE, l), y: div_floor(self.y * SCALE, l) }
    }

    /// The fixed-point length of the vector.
    pub fn len(self) -> (r: i64)
        requires
            -0x4000_0000 <= self.x <= 0x4000_0000,
            -0x4000_0000 <= self.y <= 0x4000_0000,
        ensures
            r == spec_len(self.x as int, self.y as int),
            is_int_sqrt(spec_len2(self.x as int, self.y as int), r as int),
            0 <= r <= 0x6000_0000,
    {
        proof {
            assert(0 <= self.x * self.x <= 0x1000_0000_0000_0000
                && 0 <= self.y * self.y <= 0x1000_0000_0000_0000)
                by (nonlinear_arith)
                requires
                    -0x4000_0000 <= self.x <= 0x4000_0000,
                    -0x4000_0000 <= self.y <= 0x4000_0000;
        }
        let n: i64 = self.x * self.x + self.y * self.y;
        let r: u64 = isqrt(n as u64);
        proof {
            lemma_sqrt_magnitude(n as int, r as int, 0x6000_0000);
        }
        r as i64
    }
}

/// If `r` is the integer square root of `n` and `n <= b * b`, then `r <= b`.
pub proof fn lemma_sqrt_magnitude(n: int, r: int, b: int)
    requires
        0 <= r,
        0 <= b,
        r * r <= n,
        n <= b * b,
    ensures
        r <= b,
{
    if r > b {
        assert(b * b < r * r) by (nonlinear_arith)
            requires 0 <= b && b < r;
        assert(false);
    }
}

/// A vector with both components drawn from the stream, folded into
/// `[lo, hi)`: first the x component, then the y component.
pub fn random_vec(s: &mut SeedStream, lo: i64, hi: i64) -> (v: Vec2)
    requires
        lo < hi,
        -0x2000_0000_0000_0000 <= lo,
        hi <= 0x2000_0000_0000_0000,
    ensures
        v.x == spec_draw(old(s).spec_seed(), old(s).spec_drawn(), lo, hi),
        v.y == spec_draw(old(s).spec_seed(), old(s).spec_drawn() + 1, lo, hi),
        lo <= v.x < hi,
        lo <= v.y < hi,
        final(s).spec_seed() == old(s).spec_seed(),
        final(s).spec_drawn() == old(s).spec_drawn() + 2,
{
    let x: i64 = crate::rng::draw_in_range(s, lo, hi);
    let y: i64 = crate::rng::draw_in_range(s, lo, hi);
    Vec2 { x, y }
}

} // verus!
