//! Fixed-point arithmetic primitives.
//!
//! Every quantity of the simulation (positions, velocities, masses, force
//! coefficients, ...) is an `i64` holding the underlying real value times
//! [`SCALE`]. Division always rounds toward negative infinity, so each
//! executable operation equals the corresponding mathematical expression
//! built from Verus's Euclidean `/` and `%` on `int`.

use vstd::prelude::*;
use vstd::arithmetic::div_mod::{
    lemma_div_is_ordered, lemma_div_multiples_vanish, lemma_fundamental_div_mod,
    lemma_fundamental_div_mod_converse,
};

verus! {

/// Number of fixed-point steps per whole unit (one pixel of torus space).
pub const SCALE: i64 = 1024;

/// Magnitude bound under which signed fixed-point helpers are guaranteed
/// overflow-free; comfortably above anything the engine produces.
pub const FIXED_LIMIT: i64 = 0x4000_0000_0000_0000;

/// Quotient of `a` by `d`, rounded toward negative infinity.
///
/// For a positive divisor this is exactly Verus's Euclidean division on
/// `int`, so the contract can speak the mathematical `/` directly.
pub fn div_floor(a: i64, d: i64) -> (q: i64)
    requires
        1 <= d,
        -FIXED_LIMIT <= a <= FIXED_LIMIT,
    ensures
        q == a as int / d as int,
{
    if a >= 0 {
        let qm: u64 = (a as u64) / (d as u64);
        proof {
            lemma_fundamental_div_mod(a as int, d as int);
        }
        qm as i64
    } else {
        let m: u64 = (-a) as u64;
        let du: u64 = d as u64;
        let qm: u64 = m / du;
        let rm: u64 = m % du;
        proof {
            lemma_fundamental_div_mod(m as int, du as int);
        }
        if rm == 0 {
            proof {
                assert(m as int == -(a as int));
                assert(qm as int == m as int / du as int);
                assert(rm as int == m as int % du as int);
                assert(du as int == d as int);
                assert(m as int == (du as int) * (qm as int) + rm as int);
                assert(a as int == (-(qm as int)) * (d as int) + 0) by (nonlinear_arith)
                    requires
                        m as int == (d as int) * (qm as int),
                        a as int == -(m as int);
                lemma_fundamental_div_mod_converse(
                    a as int,
                    d as int,
                    -(qm as int),
                    0,
                );
            }
            -(qm as i64)
        } else {
            proof {
                assert(m as int == -(a as int));
                assert(m as int == (du as int) * (qm as int) + rm as int);
                assert(0 < (rm as int) < (d as int));
                assert(a as int == (-(qm as int) - 1) * (d as int) + ((d as int) - (rm as int)))
                    by (nonlinear_arith)
                    requires
                        m as int == (d as int) * (qm as int) + rm as int,
                        a as int == -(m as int);
                lemma_fundamental_div_mod_converse(
                    a as int,
                    d as int,
                    -(qm as int) - 1,
                    d - rm,
                );
            }
            -(qm as i64) - 1
        }
    }
}

/// Remainder of `a` modulo `d`, always in `[0, d)`.
pub fn mod_euclid(a: i64, d: i64) -> (r: i64)
    requires
        1 <= d,
        -FIXED_LIMIT <= a <= FIXED_LIMIT,
    ensures
        r == a as int % d as int,
        0 <= r < d,
{
    if a >= 0 {
        let rm: u64 = (a as u64) % (d as u64);
        proof {
            lemma_fundamental_div_mod(a as int, d as int);
        }
        rm as i64
    } else {
        let m: u64 = (-a) as u64;
        let du: u64 = d as u64;
        let qm: u64 = m / du;
        let rm: u64 = m % du;
        proof {
            lemma_fundamental_div_mod(m as int, du as int);
        }
        if rm == 0 {
            proof {
                assert(m as int == -(a as int));
                assert(m as int == (du as int) * (qm as int) + rm as int);
                assert(a as int == (-(qm as int)) * (d as int) + 0) by (nonlinear_arith)
                    requires
                        m as int == (d as int) * (qm as int),
                        a as int == -(m as int);
                lemma_fundamental_div_mod_converse(
                    a as int,
                    d as int,
                    -(qm as int),
                    0,
                );
            }
            0
        } else {
            proof {
                assert(m as int == -(a as int));
                assert(m as int == (du as int) * (qm as int) + rm as int);
                assert(0 < (rm as int) < (d as int));
                assert(a as int == (-(qm as int) - 1) * (d as int) + ((d as int) - (rm as int)))
                    by (nonlinear_arith)
                    requires
                        m as int == (d as int) * (qm as int) + rm as int,
                        a as int == -(m as int);
                lemma_fundamental_div_mod_converse(
                    a as int,
                    d as int,
                    -(qm as int) - 1,
                    d - rm,
                );
            }
            d - (rm as i64)
        }
    }
}

/// Product of two fixed-point numbers, scaled back down by [`SCALE`].
pub fn fixed_mul(a: i64, b: i64) -> (r: i64)
    requires
        -FIXED_LIMIT <= a * b <= FIXED_LIMIT,
    ensures
        r == (a * b) / (SCALE as int),
{
    let p: i64 = a * b;
    div_floor(p, SCALE)
}

/// Linear interpolation carrying `x` from the range `[a, b]` to `[c, d]`,
/// extrapolating outside it; the fixed-point counterpart of
/// `c + (x - a) * (d - c) / (b - a)`.
pub fn remap(x: i64, a: i64, b: i64, c: i64, d: i64) -> (r: i64)
    requires
        a < b,
        -0x4000_0000 <= x <= 0x4000_0000,
        -0x4000_0000 <= a <= 0x4000_0000,
        -0x4000_0000 <= b <= 0x4000_0000,
        -0x4000_0000 <= c <= 0x4000_0000,
        -0x4000_0000 <= d <= 0x4000_0000,
    ensures
        r == c + (x - a) * (d - c) / (b - a),
{
    proof {
        assert(-0x4000_0000_0000_0000 <= (x - a) * (d - c) <= 0x4000_0000_0000_0000)
            by (nonlinear_arith)
            requires
                -0x8000_0000 <= x - a <= 0x8000_0000,
                -0x8000_0000 <= d - c <= 0x8000_0000;
    }
    let num: i64 = (x - a) * (d - c);
    let q: i64 = div_floor(num, b - a);
    proof {
        lemma_div_magnitude(num as int, (b - a) as int);
    }
    c + q
}

/// The floor quotient never exceeds the numerator in magnitude
/// (for divisors of at least one).
pub proof fn lemma_div_magnitude(a: int, d: int)
    requires
        1 <= d,
    ensures
        a >= 0 ==> 0 <= a / d <= a,
        a < 0 ==> a <= a / d <= 0,
{
    lemma_fundamental_div_mod(a, d);
    let q: int = a / d;
    let r: int = a % d;
    assert(a == d * q + r);
    if a >= 0 {
        if q < 0 {
            assert(d * q <= -d) by (nonlinear_arith)
                requires 1 <= d && q <= -1;
            assert(false);
        }
        if q > a {
            assert(d * q >= q) by (nonlinear_arith)
                requires 1 <= d && q >= 0;
            assert(false);
        }
    } else {
        if q > 0 {
            assert(d * q >= d) by (nonlinear_arith)
                requires 1 <= d && q >= 1;
            assert(false);
        }
        if q < a {
            assert(d * q <= q + (1 - d)) by (nonlinear_arith)
                requires 1 <= d && q <= -1;
            assert(false);
        }
    }
}

/// Floor division by a positive divisor keeps a symmetric bound: if the
/// numerator lies within `bound * d`, the quotient lies within `bound`.
pub proof fn lemma_div_shrink(a: int, d: int, bound: int)
    requires
        1 <= d,
        0 <= bound,
        -bound * d <= a <= bound * d,
    ensures
        -bound <= a / d <= bound,
{
    assert(bound * d == d * bound && (-bound) * d == d * (-bound)) by (nonlinear_arith);
    lemma_div_is_ordered(a, bound * d, d);
    lemma_div_is_ordered(-bound * d, a, d);
    lemma_div_multiples_vanish(bound, d);
    lemma_div_multiples_vanish(-bound, d);
}

/// What it means for `r` to be the integer square root of `n`.
pub open spec fn is_int_sqrt(n: int, r: int) -> bool {
    0 <= r && r * r <= n < (r + 1) * (r + 1)
}

/// The integer square root, as a mathematical function.
pub open spec fn int_sqrt(n: int) -> int {
    choose|r: int| is_int_sqrt(n, r)
}

/// Two integer square roots of the same number coincide.
pub proof fn lemma_int_sqrt_unique(n: int, r1: int, r2: int)
    requires
        is_int_sqrt(n, r1),
        is_int_sqrt(n, r2),
    ensures
        r1 == r2,
{
    if r1 < r2 {
        assert((r1 + 1) * (r1 + 1) <= r2 * r2) by (nonlinear_arith)
            requires 0 <= r1 && r1 < r2;
        assert(false);
    }
    if r2 < r1 {
        assert((r2 + 1) * (r2 + 1) <= r1 * r1) by (nonlinear_arith)
            requires 0 <= r2 && r2 < r1;
        assert(false);
    }
}

/// A squared component never outruns the squared distance: from
/// `dx * dx <= n` and `n < (r + 1) * (r + 1)` with `r >= 0` follows
/// `-r <= dx <= r`.
pub proof fn lemma_component_within_sqrt(dx: int, n: int, r: int)
    requires
        0 <= r,
        dx * dx <= n,
        n < (r + 1) * (r + 1),
    ensures
        -r <= dx <= r,
{
    if dx > r {
        assert((r + 1) * (r + 1) <= dx * dx) by (nonlinear_arith)
            requires 0 <= r && r + 1 <= dx;
        assert(false);
    }
    if dx < -r {
        assert((r + 1) * (r + 1) <= dx * dx) by (nonlinear_arith)
            requires 0 <= r && dx <= -(r + 1);
        assert(false);
    }
}

/// Integer square root by bisection.
pub fn isqrt(n: u64) -> (r: u64)
    ensures
        is_int_sqrt(n as int, r as int),
        r == int_sqrt(n as int),
{
    let mut lo: u64 = 0;
    let mut hi: u64 = 0x1_0000_0000;
    while lo + 1 < hi
        invariant
            lo < hi <= 0x1_0000_0000,
            lo * lo <= n,
            (hi as int) * (hi as int) > n,
        decreases hi - lo,
    {
        let mid: u64 = lo + (hi - lo) / 2;
        proof {
            assert((mid as int) * (mid as int) < 0x1_0000_0000_0000_0000)
                by (nonlinear_arith)
                requires 0 <= mid < 0x1_0000_0000;
        }
        if mid * mid <= n {
            lo = mid;
        } else {
            hi = mid;
        }
    }
    proof {
        assert(is_int_sqrt(n as int, lo as int));
        lemma_int_sqrt_unique(n as int, lo as int, int_sqrt(n as int));
    }
    lo
}

} // verus!
