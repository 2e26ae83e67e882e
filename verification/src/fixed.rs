//! Fixed-point arithmetic on the complex plane.
//!
//! A coordinate is an `i64` counting units of `1 / SCALE` of a plane
//! unit. Products are rescaled with a truncating (round-toward-zero)
//! division, so every operation of the kernel is exact integer
//! arithmetic with a stated result.

use vstd::prelude::*;

verus! {

/// Fixed-point counts per plane unit (2^24).
pub const SCALE: i64 = 0x100_0000;

/// Largest magnitude accepted for a point coordinate handed to the
/// evaluator: 256 plane units.
pub const COORD_LIMIT: i64 = 0x1_0000_0000;

/// Largest magnitude accepted for the divergence radius: 16 plane units.
pub const RADIUS_LIMIT: i64 = 0x1000_0000;

/// Truncating (round-toward-zero) division, the rounding rule of the
/// kernel's rescaling.
pub open spec fn tdiv(a: int, b: int) -> int {
    if a >= 0 {
        a / b
    } else {
        -((-a) / b)
    }
}

/// Product of two fixed-point values, brought back to coordinate scale.
pub open spec fn fmul(a: int, b: int) -> int {
    tdiv(a * b, SCALE as int)
}

/// Fixed-point multiplication, exact against `fmul`.
pub fn fix_mul(a: i64, b: i64) -> (r: i64)
    requires
        -RADIUS_LIMIT <= a <= RADIUS_LIMIT,
        -RADIUS_LIMIT <= b <= RADIUS_LIMIT,
    ensures
        r == fmul(a as int, b as int),
        -COORD_LIMIT <= r <= COORD_LIMIT,
{
    let negative: bool = (a < 0) != (b < 0);
    let ua: u64 = if a < 0 {
        (-a) as u64
    } else {
        a as u64
    };
    let ub: u64 = if b < 0 {
        (-b) as u64
    } else {
        b as u64
    };
    proof {
        assert(ua * ub <= 0x100_0000_0000_0000) by (nonlinear_arith)
            requires
                ua <= 0x1000_0000,
                ub <= 0x1000_0000,
        ;
    }
    let p: u64 = ua * ub;
    let q: u64 = p / (SCALE as u64);
    proof {
        assert((a as int) * (b as int) == if negative {
            -((ua as int) * (ub as int))
        } else {
            (ua as int) * (ub as int)
        }) by (nonlinear_arith)
            requires
                ua == if a < 0 { -(a as int) } else { a as int },
                ub == if b < 0 { -(b as int) } else { b as int },
                negative == ((a < 0) != (b < 0)),
        ;
        assert(q == (p as int) / (SCALE as int));
        if negative {
            assert(fmul(a as int, b as int) == -(q as int));
        } else {
            assert(fmul(a as int, b as int) == q as int);
        }
    }
    if negative {
        -(q as i64)
    } else {
        q as i64
    }
}

} // verus!
