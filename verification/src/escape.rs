//! The escape-time evaluator.
//!
//! A point `c` of the plane is iterated as `z_0 = 0`,
//! `z_{n+1} = z_n * z_n + c`. After each update the squared magnitude
//! of the iterate is held against the squared divergence radius; the
//! first update that exceeds it settles the point as `Escaped(n)`,
//! where `n` is the 0-based index of that update. A point whose first
//! `cap` updates all stay inside the radius is `Bound`.

use vstd::prelude::*;
use crate::fixed::{COORD_LIMIT, RADIUS_LIMIT, SCALE, fmul, fix_mul};

verus! {

/// Outcome of the escape-time iteration for one point.
#[derive(Clone, Copy, Debug, PartialEq, Eq, Structural)]
pub enum EscapeResult {
    /// The iterate left the divergence radius on the update with this
    /// 0-based index (always below the iteration cap).
    Escaped(u32),
    /// No update below the iteration cap left the divergence radius.
    Bound,
}

/// A point of the complex plane in fixed-point coordinates.
#[derive(Clone, Copy, Debug, PartialEq, Eq, Structural)]
pub struct Complex {
    pub re: i64,
    pub im: i64,
}

impl Complex {
    /// Both coordinates lie within the square the evaluator accepts.
    pub open spec fn in_range(self) -> bool {
        &&& -COORD_LIMIT <= self.re <= COORD_LIMIT
        &&& -COORD_LIMIT <= self.im <= COORD_LIMIT
    }

    pub fn new(re: i64, im: i64) -> (c: Complex)
        ensures
            c.re == re,
            c.im == im,
    {
        Complex { re, im }
    }
}

/// Real part of `z * z + c` for `z = x + y i`, `c = cre + cim i`.
pub open spec fn step_re(x: int, y: int, cre: int) -> int {
    fmul(x, x) - fmul(y, y) + cre
}

/// Imaginary part of `z * z + c` for `z = x + y i`, `c = cre + cim i`.
pub open spec fn step_im(x: int, y: int, cim: int) -> int {
    2 * fmul(x, y) + cim
}

/// The `n`-th iterate of the point `(cre, cim)`: `z_0 = 0`,
/// `z_{n+1} = z_n * z_n + c`, as a (real, imaginary) pair.
pub open spec fn orbit(cre: int, cim: int, n: nat) -> (int, int)
    decreases n,
{
    if n == 0 {
        (0, 0)
    } else {
        let z = orbit(cre, cim, (n - 1) as nat);
        (step_re(z.0, z.1, cre), step_im(z.0, z.1, cim))
    }
}

/// Squared magnitude of `x + y i`.
pub open spec fn norm_sqr(x: int, y: int) -> int {
    x * x + y * y
}

/// The update with index `n` escapes: the iterate it produces has a
/// squared magnitude beyond `rsq`, the squared divergence radius.
pub open spec fn escapes_at(cre: int, cim: int, rsq: int, n: nat) -> bool {
    norm_sqr(orbit(cre, cim, (n + 1) as nat).0, orbit(cre, cim, (n + 1) as nat).1) > rsq
}

/// Index of the first escaping update below `cap`, if any.
pub open spec fn first_escape(cre: int, cim: int, rsq: int, cap: nat) -> Option<nat>
    decreases cap,
{
    if cap == 0 {
        None
    } else {
        let prefix = first_escape(cre, cim, rsq, (cap - 1) as nat);
        if prefix is Some {
            prefix
        } else if escapes_at(cre, cim, rsq, (cap - 1) as nat) {
            Some((cap - 1) as nat)
        } else {
            None
        }
    }
}

/// No update with an index below `cap` escapes.
pub open spec fn no_escape_below(cre: int, cim: int, rsq: int, cap: nat) -> bool {
    forall|n: nat| n < cap ==> !escapes_at(cre, cim, rsq, n)
}

/// The result the evaluator owes for a point, cap and squared radius.
pub open spec fn escape_spec(cre: int, cim: int, rsq: int, cap: nat) -> EscapeResult {
    match first_escape(cre, cim, rsq, cap) {
        Some(n) => EscapeResult::Escaped(n as u32),
        None => EscapeResult::Bound,
    }
}

proof fn lemma_first_escape_extend(cre: int, cim: int, rsq: int, k: nat)
    requires
        first_escape(cre, cim, rsq, k) is None,
        !escapes_at(cre, cim, rsq, k),
    ensures
        first_escape(cre, cim, rsq, (k + 1) as nat) is None,
{
}

proof fn lemma_first_escape_found(cre: int, cim: int, rsq: int, k: nat, cap: nat)
    requires
        first_escape(cre, cim, rsq, k) is None,
        escapes_at(cre, cim, rsq, k),
        k < cap,
    ensures
        first_escape(cre, cim, rsq, cap) == Some(k),
    decreases cap,
{
    if cap == k + 1 {
    } else {
        lemma_first_escape_found(cre, cim, rsq, k, (cap - 1) as nat);
    }
}

/// The first escape, when there is one, is an escaping update below the
/// cap and every earlier update stays inside; when there is none, every
/// update below the cap stays inside.
pub proof fn lemma_first_escape_characterization(cre: int, cim: int, rsq: int, cap: nat)
    ensures
        match first_escape(cre, cim, rsq, cap) {
            Some(n) => n < cap && escapes_at(cre, cim, rsq, n) && no_escape_below(
                cre,
                cim,
                rsq,
                n,
            ),
            None => no_escape_below(cre, cim, rsq, cap),
        },
    decreases cap,
{
    if cap > 0 {
        lemma_first_escape_characterization(cre, cim, rsq, (cap - 1) as nat);
    }
}

/// A point that already lies beyond the divergence radius escapes on
/// the very first update: its first iterate is the point itself.
pub proof fn lemma_outside_radius_escapes_first(cre: int, cim: int, rsq: int, cap: nat)
    requires
        norm_sqr(cre, cim) > rsq,
        cap >= 1,
    ensures
        first_escape(cre, cim, rsq, cap) == Some(0nat),
        escape_spec(cre, cim, rsq, cap) == EscapeResult::Escaped(0),
{
    reveal_with_fuel(orbit, 2);
    assert(orbit(cre, cim, 1) == (step_re(0, 0, cre), step_im(0, 0, cim)));
    assert(fmul(0, 0) == 0);
    assert(orbit(cre, cim, 1) == (cre, cim));
    assert(escapes_at(cre, cim, rsq, 0));
    lemma_first_escape_found(cre, cim, rsq, 0, cap);
}

proof fn lemma_origin_orbit(n: nat)
    ensures
        orbit(0, 0, n) == (0int, 0int),
    decreases n,
{
    if n > 0 {
        lemma_origin_orbit((n - 1) as nat);
        assert(fmul(0, 0) == 0);
    }
}

/// The origin is a fixed point of the iteration, so it never escapes a
/// nonnegative squared radius, whatever the cap.
pub proof fn lemma_origin_is_bound(rsq: int, cap: nat)
    requires
        rsq >= 0,
    ensures
        first_escape(0, 0, rsq, cap) is None,
        escape_spec(0, 0, rsq, cap) == EscapeResult::Bound,
    decreases cap,
{
    if cap > 0 {
        lemma_origin_is_bound(rsq, (cap - 1) as nat);
        lemma_origin_orbit(cap);
        assert(!escapes_at(0, 0, rsq, (cap - 1) as nat));
    }
}

proof fn lemma_minus_one_orbit(n: nat)
    ensures
        orbit(-(SCALE as int), 0, n) == if n % 2 == 1 {
            (-(SCALE as int), 0int)
        } else {
            (0int, 0int)
        },
    decreases n,
{
    if n > 0 {
        lemma_minus_one_orbit((n - 1) as nat);
        assert(fmul(-(SCALE as int), -(SCALE as int)) == SCALE as int);
        assert(fmul(-(SCALE as int), 0) == 0);
        assert(fmul(0, 0) == 0);
    }
}

/// The interior point -1 + 0i has the period-two orbit -1, 0, so it
/// never escapes a radius of at least one plane unit, whatever the
/// cap.
pub proof fn lemma_minus_one_is_bound(rsq: int, cap: nat)
    requires
        rsq >= (SCALE as int) * (SCALE as int),
    ensures
        first_escape(-(SCALE as int), 0, rsq, cap) is None,
        escape_spec(-(SCALE as int), 0, rsq, cap) == EscapeResult::Bound,
    decreases cap,
{
    if cap > 0 {
        lemma_minus_one_is_bound(rsq, (cap - 1) as nat);
        lemma_minus_one_orbit(cap);
        assert(!escapes_at(-(SCALE as int), 0, rsq, (cap - 1) as nat));
    }
}

/// Escape-time evaluation of one point under an iteration cap and a
/// divergence radius, exact against `escape_spec`.
pub fn evaluate(c: Complex, iteration_cap: u32, divergence_radius: i64) -> (r: EscapeResult)
    requires
        c.in_range(),
        0 <= divergence_radius <= RADIUS_LIMIT,
    ensures
        r == escape_spec(
            c.re as int,
            c.im as int,
            divergence_radius * divergence_radius,
            iteration_cap as nat,
        ),
        match r {
            EscapeResult::Escaped(n) => n < iteration_cap && escapes_at(
                c.re as int,
                c.im as int,
                divergence_radius * divergence_radius,
                n as nat,
            ) && no_escape_below(
                c.re as int,
                c.im as int,
                divergence_radius * divergence_radius,
                n as nat,
            ),
            EscapeResult::Bound => no_escape_below(
                c.re as int,
                c.im as int,
                divergence_radius * divergence_radius,
                iteration_cap as nat,
            ),
        },
{
    let ghost rsq: int = divergence_radius * divergence_radius;
    proof {
        assert(0 <= rsq <= 0x100_0000_0000_0000) by (nonlinear_arith)
            requires
                0 <= divergence_radius <= 0x1000_0000,
                rsq == divergence_radius * divergence_radius,
        ;
    }
    let radius_sq: i128 = (divergence_radius as i128) * (divergence_radius as i128);
    let mut zx: i64 = 0;
    let mut zy: i64 = 0;
    let mut i: u32 = 0;
    while i < iteration_cap
        invariant
            i <= iteration_cap,
            c.in_range(),
            0 <= divergence_radius <= RADIUS_LIMIT,
            rsq == divergence_radius * divergence_radius,
            radius_sq == rsq,
            (zx as int, zy as int) == orbit(c.re as int, c.im as int, i as nat),
            first_escape(c.re as int, c.im as int, rsq, i as nat) is None,
            norm_sqr(zx as int, zy as int) <= rsq,
        decreases iteration_cap - i,
    {
        proof {
            assert(-divergence_radius <= zx <= divergence_radius
                && -divergence_radius <= zy <= divergence_radius) by (nonlinear_arith)
                requires
                    (zx as int) * (zx as int) + (zy as int) * (zy as int) <= divergence_radius
                        * divergence_radius,
                    divergence_radius >= 0,
            ;
        }
        let sx: i64 = fix_mul(zx, zx);
        let sy: i64 = fix_mul(zy, zy);
        let m: i64 = fix_mul(zx, zy);
        let nx: i64 = sx - sy + c.re;
        let ny: i64 = 2 * m + c.im;
        proof {
            assert(nx == step_re(zx as int, zy as int, c.re as int));
            assert(ny == step_im(zx as int, zy as int, c.im as int));
            assert((nx as int, ny as int) == orbit(c.re as int, c.im as int, (i + 1) as nat));
            assert(0 <= (nx as int) * (nx as int) <= 0x10_0000_0000_0000_0000 && 0 <= (
            ny as int) * (ny as int) <= 0x10_0000_0000_0000_0000) by (nonlinear_arith)
                requires
                    -0x3_0000_0000 <= nx <= 0x3_0000_0000,
                    -0x3_0000_0000 <= ny <= 0x3_0000_0000,
            ;
        }
        let ns: i128 = (nx as i128) * (nx as i128) + (ny as i128) * (ny as i128);
        if ns > radius_sq {
            proof {
                assert(escapes_at(c.re as int, c.im as int, rsq, i as nat));
                lemma_first_escape_found(
                    c.re as int,
                    c.im as int,
                    rsq,
                    i as nat,
                    iteration_cap as nat,
                );
                lemma_first_escape_characterization(
                    c.re as int,
                    c.im as int,
                    rsq,
                    iteration_cap as nat,
                );
            }
            return EscapeResult::Escaped(i);
        }
        proof {
            lemma_first_escape_extend(c.re as int, c.im as int, rsq, i as nat);
        }
        zx = nx;
        zy = ny;
        i = i + 1;
    }
    proof {
        lemma_first_escape_characterization(
            c.re as int,
            c.im as int,
            rsq,
            iteration_cap as nat,
        );
    }
    EscapeResult::Bound
}

} // verus!
