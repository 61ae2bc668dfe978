//! Q16.16 fixed-point scalars.
//!
//! A scalar is an `i64` whose value is the integer divided by `SCALE`.
//! All coordinate and color arithmetic in this crate happens on these
//! scalars, so every operation has an exact integer meaning: the product
//! of two scalars is their integer product divided by `SCALE`, rounded
//! toward negative infinity.

use vstd::prelude::*;
use vstd::arithmetic::div_mod::{
    lemma_div_is_ordered,
    lemma_div_multiples_vanish,
};
use vstd::arithmetic::mul::lemma_mul_is_commutative;

verus! {

/// One whole unit: the fixed-point representation of 1.
pub const SCALE: i64 = 65536;

/// Bound on well-formed scalars (2^38). Keeping values within this bound
/// leaves enough headroom that a sum of two scalars, and every product
/// formed by the matrix and curve arithmetic of this crate, stays
/// representable in an `i64`.
pub const FX_BOUND: i64 = 274877906944;

/// Operand bound accepted by `fx_mul` (2^39): the sum of two well-formed
/// scalars still lies within it.
pub const FX_LIM: i64 = 549755813888;

/// A well-formed scalar: small enough to take part in arithmetic.
pub open spec fn fx_wf(s: int) -> bool {
    -FX_BOUND <= s <= FX_BOUND
}

/// The exact value of a fixed-point product: the integer product scaled
/// back down, rounded toward negative infinity (Euclidean division).
pub open spec fn fx_mul_spec(a: int, b: int) -> int {
    (a * b) / (SCALE as int)
}

/// `|a * b| <= m * n` whenever `|a| <= m` and `|b| <= n`.
pub proof fn lemma_mul_abs_bound(a: int, b: int, m: int, n: int)
    requires
        -m <= a <= m,
        -n <= b <= n,
    ensures
        -(m * n) <= a * b <= m * n,
{
    assert(-(m * n) <= a * b <= m * n) by (nonlinear_arith)
        requires
            -m <= a <= m,
            -n <= b <= n,
    ;
}

/// The fixed-point product of bounded scalars is bounded by the scaled
/// product of the bounds.
pub proof fn lemma_fx_mul_spec_bound(a: int, b: int, m: int, n: int)
    requires
        -m <= a <= m,
        -n <= b <= n,
        m * n % (SCALE as int) == 0,
    ensures
        -(m * n / (SCALE as int)) <= fx_mul_spec(a, b) <= m * n / (SCALE as int),
{
    lemma_mul_abs_bound(a, b, m, n);
    lemma_div_is_ordered(a * b, m * n, SCALE as int);
    lemma_div_is_ordered(-(m * n), a * b, SCALE as int);
    assert(-(m * n) / (SCALE as int) == -(m * n / (SCALE as int))) by {
        lemma_div_multiples_vanish(-(m * n) / (SCALE as int), SCALE as int);
        lemma_div_multiples_vanish(m * n / (SCALE as int), SCALE as int);
    }
}

/// Multiplying by one is the identity: `fx_mul_spec(SCALE, x) == x`.
pub proof fn lemma_fx_mul_one(x: int)
    ensures
        fx_mul_spec(SCALE as int, x) == x,
        fx_mul_spec(x, SCALE as int) == x,
{
    lemma_div_multiples_vanish(x, SCALE as int);
    lemma_mul_is_commutative(SCALE as int, x);
}

/// Interpolating from `a` toward `b` by a factor `t` in [0, SCALE] never
/// leaves the closed interval between `a` and `b`.
pub proof fn lemma_lerp_bounds(t: int, a: int, b: int)
    requires
        0 <= t <= SCALE,
    ensures
        a <= b ==> a <= a + fx_mul_spec(t, b - a) <= b,
        b <= a ==> b <= a + fx_mul_spec(t, b - a) <= a,
{
    let s = SCALE as int;
    let d = b - a;
    if d >= 0 {
        assert(0 <= t * d <= s * d) by (nonlinear_arith)
            requires
                0 <= t <= s,
                d >= 0,
        ;
        lemma_div_is_ordered(0, t * d, s);
        lemma_div_is_ordered(t * d, s * d, s);
        lemma_div_multiples_vanish(d, s);
    } else {
        assert(s * d <= t * d <= 0) by (nonlinear_arith)
            requires
                0 <= t <= s,
                d < 0,
        ;
        lemma_div_is_ordered(s * d, t * d, s);
        lemma_div_is_ordered(t * d, 0, s);
        lemma_div_multiples_vanish(d, s);
    }
}

/// Fixed-point multiplication, exact with respect to `fx_mul_spec`.
pub fn fx_mul(a: i64, b: i64) -> (r: i64)
    requires
        -FX_LIM <= a <= FX_LIM,
        -FX_LIM <= b <= FX_LIM,
    ensures
        r == fx_mul_spec(a as int, b as int),
{
    proof {
        lemma_mul_abs_bound(a as int, b as int, FX_LIM as int, FX_LIM as int);
    }
    let p: i128 = (a as i128) * (b as i128);
    proof {
        lemma_div_is_ordered(p as int, (FX_LIM as int) * (FX_LIM as int), SCALE as int);
        lemma_div_is_ordered(-((FX_LIM as int) * (FX_LIM as int)), p as int, SCALE as int);
    }
    let q: i128 = match p.checked_div_euclid(65536) {
        Some(v) => v,
        None => 0,
    };
    q as i64
}

} // verus!
