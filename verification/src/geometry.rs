//! Affine 2-D transforms.
//!
//! A `Matrix` is a row-major 3x3 affine transform with an implicit bottom
//! row (0, 0, 1), so only six entries are stored:
//!
//! ```text
//! a b c
//! d e f
//! 0 0 1
//! ```
//!
//! The linear entries and the translation entries are Q16.16 fixed-point
//! scalars. Every operation here is a pure function with an exact
//! integer-level contract.

use vstd::prelude::*;
use crate::fixed::{fx_mul, fx_mul_spec, fx_wf, lemma_fx_mul_one, lemma_fx_mul_spec_bound, FX_BOUND, SCALE};
use crate::point::Point;

verus! {

#[derive(Clone, Copy, Debug, PartialEq, Eq, Structural)]
pub struct Matrix {
    pub a: i64,
    pub b: i64,
    pub c: i64,
    pub d: i64,
    pub e: i64,
    pub f: i64,
}

/// A well-formed matrix: all entries small enough for further arithmetic.
pub open spec fn mat_wf(m: Matrix) -> bool {
    fx_wf(m.a as int) && fx_wf(m.b as int) && fx_wf(m.c as int) && fx_wf(m.d as int) && fx_wf(
        m.e as int,
    ) && fx_wf(m.f as int)
}

/// The identity transform.
pub open spec fn mat_identity() -> Matrix {
    Matrix { a: SCALE, b: 0, c: 0, d: 0, e: SCALE, f: 0 }
}

/// The rotation whose cosine and sine are `cos_a` and `sin_a`
/// (counter-clockwise-positive in y-down device space).
pub open spec fn rot_mat(cos_a: i64, sin_a: i64) -> Matrix {
    Matrix { a: cos_a, b: (-sin_a) as i64, c: 0, d: sin_a, e: cos_a, f: 0 }
}

/// The translation by (x, y).
pub open spec fn trans_mat(x: i64, y: i64) -> Matrix {
    Matrix { a: SCALE, b: 0, c: x, d: 0, e: SCALE, f: y }
}

/// Entries of the matrix product `l * r` as unbounded integers.
pub open spec fn mat_mul_a(l: Matrix, r: Matrix) -> int {
    fx_mul_spec(l.a as int, r.a as int) + fx_mul_spec(l.b as int, r.d as int)
}

pub open spec fn mat_mul_b(l: Matrix, r: Matrix) -> int {
    fx_mul_spec(l.a as int, r.b as int) + fx_mul_spec(l.b as int, r.e as int)
}

pub open spec fn mat_mul_c(l: Matrix, r: Matrix) -> int {
    fx_mul_spec(l.a as int, r.c as int) + fx_mul_spec(l.b as int, r.f as int) + l.c
}

pub open spec fn mat_mul_d(l: Matrix, r: Matrix) -> int {
    fx_mul_spec(l.d as int, r.a as int) + fx_mul_spec(l.e as int, r.d as int)
}

pub open spec fn mat_mul_e(l: Matrix, r: Matrix) -> int {
    fx_mul_spec(l.d as int, r.b as int) + fx_mul_spec(l.e as int, r.e as int)
}

pub open spec fn mat_mul_f(l: Matrix, r: Matrix) -> int {
    fx_mul_spec(l.d as int, r.c as int) + fx_mul_spec(l.e as int, r.f as int) + l.f
}

/// The x coordinate of `m` applied to the point (x, y).
pub open spec fn apply_x(m: Matrix, x: int, y: int) -> int {
    fx_mul_spec(m.a as int, x) + fx_mul_spec(m.b as int, y) + m.c
}

/// The y coordinate of `m` applied to the point (x, y).
pub open spec fn apply_y(m: Matrix, x: int, y: int) -> int {
    fx_mul_spec(m.d as int, x) + fx_mul_spec(m.e as int, y) + m.f
}

/// `m` applied to the point `p`, as a `Point`. Meaningful whenever the
/// coordinates fit in an `i64`, which `lemma_apply_in_range` guarantees
/// for well-formed inputs.
pub open spec fn apply_point(m: Matrix, p: Point) -> Point {
    Point { x: apply_x(m, p.x as int, p.y as int) as i64, y: apply_y(m, p.x as int, p.y as int) as i64 }
}

/// For a well-formed matrix and point, the transformed coordinates stay
/// well inside the `i64` range (though not necessarily well-formed).
pub proof fn lemma_apply_in_range(m: Matrix, x: int, y: int)
    requires
        mat_wf(m),
        fx_wf(x),
        fx_wf(y),
    ensures
        -0x4000000000000000 <= apply_x(m, x, y) <= 0x4000000000000000,
        -0x4000000000000000 <= apply_y(m, x, y) <= 0x4000000000000000,
{
    lemma_fx_mul_spec_bound(m.a as int, x, FX_BOUND as int, FX_BOUND as int);
    lemma_fx_mul_spec_bound(m.b as int, y, FX_BOUND as int, FX_BOUND as int);
    lemma_fx_mul_spec_bound(m.d as int, x, FX_BOUND as int, FX_BOUND as int);
    lemma_fx_mul_spec_bound(m.e as int, y, FX_BOUND as int, FX_BOUND as int);
}

/// Composing with the identity on either side changes nothing, entry by
/// entry, for every matrix.
pub proof fn lemma_identity_compose(m: Matrix)
    ensures
        mat_mul_a(mat_identity(), m) == m.a,
        mat_mul_b(mat_identity(), m) == m.b,
        mat_mul_c(mat_identity(), m) == m.c,
        mat_mul_d(mat_identity(), m) == m.d,
        mat_mul_e(mat_identity(), m) == m.e,
        mat_mul_f(mat_identity(), m) == m.f,
        mat_mul_a(m, mat_identity()) == m.a,
        mat_mul_b(m, mat_identity()) == m.b,
        mat_mul_c(m, mat_identity()) == m.c,
        mat_mul_d(m, mat_identity()) == m.d,
        mat_mul_e(m, mat_identity()) == m.e,
        mat_mul_f(m, mat_identity()) == m.f,
{
    lemma_fx_mul_one(m.a as int);
    lemma_fx_mul_one(m.b as int);
    lemma_fx_mul_one(m.c as int);
    lemma_fx_mul_one(m.d as int);
    lemma_fx_mul_one(m.e as int);
    lemma_fx_mul_one(m.f as int);
}

/// A rotation by angle zero (cosine 1, sine 0) is the identity transform.
pub proof fn lemma_rotation_zero_is_identity()
    ensures
        rot_mat(SCALE, 0) == mat_identity(),
{
}

/// Applying the identity to any point gives the point back.
pub proof fn lemma_apply_identity(x: int, y: int)
    ensures
        apply_x(mat_identity(), x, y) == x,
        apply_y(mat_identity(), x, y) == y,
{
    lemma_fx_mul_one(x);
    lemma_fx_mul_one(y);
}

/// Applying a rotation by angle zero gives every point back.
pub proof fn lemma_apply_rotation_zero(x: int, y: int)
    ensures
        apply_x(rot_mat(SCALE, 0), x, y) == x,
        apply_y(rot_mat(SCALE, 0), x, y) == y,
{
    lemma_rotation_zero_is_identity();
    lemma_apply_identity(x, y);
}

/// Applying a translation adds the offsets to the coordinates, exactly.
pub proof fn lemma_apply_translation(dx: i64, dy: i64, x: int, y: int)
    ensures
        apply_x(trans_mat(dx, dy), x, y) == x + dx,
        apply_y(trans_mat(dx, dy), x, y) == y + dy,
{
    lemma_fx_mul_one(x);
    lemma_fx_mul_one(y);
}

/// Get the identity matrix.
pub fn identity() -> (m: Matrix)
    ensures
        m == mat_identity(),
{
    Matrix { a: SCALE, b: 0, c: 0, d: 0, e: SCALE, f: 0 }
}

/// Get a matrix representing a rotation with the given cosine and sine.
/// The caller supplies the two scalars, which for a real angle lie in
/// [-SCALE, SCALE].
pub fn rotation(cos_a: i64, sin_a: i64) -> (m: Matrix)
    requires
        -SCALE <= cos_a <= SCALE,
        -SCALE <= sin_a <= SCALE,
    ensures
        m == rot_mat(cos_a, sin_a),
{
    Matrix { a: cos_a, b: -sin_a, c: 0, d: sin_a, e: cos_a, f: 0 }
}

/// Get a matrix representing the provided translation.
pub fn translation(x: i64, y: i64) -> (m: Matrix)
    ensures
        m == trans_mat(x, y),
{
    Matrix { a: SCALE, b: 0, c: x, d: 0, e: SCALE, f: y }
}

/// Apply the given matrix transform to the given point.
pub fn mul_point(left: &Matrix, p: Point) -> (r: Point)
    requires
        mat_wf(*left),
        fx_wf(p.x as int),
        fx_wf(p.y as int),
    ensures
        r == apply_point(*left, p),
{
    proof {
        lemma_apply_in_range(*left, p.x as int, p.y as int);
        lemma_fx_mul_spec_bound(left.a as int, p.x as int, FX_BOUND as int, FX_BOUND as int);
        lemma_fx_mul_spec_bound(left.b as int, p.y as int, FX_BOUND as int, FX_BOUND as int);
        lemma_fx_mul_spec_bound(left.d as int, p.x as int, FX_BOUND as int, FX_BOUND as int);
        lemma_fx_mul_spec_bound(left.e as int, p.y as int, FX_BOUND as int, FX_BOUND as int);
    }
    Point {
        x: fx_mul(left.a, p.x) + fx_mul(left.b, p.y) + left.c,
        y: fx_mul(left.d, p.x) + fx_mul(left.e, p.y) + left.f,
    }
}

/// Compose two matrices via multiplication: the result applies `right`
/// first, then `left`.
pub fn mul_matrix(left: &Matrix, right: &Matrix) -> (r: Matrix)
    requires
        mat_wf(*left),
        mat_wf(*right),
    ensures
        r.a == mat_mul_a(*left, *right),
        r.b == mat_mul_b(*left, *right),
        r.c == mat_mul_c(*left, *right),
        r.d == mat_mul_d(*left, *right),
        r.e == mat_mul_e(*left, *right),
        r.f == mat_mul_f(*left, *right),
{
    proof {
        lemma_fx_mul_spec_bound(left.a as int, right.a as int, FX_BOUND as int, FX_BOUND as int);
        lemma_fx_mul_spec_bound(left.b as int, right.d as int, FX_BOUND as int, FX_BOUND as int);
        lemma_fx_mul_spec_bound(left.a as int, right.b as int, FX_BOUND as int, FX_BOUND as int);
        lemma_fx_mul_spec_bound(left.b as int, right.e as int, FX_BOUND as int, FX_BOUND as int);
        lemma_fx_mul_spec_bound(left.a as int, right.c as int, FX_BOUND as int, FX_BOUND as int);
        lemma_fx_mul_spec_bound(left.b as int, right.f as int, FX_BOUND as int, FX_BOUND as int);
        lemma_fx_mul_spec_bound(left.d as int, right.a as int, FX_BOUND as int, FX_BOUND as int);
        lemma_fx_mul_spec_bound(left.e as int, right.d as int, FX_BOUND as int, FX_BOUND as int);
        lemma_fx_mul_spec_bound(left.d as int, right.b as int, FX_BOUND as int, FX_BOUND as int);
        lemma_fx_mul_spec_bound(left.e as int, right.e as int, FX_BOUND as int, FX_BOUND as int);
        lemma_fx_mul_spec_bound(left.d as int, right.c as int, FX_BOUND as int, FX_BOUND as int);
        lemma_fx_mul_spec_bound(left.e as int, right.f as int, FX_BOUND as int, FX_BOUND as int);
    }
    Matrix {
        a: fx_mul(left.a, right.a) + fx_mul(left.b, right.d),
        b: fx_mul(left.a, right.b) + fx_mul(left.b, right.e),
        c: fx_mul(left.a, right.c) + fx_mul(left.b, right.f) + left.c,
        d: fx_mul(left.d, right.a) + fx_mul(left.e, right.d),
        e: fx_mul(left.d, right.b) + fx_mul(left.e, right.e),
        f: fx_mul(left.d, right.c) + fx_mul(left.e, right.f) + left.f,
    }
}

} // verus!
