//! Exact model of the bicubic Hermite-to-power-basis transform.
//!
//! A patch interpolates Hermite data (value, both first partial
//! derivatives and the mixed second partial derivative) given at the
//! four corners of a grid cell.  The nodal derivatives, stated in
//! physical units, are first rescaled into unit-square form: the
//! x-derivatives by the cell width `dx`, the y-derivatives by the cell
//! height `dy`, and the mixed derivatives by both.  A fixed change of
//! basis then yields the sixteen power-basis coefficients `a_ij` of
//!
//! ```text
//! P(x, y) = sum over i, j in 0..=3 of a_ij * x^i * y^j
//! ```
//!
//! over the unit square.  This module states that transform over exact
//! mathematical integers and proves the laws that make it the right
//! one:
//!
//! - at each corner the patch reproduces the given value and the
//!   rescaled derivatives exactly;
//! - the restriction of a patch to any of its four edges is the 1D
//!   cubic Hermite interpolant of the two edge nodes, so two patches
//!   built from shared nodal data agree along a shared edge
//!   (C0 continuity) and their cross-edge derivatives agree after
//!   undoing the per-cell rescaling (C1 continuity).
//!
//! The identities are polynomial, so they hold over every commutative
//! ring; the executable evaluator applies them to floating-point data,
//! where they hold up to rounding.

use vstd::prelude::*;

verus! {

/// Hermite data at one grid node: the function value, its first
/// partial derivatives and its mixed second partial derivative, in
/// physical units.
pub struct Corner {
    /// Function value f.
    pub f: int,
    /// Partial derivative f_x.
    pub fx: int,
    /// Partial derivative f_y.
    pub fy: int,
    /// Mixed partial derivative f_xy.
    pub fxy: int,
}

/// The Hermite data at the four corners of one grid cell, in the fixed
/// order bottom-left `(0,0)`, bottom-right `(1,0)`, top-left `(0,1)`,
/// top-right `(1,1)` of the cell's local unit square.
pub struct CellData {
    /// Corner at local (0, 0).
    pub c00: Corner,
    /// Corner at local (1, 0).
    pub c10: Corner,
    /// Corner at local (0, 1).
    pub c01: Corner,
    /// Corner at local (1, 1).
    pub c11: Corner,
}

/// The sixteen power-basis coefficients of one patch: `aij` multiplies
/// `x^i * y^j`.
pub struct Coeffs {
    /// Coefficient of x^0 y^0.
    pub a00: int,
    /// Coefficient of x^0 y^1.
    pub a01: int,
    /// Coefficient of x^0 y^2.
    pub a02: int,
    /// Coefficient of x^0 y^3.
    pub a03: int,
    /// Coefficient of x^1 y^0.
    pub a10: int,
    /// Coefficient of x^1 y^1.
    pub a11: int,
    /// Coefficient of x^1 y^2.
    pub a12: int,
    /// Coefficient of x^1 y^3.
    pub a13: int,
    /// Coefficient of x^2 y^0.
    pub a20: int,
    /// Coefficient of x^2 y^1.
    pub a21: int,
    /// Coefficient of x^2 y^2.
    pub a22: int,
    /// Coefficient of x^2 y^3.
    pub a23: int,
    /// Coefficient of x^3 y^0.
    pub a30: int,
    /// Coefficient of x^3 y^1.
    pub a31: int,
    /// Coefficient of x^3 y^2.
    pub a32: int,
    /// Coefficient of x^3 y^3.
    pub a33: int,
}

/// Cubic polynomial `c0 + c1 t + c2 t^2 + c3 t^3`, in nested Horner
/// form.
pub open spec fn cubic(c0: int, c1: int, c2: int, c3: int, t: int) -> int {
    c0 + t * (c1 + t * (c2 + t * c3))
}

/// Derivative of [`cubic`] with respect to `t`:
/// `c1 + 2 c2 t + 3 c3 t^2`.
pub open spec fn cubic_slope(c0: int, c1: int, c2: int, c3: int, t: int) -> int {
    c1 + t * (2 * c2 + t * (3 * c3))
}

/// The 1D cubic Hermite interpolant on the unit interval: the unique
/// cubic with value `v0` and derivative `d0` at `t = 0`, and value
/// `v1` and derivative `d1` at `t = 1`.
pub open spec fn hermite_cubic(v0: int, v1: int, d0: int, d1: int, t: int) -> int {
    cubic(v0, d0, -3 * v0 + 3 * v1 - 2 * d0 - d1, 2 * v0 - 2 * v1 + d0 + d1, t)
}

/// Derivative of [`hermite_cubic`] with respect to `t`.
pub open spec fn hermite_cubic_slope(v0: int, v1: int, d0: int, d1: int, t: int) -> int {
    cubic_slope(v0, d0, -3 * v0 + 3 * v1 - 2 * d0 - d1, 2 * v0 - 2 * v1 + d0 + d1, t)
}

/// The 1D Hermite interpolant does interpolate: it reproduces the two
/// endpoint values and the two endpoint derivatives exactly.
pub proof fn lemma_hermite_endpoints(v0: int, v1: int, d0: int, d1: int)
    ensures
        hermite_cubic(v0, v1, d0, d1, 0) == v0,
        hermite_cubic(v0, v1, d0, d1, 1) == v1,
        hermite_cubic_slope(v0, v1, d0, d1, 0) == d0,
        hermite_cubic_slope(v0, v1, d0, d1, 1) == d1,
{
}

/// The fixed bicubic Hermite-to-power-basis change of basis: the
/// sixteen coefficients of a cell's patch, from the cell's corner data
/// and its physical width `dx` and height `dy`.  The derivative inputs
/// are rescaled (`fx` by `dx`, `fy` by `dy`, `fxy` by both) so that
/// the patch, evaluated over the unit square, reproduces the physical
/// derivatives after the chain rule.
pub open spec fn coeffs(dx: int, dy: int, d: CellData) -> Coeffs {
    let p0 = d.c00.f;
    let p1 = d.c10.f;
    let p2 = d.c01.f;
    let p3 = d.c11.f;
    let p4 = dx * d.c00.fx;
    let p5 = dx * d.c10.fx;
    let p6 = dx * d.c01.fx;
    let p7 = dx * d.c11.fx;
    let p8 = dy * d.c00.fy;
    let p9 = dy * d.c10.fy;
    let p10 = dy * d.c01.fy;
    let p11 = dy * d.c11.fy;
    let p12 = dx * (dy * d.c00.fxy);
    let p13 = dx * (dy * d.c10.fxy);
    let p14 = dx * (dy * d.c01.fxy);
    let p15 = dx * (dy * d.c11.fxy);
    Coeffs {
        a00: p0,
        a10: p4,
        a20: -3 * p0 + 3 * p1 - 2 * p4 - p5,
        a30: 2 * p0 - 2 * p1 + p4 + p5,
        a01: p8,
        a11: p12,
        a21: -3 * p8 + 3 * p9 - 2 * p12 - p13,
        a31: 2 * p8 - 2 * p9 + p12 + p13,
        a02: -3 * p0 + 3 * p2 - 2 * p8 - p10,
        a12: -3 * p4 + 3 * p6 - 2 * p12 - p14,
        a22: 9 * p0 - 9 * p1 - 9 * p2 + 9 * p3 + 6 * p4 + 3 * p5 - 6 * p6 - 3 * p7 + 6 * p8 - 6
            * p9 + 3 * p10 - 3 * p11 + 4 * p12 + 2 * p13 + 2 * p14 + p15,
        a32: -6 * p0 + 6 * p1 + 6 * p2 - 6 * p3 - 3 * p4 - 3 * p5 + 3 * p6 + 3 * p7 - 4 * p8 + 4
            * p9 - 2 * p10 + 2 * p11 - 2 * p12 - 2 * p13 - p14 - p15,
        a03: 2 * p0 - 2 * p2 + p8 + p10,
        a13: 2 * p4 - 2 * p6 + p12 + p14,
        a23: -6 * p0 + 6 * p1 + 6 * p2 - 6 * p3 - 4 * p4 - 2 * p5 + 4 * p6 + 2 * p7 - 3 * p8 + 3
            * p9 - 3 * p10 + 3 * p11 - 2 * p12 - p13 - 2 * p14 - p15,
        a33: 4 * p0 - 4 * p1 - 4 * p2 + 4 * p3 + 2 * p4 + 2 * p5 - 2 * p6 - 2 * p7 + 2 * p8 - 2
            * p9 + 2 * p10 - 2 * p11 + p12 + p13 + p14 + p15,
    }
}

/// The patch polynomial `P(x, y)`: four cubic-in-y row coefficients
/// combined as a cubic in x, exactly as the evaluator accumulates it.
pub open spec fn poly_at(c: Coeffs, x: int, y: int) -> int {
    cubic(c.a00, c.a01, c.a02, c.a03, y) + x * (cubic(c.a10, c.a11, c.a12, c.a13, y) + x * (cubic(
        c.a20,
        c.a21,
        c.a22,
        c.a23,
        y,
    ) + x * cubic(c.a30, c.a31, c.a32, c.a33, y)))
}

/// Partial derivative of the patch polynomial with respect to x.
pub open spec fn poly_dx(c: Coeffs, x: int, y: int) -> int {
    cubic(c.a10, c.a11, c.a12, c.a13, y) + x * (2 * cubic(c.a20, c.a21, c.a22, c.a23, y) + x * (3
        * cubic(c.a30, c.a31, c.a32, c.a33, y)))
}

/// Partial derivative of the patch polynomial with respect to y.
pub open spec fn poly_dy(c: Coeffs, x: int, y: int) -> int {
    cubic_slope(c.a00, c.a01, c.a02, c.a03, y) + x * (cubic_slope(c.a10, c.a11, c.a12, c.a13, y)
        + x * (cubic_slope(c.a20, c.a21, c.a22, c.a23, y) + x * cubic_slope(
        c.a30,
        c.a31,
        c.a32,
        c.a33,
        y,
    )))
}

/// Mixed second partial derivative of the patch polynomial.
pub open spec fn poly_dxy(c: Coeffs, x: int, y: int) -> int {
    cubic_slope(c.a10, c.a11, c.a12, c.a13, y) + x * (2 * cubic_slope(c.a20, c.a21, c.a22, c.a23, y)
        + x * (3 * cubic_slope(c.a30, c.a31, c.a32, c.a33, y)))
}

/// Corner interpolation exactness: at each of its four corners the
/// patch reproduces the given function value exactly.
pub proof fn lemma_corner_values(dx: int, dy: int, d: CellData)
    ensures
        poly_at(coeffs(dx, dy, d), 0, 0) == d.c00.f,
        poly_at(coeffs(dx, dy, d), 1, 0) == d.c10.f,
        poly_at(coeffs(dx, dy, d), 0, 1) == d.c01.f,
        poly_at(coeffs(dx, dy, d), 1, 1) == d.c11.f,
{
}

/// At each corner the patch's x-derivative is the given nodal
/// x-derivative rescaled by the cell width.
pub proof fn lemma_corner_x_slopes(dx: int, dy: int, d: CellData)
    ensures
        poly_dx(coeffs(dx, dy, d), 0, 0) == dx * d.c00.fx,
        poly_dx(coeffs(dx, dy, d), 1, 0) == dx * d.c10.fx,
        poly_dx(coeffs(dx, dy, d), 0, 1) == dx * d.c01.fx,
        poly_dx(coeffs(dx, dy, d), 1, 1) == dx * d.c11.fx,
{
}

/// At each corner the patch's y-derivative is the given nodal
/// y-derivative rescaled by the cell height.
pub proof fn lemma_corner_y_slopes(dx: int, dy: int, d: CellData)
    ensures
        poly_dy(coeffs(dx, dy, d), 0, 0) == dy * d.c00.fy,
        poly_dy(coeffs(dx, dy, d), 1, 0) == dy * d.c10.fy,
        poly_dy(coeffs(dx, dy, d), 0, 1) == dy * d.c01.fy,
        poly_dy(coeffs(dx, dy, d), 1, 1) == dy * d.c11.fy,
{
}

/// At each corner the patch's mixed derivative is the given nodal
/// mixed derivative rescaled by both cell dimensions.
pub proof fn lemma_corner_mixed_slopes(dx: int, dy: int, d: CellData)
    ensures
        poly_dxy(coeffs(dx, dy, d), 0, 0) == dx * (dy * d.c00.fxy),
        poly_dxy(coeffs(dx, dy, d), 1, 0) == dx * (dy * d.c10.fxy),
        poly_dxy(coeffs(dx, dy, d), 0, 1) == dx * (dy * d.c01.fxy),
        poly_dxy(coeffs(dx, dy, d), 1, 1) == dx * (dy * d.c11.fxy),
{
}

/// Two cubics added coefficient-wise give the cubic of the summed
/// coefficients.
proof fn lemma_cubic_sum2(
    a0: int,
    a1: int,
    a2: int,
    a3: int,
    b0: int,
    b1: int,
    b2: int,
    b3: int,
    t: int,
)
    by (nonlinear_arith)
    ensures
        cubic(a0, a1, a2, a3, t) + cubic(b0, b1, b2, b3, t) == cubic(
            a0 + b0,
            a1 + b1,
            a2 + b2,
            a3 + b3,
            t,
        ),
{
}

/// Four cubics added coefficient-wise give the cubic of the summed
/// coefficients.
proof fn lemma_cubic_sum4(
    a0: int,
    a1: int,
    a2: int,
    a3: int,
    b0: int,
    b1: int,
    b2: int,
    b3: int,
    c0: int,
    c1: int,
    c2: int,
    c3: int,
    e0: int,
    e1: int,
    e2: int,
    e3: int,
    t: int,
)
    ensures
        cubic(a0, a1, a2, a3, t) + cubic(b0, b1, b2, b3, t) + cubic(c0, c1, c2, c3, t) + cubic(
            e0,
            e1,
            e2,
            e3,
            t,
        ) == cubic(a0 + b0 + c0 + e0, a1 + b1 + c1 + e1, a2 + b2 + c2 + e2, a3 + b3 + c3 + e3, t),
{
    lemma_cubic_sum2(a0, a1, a2, a3, b0, b1, b2, b3, t);
    lemma_cubic_sum2(c0, c1, c2, c3, e0, e1, e2, e3, t);
    lemma_cubic_sum2(a0 + b0, a1 + b1, a2 + b2, a3 + b3, c0 + e0, c1 + e1, c2 + e2, c3 + e3, t);
}

/// The combination `1, 2, 3` of three cubics, as it arises in the
/// x-derivative at `x = 1`, is the cubic of the combined coefficients.
proof fn lemma_cubic_comb123(
    a0: int,
    a1: int,
    a2: int,
    a3: int,
    b0: int,
    b1: int,
    b2: int,
    b3: int,
    c0: int,
    c1: int,
    c2: int,
    c3: int,
    t: int,
)
    by (nonlinear_arith)
    ensures
        cubic(a0, a1, a2, a3, t) + 2 * cubic(b0, b1, b2, b3, t) + 3 * cubic(c0, c1, c2, c3, t)
            == cubic(a0 + 2 * b0 + 3 * c0, a1 + 2 * b1 + 3 * c1, a2 + 2 * b2 + 3 * c2, a3 + 2 * b3
            + 3 * c3, t),
{
}

/// Scaling a cubic scales its coefficients.
proof fn lemma_cubic_scale(k: int, c0: int, c1: int, c2: int, c3: int, t: int)
    by (nonlinear_arith)
    ensures
        k * cubic(c0, c1, c2, c3, t) == cubic(k * c0, k * c1, k * c2, k * c3, t),
{
}

/// Distributes a common rescaling factor out of the third and fourth
/// Hermite cubic coefficients.
proof fn lemma_scale_comb(k: int, u0: int, u1: int, w0: int, w1: int, s2: int, s3: int)
    by (nonlinear_arith)
    requires
        s2 == -3 * (k * u0) + 3 * (k * u1) - 2 * (k * w0) - (k * w1),
        s3 == 2 * (k * u0) - 2 * (k * u1) + (k * w0) + (k * w1),
    ensures
        s2 == k * (-3 * u0 + 3 * u1 - 2 * w0 - w1),
        s3 == k * (2 * u0 - 2 * u1 + w0 + w1),
{
}

/// As [`lemma_scale_comb`], with the two rescaling factors of the
/// mixed derivative applied in either order.
proof fn lemma_scale_comb_flip(
    k1: int,
    k2: int,
    u0: int,
    u1: int,
    w0: int,
    w1: int,
    s1: int,
    s2: int,
    s3: int,
)
    by (nonlinear_arith)
    requires
        s1 == k1 * (k2 * w0),
        s2 == -3 * (k2 * u0) + 3 * (k2 * u1) - 2 * (k1 * (k2 * w0)) - (k1 * (k2 * w1)),
        s3 == 2 * (k2 * u0) - 2 * (k2 * u1) + (k1 * (k2 * w0)) + (k1 * (k2 * w1)),
    ensures
        s1 == k2 * (k1 * w0),
        s2 == k2 * (-3 * u0 + 3 * u1 - 2 * (k1 * w0) - (k1 * w1)),
        s3 == k2 * (2 * u0 - 2 * u1 + (k1 * w0) + (k1 * w1)),
{
}

/// The restriction of a patch to its left edge (`x = 0`) is the 1D
/// Hermite interpolant of the two left-edge nodes in y.
pub proof fn lemma_edge_values_x0(dx: int, dy: int, d: CellData, t: int)
    ensures
        poly_at(coeffs(dx, dy, d), 0, t) == hermite_cubic(
            d.c00.f,
            d.c01.f,
            dy * d.c00.fy,
            dy * d.c01.fy,
            t,
        ),
{
}

/// The restriction of a patch to its right edge (`x = 1`) is the 1D
/// Hermite interpolant of the two right-edge nodes in y.
pub proof fn lemma_edge_values_x1(dx: int, dy: int, d: CellData, t: int)
    ensures
        poly_at(coeffs(dx, dy, d), 1, t) == hermite_cubic(
            d.c10.f,
            d.c11.f,
            dy * d.c10.fy,
            dy * d.c11.fy,
            t,
        ),
{
    let c = coeffs(dx, dy, d);
    lemma_cubic_sum4(
        c.a00,
        c.a01,
        c.a02,
        c.a03,
        c.a10,
        c.a11,
        c.a12,
        c.a13,
        c.a20,
        c.a21,
        c.a22,
        c.a23,
        c.a30,
        c.a31,
        c.a32,
        c.a33,
        t,
    );
    assert(poly_at(c, 1, t) == cubic(c.a00, c.a01, c.a02, c.a03, t) + cubic(
        c.a10,
        c.a11,
        c.a12,
        c.a13,
        t,
    ) + cubic(c.a20, c.a21, c.a22, c.a23, t) + cubic(c.a30, c.a31, c.a32, c.a33, t));
}

/// The restriction of a patch to its bottom edge (`y = 0`) is the 1D
/// Hermite interpolant of the two bottom-edge nodes in x.
pub proof fn lemma_edge_values_y0(dx: int, dy: int, d: CellData, t: int)
    ensures
        poly_at(coeffs(dx, dy, d), t, 0) == hermite_cubic(
            d.c00.f,
            d.c10.f,
            dx * d.c00.fx,
            dx * d.c10.fx,
            t,
        ),
{
    let c = coeffs(dx, dy, d);
    assert(poly_at(c, t, 0) == cubic(c.a00, c.a10, c.a20, c.a30, t));
}

/// The restriction of a patch to its top edge (`y = 1`) is the 1D
/// Hermite interpolant of the two top-edge nodes in x.
pub proof fn lemma_edge_values_y1(dx: int, dy: int, d: CellData, t: int)
    ensures
        poly_at(coeffs(dx, dy, d), t, 1) == hermite_cubic(
            d.c01.f,
            d.c11.f,
            dx * d.c01.fx,
            dx * d.c11.fx,
            t,
        ),
{
    let c = coeffs(dx, dy, d);
    let q0 = cubic(c.a00, c.a01, c.a02, c.a03, 1);
    let q1 = cubic(c.a10, c.a11, c.a12, c.a13, 1);
    let q2 = cubic(c.a20, c.a21, c.a22, c.a23, 1);
    let q3 = cubic(c.a30, c.a31, c.a32, c.a33, 1);
    assert(poly_at(c, t, 1) == cubic(q0, q1, q2, q3, t));
}

/// The x-derivative of a patch along its left edge is the rescaled 1D
/// Hermite interpolant of the nodal x-derivatives there.
pub proof fn lemma_edge_x_slope_x0(dx: int, dy: int, d: CellData, t: int)
    ensures
        poly_dx(coeffs(dx, dy, d), 0, t) == dx * hermite_cubic(
            d.c00.fx,
            d.c01.fx,
            dy * d.c00.fxy,
            dy * d.c01.fxy,
            t,
        ),
{
    let c = coeffs(dx, dy, d);
    lemma_scale_comb(dx, d.c00.fx, d.c01.fx, dy * d.c00.fxy, dy * d.c01.fxy, c.a12, c.a13);
    lemma_cubic_scale(
        dx,
        d.c00.fx,
        dy * d.c00.fxy,
        -3 * d.c00.fx + 3 * d.c01.fx - 2 * (dy * d.c00.fxy) - (dy * d.c01.fxy),
        2 * d.c00.fx - 2 * d.c01.fx + (dy * d.c00.fxy) + (dy * d.c01.fxy),
        t,
    );
    assert(poly_dx(c, 0, t) == cubic(c.a10, c.a11, c.a12, c.a13, t));
}

/// The x-derivative of a patch along its right edge is the rescaled 1D
/// Hermite interpolant of the nodal x-derivatives there.
pub proof fn lemma_edge_x_slope_x1(dx: int, dy: int, d: CellData, t: int)
    ensures
        poly_dx(coeffs(dx, dy, d), 1, t) == dx * hermite_cubic(
            d.c10.fx,
            d.c11.fx,
            dy * d.c10.fxy,
            dy * d.c11.fxy,
            t,
        ),
{
    let c = coeffs(dx, dy, d);
    let m0 = c.a10 + 2 * c.a20 + 3 * c.a30;
    let m1 = c.a11 + 2 * c.a21 + 3 * c.a31;
    let m2 = c.a12 + 2 * c.a22 + 3 * c.a32;
    let m3 = c.a13 + 2 * c.a23 + 3 * c.a33;
    lemma_cubic_comb123(
        c.a10,
        c.a11,
        c.a12,
        c.a13,
        c.a20,
        c.a21,
        c.a22,
        c.a23,
        c.a30,
        c.a31,
        c.a32,
        c.a33,
        t,
    );
    assert(poly_dx(c, 1, t) == cubic(c.a10, c.a11, c.a12, c.a13, t) + 2 * cubic(
        c.a20,
        c.a21,
        c.a22,
        c.a23,
        t,
    ) + 3 * cubic(c.a30, c.a31, c.a32, c.a33, t));
    assert(m0 == dx * d.c10.fx);
    assert(m1 == dx * (dy * d.c10.fxy));
    lemma_scale_comb(dx, d.c10.fx, d.c11.fx, dy * d.c10.fxy, dy * d.c11.fxy, m2, m3);
    lemma_cubic_scale(
        dx,
        d.c10.fx,
        dy * d.c10.fxy,
        -3 * d.c10.fx + 3 * d.c11.fx - 2 * (dy * d.c10.fxy) - (dy * d.c11.fxy),
        2 * d.c10.fx - 2 * d.c11.fx + (dy * d.c10.fxy) + (dy * d.c11.fxy),
        t,
    );
}

/// The y-derivative of a patch along its bottom edge is the rescaled
/// 1D Hermite interpolant of the nodal y-derivatives there.
pub proof fn lemma_edge_y_slope_y0(dx: int, dy: int, d: CellData, t: int)
    ensures
        poly_dy(coeffs(dx, dy, d), t, 0) == dy * hermite_cubic(
            d.c00.fy,
            d.c10.fy,
            dx * d.c00.fxy,
            dx * d.c10.fxy,
            t,
        ),
{
    let c = coeffs(dx, dy, d);
    assert(poly_dy(c, t, 0) == cubic(c.a01, c.a11, c.a21, c.a31, t));
    lemma_scale_comb_flip(
        dx,
        dy,
        d.c00.fy,
        d.c10.fy,
        d.c00.fxy,
        d.c10.fxy,
        c.a11,
        c.a21,
        c.a31,
    );
    lemma_cubic_scale(
        dy,
        d.c00.fy,
        dx * d.c00.fxy,
        -3 * d.c00.fy + 3 * d.c10.fy - 2 * (dx * d.c00.fxy) - (dx * d.c10.fxy),
        2 * d.c00.fy - 2 * d.c10.fy + (dx * d.c00.fxy) + (dx * d.c10.fxy),
        t,
    );
}

/// The y-derivative of a patch along its top edge is the rescaled 1D
/// Hermite interpolant of the nodal y-derivatives there.
pub proof fn lemma_edge_y_slope_y1(dx: int, dy: int, d: CellData, t: int)
    ensures
        poly_dy(coeffs(dx, dy, d), t, 1) == dy * hermite_cubic(
            d.c01.fy,
            d.c11.fy,
            dx * d.c01.fxy,
            dx * d.c11.fxy,
            t,
        ),
{
    let c = coeffs(dx, dy, d);
    let w0 = cubic_slope(c.a00, c.a01, c.a02, c.a03, 1);
    let w1 = cubic_slope(c.a10, c.a11, c.a12, c.a13, 1);
    let w2 = cubic_slope(c.a20, c.a21, c.a22, c.a23, 1);
    let w3 = cubic_slope(c.a30, c.a31, c.a32, c.a33, 1);
    assert(poly_dy(c, t, 1) == cubic(w0, w1, w2, w3, t));
    lemma_scale_comb_flip(
        dx,
        dy,
        d.c01.fy,
        d.c11.fy,
        d.c01.fxy,
        d.c11.fxy,
        w1,
        w2,
        w3,
    );
    lemma_cubic_scale(
        dy,
        d.c01.fy,
        dx * d.c01.fxy,
        -3 * d.c01.fy + 3 * d.c11.fy - 2 * (dx * d.c01.fxy) - (dx * d.c11.fxy),
        2 * d.c01.fy - 2 * d.c11.fy + (dx * d.c01.fxy) + (dx * d.c11.fxy),
        t,
    );
}

/// C0 continuity across a vertical shared edge: two patches built from
/// shared nodal data on the edge between them take the same value at
/// every point of that edge, whatever the two cell widths are.
pub proof fn lemma_value_continuity_x(
    dxl: int,
    dxr: int,
    dy: int,
    left: CellData,
    right: CellData,
    t: int,
)
    requires
        right.c00 == left.c10,
        right.c01 == left.c11,
    ensures
        poly_at(coeffs(dxl, dy, left), 1, t) == poly_at(coeffs(dxr, dy, right), 0, t),
{
    lemma_edge_values_x1(dxl, dy, left, t);
    lemma_edge_values_x0(dxr, dy, right, t);
}

/// C1 continuity across a vertical shared edge: after undoing the
/// per-cell rescaling, the x-derivatives of the two patches agree at
/// every point of the shared edge.  Stated multiplied through by the
/// two cell widths to stay in exact integers.
pub proof fn lemma_slope_continuity_x(
    dxl: int,
    dxr: int,
    dy: int,
    left: CellData,
    right: CellData,
    t: int,
)
    requires
        right.c00 == left.c10,
        right.c01 == left.c11,
    ensures
        dxr * poly_dx(coeffs(dxl, dy, left), 1, t) == dxl * poly_dx(coeffs(dxr, dy, right), 0, t),
{
    lemma_edge_x_slope_x1(dxl, dy, left, t);
    lemma_edge_x_slope_x0(dxr, dy, right, t);
    let e = hermite_cubic(left.c10.fx, left.c11.fx, dy * left.c10.fxy, dy * left.c11.fxy, t);
    assert(dxr * (dxl * e) == dxl * (dxr * e)) by (nonlinear_arith);
}

/// C0 continuity across a horizontal shared edge: two patches built
/// from shared nodal data on the edge between them take the same value
/// at every point of that edge, whatever the two cell heights are.
pub proof fn lemma_value_continuity_y(
    dyb: int,
    dyt: int,
    dx: int,
    bottom: CellData,
    top: CellData,
    t: int,
)
    requires
        top.c00 == bottom.c01,
        top.c10 == bottom.c11,
    ensures
        poly_at(coeffs(dx, dyb, bottom), t, 1) == poly_at(coeffs(dx, dyt, top), t, 0),
{
    lemma_edge_values_y1(dx, dyb, bottom, t);
    lemma_edge_values_y0(dx, dyt, top, t);
}

/// C1 continuity across a horizontal shared edge: after undoing the
/// per-cell rescaling, the y-derivatives of the two patches agree at
/// every point of the shared edge.  Stated multiplied through by the
/// two cell heights to stay in exact integers.
pub proof fn lemma_slope_continuity_y(
    dyb: int,
    dyt: int,
    dx: int,
    bottom: CellData,
    top: CellData,
    t: int,
)
    requires
        top.c00 == bottom.c01,
        top.c10 == bottom.c11,
    ensures
        dyt * poly_dy(coeffs(dx, dyb, bottom), t, 1) == dyb * poly_dy(coeffs(dx, dyt, top), t, 0),
{
    lemma_edge_y_slope_y1(dx, dyb, bottom, t);
    lemma_edge_y_slope_y0(dx, dyt, top, t);
    let e = hermite_cubic(bottom.c01.fy, bottom.c11.fy, dx * bottom.c01.fxy, dx * bottom.c11.fxy, t);
    assert(dyt * (dyb * e) == dyb * (dyt * e)) by (nonlinear_arith);
}

/// Two cubic derivatives added coefficient-wise give the derivative of
/// the summed coefficients.
proof fn lemma_cubic_slope_sum2(
    a0: int,
    a1: int,
    a2: int,
    a3: int,
    b0: int,
    b1: int,
    b2: int,
    b3: int,
    t: int,
)
    by (nonlinear_arith)
    ensures
        cubic_slope(a0, a1, a2, a3, t) + cubic_slope(b0, b1, b2, b3, t) == cubic_slope(
            a0 + b0,
            a1 + b1,
            a2 + b2,
            a3 + b3,
            t,
        ),
{
}

/// The y-derivative of a patch along its left edge is the derivative
/// of that edge's 1D Hermite interpolant.
pub proof fn lemma_edge_tangent_x0(dx: int, dy: int, d: CellData, t: int)
    ensures
        poly_dy(coeffs(dx, dy, d), 0, t) == hermite_cubic_slope(
            d.c00.f,
            d.c01.f,
            dy * d.c00.fy,
            dy * d.c01.fy,
            t,
        ),
{
}

/// The y-derivative of a patch along its right edge is the derivative
/// of that edge's 1D Hermite interpolant.
pub proof fn lemma_edge_tangent_x1(dx: int, dy: int, d: CellData, t: int)
    ensures
        poly_dy(coeffs(dx, dy, d), 1, t) == hermite_cubic_slope(
            d.c10.f,
            d.c11.f,
            dy * d.c10.fy,
            dy * d.c11.fy,
            t,
        ),
{
    let c = coeffs(dx, dy, d);
    lemma_cubic_slope_sum2(c.a00, c.a01, c.a02, c.a03, c.a10, c.a11, c.a12, c.a13, t);
    lemma_cubic_slope_sum2(c.a20, c.a21, c.a22, c.a23, c.a30, c.a31, c.a32, c.a33, t);
    lemma_cubic_slope_sum2(
        c.a00 + c.a10,
        c.a01 + c.a11,
        c.a02 + c.a12,
        c.a03 + c.a13,
        c.a20 + c.a30,
        c.a21 + c.a31,
        c.a22 + c.a32,
        c.a23 + c.a33,
        t,
    );
    assert(poly_dy(c, 1, t) == cubic_slope(c.a00, c.a01, c.a02, c.a03, t) + cubic_slope(
        c.a10,
        c.a11,
        c.a12,
        c.a13,
        t,
    ) + cubic_slope(c.a20, c.a21, c.a22, c.a23, t) + cubic_slope(c.a30, c.a31, c.a32, c.a33, t));
}

/// The x-derivative of a patch along its bottom edge is the derivative
/// of that edge's 1D Hermite interpolant.
pub proof fn lemma_edge_tangent_y0(dx: int, dy: int, d: CellData, t: int)
    ensures
        poly_dx(coeffs(dx, dy, d), t, 0) == hermite_cubic_slope(
            d.c00.f,
            d.c10.f,
            dx * d.c00.fx,
            dx * d.c10.fx,
            t,
        ),
{
    let c = coeffs(dx, dy, d);
    assert(poly_dx(c, t, 0) == cubic_slope(c.a00, c.a10, c.a20, c.a30, t));
}

/// The x-derivative of a patch along its top edge is the derivative of
/// that edge's 1D Hermite interpolant.
pub proof fn lemma_edge_tangent_y1(dx: int, dy: int, d: CellData, t: int)
    ensures
        poly_dx(coeffs(dx, dy, d), t, 1) == hermite_cubic_slope(
            d.c01.f,
            d.c11.f,
            dx * d.c01.fx,
            dx * d.c11.fx,
            t,
        ),
{
    let c = coeffs(dx, dy, d);
    let q0 = cubic(c.a00, c.a01, c.a02, c.a03, 1);
    let q1 = cubic(c.a10, c.a11, c.a12, c.a13, 1);
    let q2 = cubic(c.a20, c.a21, c.a22, c.a23, 1);
    let q3 = cubic(c.a30, c.a31, c.a32, c.a33, 1);
    assert(poly_dx(c, t, 1) == cubic_slope(q0, q1, q2, q3, t));
}

/// Tangential C1 continuity across a vertical shared edge: the
/// y-derivatives of the two patches agree at every point of the edge.
pub proof fn lemma_tangent_continuity_x(
    dxl: int,
    dxr: int,
    dy: int,
    left: CellData,
    right: CellData,
    t: int,
)
    requires
        right.c00 == left.c10,
        right.c01 == left.c11,
    ensures
        poly_dy(coeffs(dxl, dy, left), 1, t) == poly_dy(coeffs(dxr, dy, right), 0, t),
{
    lemma_edge_tangent_x1(dxl, dy, left, t);
    lemma_edge_tangent_x0(dxr, dy, right, t);
}

/// Tangential C1 continuity across a horizontal shared edge: the
/// x-derivatives of the two patches agree at every point of the edge.
pub proof fn lemma_tangent_continuity_y(
    dyb: int,
    dyt: int,
    dx: int,
    bottom: CellData,
    top: CellData,
    t: int,
)
    requires
        top.c00 == bottom.c01,
        top.c10 == bottom.c11,
    ensures
        poly_dx(coeffs(dx, dyb, bottom), t, 1) == poly_dx(coeffs(dx, dyt, top), t, 0),
{
    lemma_edge_tangent_y1(dx, dyb, bottom, t);
    lemma_edge_tangent_y0(dx, dyt, top, t);
}

} // verus!
