//! How close the orthographic projection comes to what it stands for: the
//! corners of its box land on the corners of the cube from -1 to 1, up to
//! the rounding of its entries.
use vstd::prelude::*;
use crate::matrix::Matrix;
use crate::scalar::{lemma_mul_bounds, trunc_div, Scalar, ONE_RAW};
use crate::vector::Vec4;

verus! {

/// The magnitude of an integer.
pub open spec fn magnitude(v: int) -> int {
    if v >= 0 {
        v
    } else {
        -v
    }
}

/// A quotient rounded toward zero, multiplied back, misses the dividend by
/// less than the divisor.
pub proof fn lemma_trunc_div_remainder(n: int, d: int)
    requires
        d != 0,
    ensures
        -magnitude(d) < n - trunc_div(n, d) * d < magnitude(d),
{
    if d > 0 {
        if n >= 0 {
            assert(0 <= n - (n / d) * d < d) by (nonlinear_arith)
                requires
                    d > 0,
                    n >= 0,
            ;
        } else {
            let m = -n;
            assert(0 <= m - (m / d) * d < d) by (nonlinear_arith)
                requires
                    d > 0,
                    m >= 0,
            ;
            assert((-(m / d)) * d == -((m / d) * d)) by (nonlinear_arith);
        }
    } else {
        let e = -d;
        if n >= 0 {
            assert(0 <= n - (n / e) * e < e) by (nonlinear_arith)
                requires
                    e > 0,
                    n >= 0,
            ;
            assert((-(n / e)) * d == (n / e) * e) by (nonlinear_arith)
                requires
                    e == -d,
            ;
        } else {
            let m = -n;
            assert(0 <= m - (m / e) * e < e) by (nonlinear_arith)
                requires
                    e > 0,
                    m >= 0,
            ;
            assert((m / e) * d == -((m / e) * e)) by (nonlinear_arith)
                requires
                    e == -d,
            ;
        }
    }
}

/// What is less than a bound after multiplication by a number other than
/// zero was less than it before.
proof fn lemma_cancel_factor(y: int, d: int, b: int)
    by (nonlinear_arith)
    requires
        d != 0,
        b >= 0,
        d > 0 ==> -(b * d) < y * d < b * d,
        d < 0 ==> -(b * (-d)) < y * d < b * (-d),
    ensures
        -b < y < b,
{
}

/// The arithmetic of one axis of the projection. `sx` is the factor
/// `2 / (hi - lo)` and `q` the quotient `(hi + lo) / (hi - lo)`, both in
/// units of 2^-32 and rounded toward zero; `p` is the rounded product of the
/// factor and `x`. For `x` an end of the stretch, `p - q` misses 1 at the
/// upper end, and -1 at the lower, by no more than the magnitude of `x` in
/// whole units, and 2.
pub proof fn lemma_axis_error(lo: int, hi: int, x: int, sign: int, sx: int, p: int, q: int)
    requires
        hi != lo,
        sign == 1 || sign == -1,
        2 * x - (hi + lo) == sign * (hi - lo),
        sx == trunc_div(2 * ONE_RAW * ONE_RAW, hi - lo),
        p == trunc_div(sx * x, ONE_RAW as int),
        q == trunc_div((hi + lo) * ONE_RAW, hi - lo),
    ensures
        magnitude(p - q - sign * ONE_RAW) <= magnitude(x) / (ONE_RAW as int) + 2,
{
    let d = hi - lo;
    let sum = hi + lo;
    let big = magnitude(d);
    let mx = magnitude(x);
    lemma_trunc_div_remainder(0x2_0000_0000_0000_0000, d);
    lemma_trunc_div_remainder(sx * x, 0x1_0000_0000);
    lemma_trunc_div_remainder(sum * 0x1_0000_0000, d);
    let r1 = 0x2_0000_0000_0000_0000 - sx * d;
    let r2 = sx * x - p * 0x1_0000_0000;
    let r3 = sum * 0x1_0000_0000 - q * d;
    let e = p - q - sign * 0x1_0000_0000;
    let pd = p * d;
    let qd = q * d;
    let ed = e * d;
    let sd = sign * d;
    // p * d, multiplied by 2^32
    assert((sx * x) * d == (sx * d) * x) by (nonlinear_arith);
    assert((p * 0x1_0000_0000) * d == 0x1_0000_0000 * pd) by (nonlinear_arith)
        requires
            pd == p * d,
    ;
    assert((sx * x - r2) * d == (sx * x) * d - r2 * d) by (nonlinear_arith);
    assert((0x2_0000_0000_0000_0000 - r1) * x == 0x2_0000_0000_0000_0000 * x - r1 * x)
        by (nonlinear_arith);
    assert(0x1_0000_0000 * pd == 0x2_0000_0000_0000_0000 * x - r1 * x - r2 * d);
    assert(ed == pd - qd - 0x1_0000_0000 * sd) by (nonlinear_arith)
        requires
            ed == e * d,
            pd == p * d,
            qd == q * d,
            sd == sign * d,
            e == p - q - sign * 0x1_0000_0000,
    ;
    let y = e * 0x1_0000_0000;
    assert(y * d == 0x1_0000_0000 * ed) by (nonlinear_arith)
        requires
            y == e * 0x1_0000_0000,
            ed == e * d,
    ;
    assert(y * d == -(r1 * x) - r2 * d + 0x1_0000_0000 * r3);
    lemma_mul_bounds(r1, x, big - 1, mx);
    lemma_mul_bounds(r2, d, 0xffff_ffff, big);
    assert((big - 1) * mx == big * mx - mx) by (nonlinear_arith);
    let b = mx + 0x2_0000_0000;
    assert(b * big == big * mx + 0x2_0000_0000 * big) by (nonlinear_arith)
        requires
            b == mx + 0x2_0000_0000,
    ;
    assert(-(b * big) < y * d < b * big);
    lemma_cancel_factor(y, d, b);
}

/// What the projection makes of the coordinate `x` along an axis whose
/// visible stretch runs from `lo` to `hi`: `x` times the axis' factor, plus
/// the axis' offset.
pub open spec fn ortho_axis(lo: Scalar, hi: Scalar, x: Scalar) -> Scalar {
    Matrix::ortho_scale(lo, hi).sat_mul(x).sat_add(Matrix::ortho_offset(lo, hi))
}

/// Whether an axis of the projection is computed without saturating: its
/// stretch is not empty, its ends are of magnitude at most 2^29, and its
/// factor and its offset are of magnitude at most 2^30.
pub open spec fn axis_in_range(lo: Scalar, hi: Scalar) -> bool {
    &&& lo.raw != hi.raw
    &&& -0x2000_0000_0000_0000 <= lo.raw <= 0x2000_0000_0000_0000
    &&& -0x2000_0000_0000_0000 <= hi.raw <= 0x2000_0000_0000_0000
    &&& -0x4000_0000_0000_0000 <= Matrix::ortho_scale(lo, hi).raw <= 0x4000_0000_0000_0000
    &&& -0x4000_0000_0000_0000 <= Matrix::ortho_offset(lo, hi).raw <= 0x4000_0000_0000_0000
}

/// Whether `v` is 1, where `positive`, or -1, up to an error of the
/// magnitude of `coordinate` in whole units, and 2, counted in units of
/// 2^-32.
pub open spec fn near_unit(v: Scalar, positive: bool, coordinate: Scalar) -> bool {
    magnitude(
        v.raw - if positive {
            ONE_RAW as int
        } else {
            -ONE_RAW
        },
    ) <= magnitude(coordinate.raw as int) / (ONE_RAW as int) + 2
}

/// The projection takes the upper end of an axis near 1 and the lower end
/// near -1.
pub proof fn lemma_axis_ends(lo: Scalar, hi: Scalar)
    requires
        axis_in_range(lo, hi),
    ensures
        near_unit(ortho_axis(lo, hi, hi), true, hi),
        near_unit(ortho_axis(lo, hi, lo), false, lo),
{
    reveal(Scalar::spec_sat_div);
    reveal(Scalar::spec_sat_mul);
    let d = hi.raw - lo.raw;
    let sx = trunc_div(0x2_0000_0000 * ONE_RAW, d);
    let q = trunc_div((hi.raw + lo.raw) * ONE_RAW, d);
    assert(Scalar::from_int(2).raw == 0x2_0000_0000);
    assert(hi.sat_sub(lo).raw == d);
    assert(hi.sat_add(lo).raw == hi.raw + lo.raw);
    assert(Matrix::ortho_scale(lo, hi).raw == sx);
    assert(Matrix::ortho_offset(lo, hi).raw == -q);
    assert(0x2_0000_0000 * ONE_RAW == 2 * ONE_RAW * ONE_RAW);
    lemma_axis_error(
        lo.raw as int,
        hi.raw as int,
        hi.raw as int,
        1,
        sx,
        trunc_div(sx * hi.raw, ONE_RAW as int),
        q,
    );
    lemma_axis_error(
        lo.raw as int,
        hi.raw as int,
        lo.raw as int,
        -1,
        sx,
        trunc_div(sx * lo.raw, ONE_RAW as int),
        q,
    );
}

/// The product with 0 is 0, with 1 the number itself, and negating one
/// factor is negating the other.
pub proof fn lemma_products(a: Scalar, b: Scalar)
    ensures
        Scalar::zero().sat_mul(a) == Scalar::zero(),
        a.sat_mul(Scalar::one()) == a,
        a.raw != i64::MIN && b.raw != i64::MIN ==> a.sat_neg().sat_mul(b) == a.sat_mul(
            b.sat_neg(),
        ),
{
    reveal(Scalar::spec_sat_mul);
    assert(0 * a.raw == 0) by (nonlinear_arith);
    assert(a.raw * ONE_RAW == 0x1_0000_0000 * a.raw) by (nonlinear_arith);
    assert((-a.raw) * b.raw == a.raw * (-b.raw)) by (nonlinear_arith);
}

/// The projection works on each axis by itself: it takes the point
/// `(x, y, z)` to what `ortho_axis` makes of `x`, of `y` and of `-z`.
pub proof fn lemma_ortho_transform(
    l: Scalar,
    r: Scalar,
    b: Scalar,
    t: Scalar,
    n: Scalar,
    f: Scalar,
    x: Scalar,
    y: Scalar,
    z: Scalar,
)
    requires
        z.raw != i64::MIN,
        Matrix::ortho_scale(n, f).raw != i64::MIN,
    ensures
        Matrix::spec_ortho(l, r, b, t, n, f).transform(Vec4::new(x, y, z, Scalar::one()))
            == Vec4::new(
            ortho_axis(l, r, x),
            ortho_axis(b, t, y),
            ortho_axis(n, f, z.sat_neg()),
            Scalar::one(),
        ),
{
    reveal(Matrix::spec_transform);
    lemma_products(x, x);
    lemma_products(y, y);
    lemma_products(z, z);
    lemma_products(Scalar::one(), Scalar::one());
    lemma_products(Matrix::ortho_offset(l, r), x);
    lemma_products(Matrix::ortho_offset(b, t), x);
    lemma_products(Matrix::ortho_offset(n, f), x);
    lemma_products(Matrix::ortho_scale(n, f), z);
}

/// The orthographic projection of a box takes the eight corners of the box
/// to the corners of the cube from -1 to 1: the left, the bottom and the
/// near side to -1, the right, the top and the far side to 1. Each
/// coordinate of the image misses its mark by no more than the magnitude
/// of the corner's coordinate in whole units, and 2, counted in units of
/// 2^-32; the fourth coordinate is 1. The near and the far side lie at
/// `-near` and `-far` along z.
pub proof fn law_ortho_maps_box_to_cube(
    left: Scalar,
    right: Scalar,
    bottom: Scalar,
    top: Scalar,
    near: Scalar,
    far: Scalar,
    at_right: bool,
    at_top: bool,
    at_far: bool,
)
    requires
        axis_in_range(left, right),
        axis_in_range(bottom, top),
        axis_in_range(near, far),
    ensures
        ({
            let x = if at_right {
                right
            } else {
                left
            };
            let y = if at_top {
                top
            } else {
                bottom
            };
            let z = if at_far {
                far.sat_neg()
            } else {
                near.sat_neg()
            };
            let image = Matrix::spec_ortho(left, right, bottom, top, near, far).transform(
                Vec4::new(x, y, z, Scalar::one()),
            );
            &&& near_unit(image.x, at_right, x)
            &&& near_unit(image.y, at_top, y)
            &&& near_unit(image.z, at_far, z)
            &&& image.w == Scalar::one()
        }),
{
    let x = if at_right {
        right
    } else {
        left
    };
    let y = if at_top {
        top
    } else {
        bottom
    };
    let z = if at_far {
        far.sat_neg()
    } else {
        near.sat_neg()
    };
    lemma_axis_ends(left, right);
    lemma_axis_ends(bottom, top);
    lemma_axis_ends(near, far);
    lemma_ortho_transform(left, right, bottom, top, near, far, x, y, z);
}

} // verus!
