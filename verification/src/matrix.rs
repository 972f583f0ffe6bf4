//! 4x4 matrices, held by columns.
use vstd::prelude::*;
use crate::scalar::Scalar;
use crate::vector::Vec4;

verus! {

/// A 4x4 matrix. `c0` to `c3` are its columns, so the entry in row `y` of
/// column `c1` is `c1.y`.
#[derive(Clone, Copy, Debug, PartialEq, Eq, Structural)]
pub struct Matrix {
    pub c0: Vec4,
    pub c1: Vec4,
    pub c2: Vec4,
    pub c3: Vec4,
}

impl Matrix {
    /// The matrix that changes no vector.
    pub open spec fn spec_identity() -> Matrix {
        Matrix {
            c0: Vec4::new(Scalar::one(), Scalar::zero(), Scalar::zero(), Scalar::zero()),
            c1: Vec4::new(Scalar::zero(), Scalar::one(), Scalar::zero(), Scalar::zero()),
            c2: Vec4::new(Scalar::zero(), Scalar::zero(), Scalar::one(), Scalar::zero()),
            c3: Vec4::new(Scalar::zero(), Scalar::zero(), Scalar::zero(), Scalar::one()),
        }
    }

    /// The matrix whose sixteen entries are `m`, column after column.
    pub open spec fn spec_from_columns(m: &[Scalar; 16]) -> Matrix {
        Matrix {
            c0: Vec4::new(m[0], m[1], m[2], m[3]),
            c1: Vec4::new(m[4], m[5], m[6], m[7]),
            c2: Vec4::new(m[8], m[9], m[10], m[11]),
            c3: Vec4::new(m[12], m[13], m[14], m[15]),
        }
    }

    /// The matrix that moves every point by `(x, y, z)`.
    pub open spec fn spec_translation(x: Scalar, y: Scalar, z: Scalar) -> Matrix {
        Matrix { c3: Vec4::new(x, y, z, Scalar::one()), ..Matrix::identity() }
    }

    /// The product of this matrix and the column vector `v`: the columns
    /// weighted by the components of `v`, summed from the left.
    #[verifier::opaque]
    pub open spec fn spec_transform(self, v: Vec4) -> Vec4 {
        self.c0.scale(v.x).plus(self.c1.scale(v.y)).plus(self.c2.scale(v.z)).plus(
            self.c3.scale(v.w),
        )
    }

    /// The product `self * o`: column by column, this matrix applied to the
    /// columns of `o`.
    #[verifier::opaque]
    pub open spec fn spec_times(self, o: Matrix) -> Matrix {
        Matrix {
            c0: self.transform(o.c0),
            c1: self.transform(o.c1),
            c2: self.transform(o.c2),
            c3: self.transform(o.c3),
        }
    }

    /// Whether an orthographic projection onto the box exists: no side of the
    /// box is empty.
    pub open spec fn ortho_defined(
        left: Scalar,
        right: Scalar,
        bottom: Scalar,
        top: Scalar,
        near: Scalar,
        far: Scalar,
    ) -> bool {
        right.raw != left.raw && top.raw != bottom.raw && far.raw != near.raw
    }

    /// The factor by which the orthographic projection stretches an axis whose
    /// visible stretch runs from `lo` to `hi`: `2 / (hi - lo)`.
    pub open spec fn ortho_scale(lo: Scalar, hi: Scalar) -> Scalar {
        Scalar::from_int(2).sat_div(hi.sat_sub(lo))
    }

    /// The offset that the orthographic projection gives an axis whose visible
    /// stretch runs from `lo` to `hi`: `-(hi + lo) / (hi - lo)`.
    pub open spec fn ortho_offset(lo: Scalar, hi: Scalar) -> Scalar {
        hi.sat_add(lo).sat_div(hi.sat_sub(lo)).sat_neg()
    }

    /// The orthographic projection of a box without an empty side: each
    /// axis is stretched by its factor and moved by its offset, and z is
    /// turned round, so that the near side lands on -1 and the far side on 1.
    pub open spec fn spec_ortho(
        left: Scalar,
        right: Scalar,
        bottom: Scalar,
        top: Scalar,
        near: Scalar,
        far: Scalar,
    ) -> Matrix {
        Matrix {
            c0: Vec4::new(
                Matrix::ortho_scale(left, right),
                Scalar::zero(),
                Scalar::zero(),
                Scalar::zero(),
            ),
            c1: Vec4::new(
                Scalar::zero(),
                Matrix::ortho_scale(bottom, top),
                Scalar::zero(),
                Scalar::zero(),
            ),
            c2: Vec4::new(
                Scalar::zero(),
                Scalar::zero(),
                Matrix::ortho_scale(near, far).sat_neg(),
                Scalar::zero(),
            ),
            c3: Vec4::new(
                Matrix::ortho_offset(left, right),
                Matrix::ortho_offset(bottom, top),
                Matrix::ortho_offset(near, far),
                Scalar::one(),
            ),
        }
    }

    /// The matrix that changes no vector.
    #[verifier::when_used_as_spec(spec_identity)]
    pub fn identity() -> (r: Matrix)
        ensures
            r == Matrix::spec_identity(),
    {
        Matrix {
            c0: Vec4::new(Scalar::one(), Scalar::zero(), Scalar::zero(), Scalar::zero()),
            c1: Vec4::new(Scalar::zero(), Scalar::one(), Scalar::zero(), Scalar::zero()),
            c2: Vec4::new(Scalar::zero(), Scalar::zero(), Scalar::one(), Scalar::zero()),
            c3: Vec4::new(Scalar::zero(), Scalar::zero(), Scalar::zero(), Scalar::one()),
        }
    }

    /// The matrix whose sixteen entries are `m`, column after column.
    #[verifier::when_used_as_spec(spec_from_columns)]
    pub fn from_columns(m: &[Scalar; 16]) -> (r: Matrix)
        ensures
            r == Matrix::spec_from_columns(m),
    {
        Matrix {
            c0: Vec4::new(m[0], m[1], m[2], m[3]),
            c1: Vec4::new(m[4], m[5], m[6], m[7]),
            c2: Vec4::new(m[8], m[9], m[10], m[11]),
            c3: Vec4::new(m[12], m[13], m[14], m[15]),
        }
    }

    /// The matrix that moves every point by `(x, y, z)`.
    #[verifier::when_used_as_spec(spec_translation)]
    pub fn translation(x: Scalar, y: Scalar, z: Scalar) -> (r: Matrix)
        ensures
            r == Matrix::spec_translation(x, y, z),
    {
        let i = Matrix::identity();
        Matrix { c0: i.c0, c1: i.c1, c2: i.c2, c3: Vec4::new(x, y, z, Scalar::one()) }
    }

    /// The orthographic projection that takes the box from `left` to `right`,
    /// `bottom` to `top` and, looking down the negative z axis, `near` to
    /// `far`, onto the cube from -1 to 1. None where a side of the box is
    /// empty.
    pub fn ortho(
        left: Scalar,
        right: Scalar,
        bottom: Scalar,
        top: Scalar,
        near: Scalar,
        far: Scalar,
    ) -> (r: Option<Matrix>)
        ensures
            r == if Matrix::ortho_defined(left, right, bottom, top, near, far) {
                Some(Matrix::spec_ortho(left, right, bottom, top, near, far))
            } else {
                None
            },
    {
        if right.raw == left.raw || top.raw == bottom.raw || far.raw == near.raw {
            return None;
        }
        let two = Scalar::from_int(2);
        let zero = Scalar::zero();
        let width = right.sat_sub(left);
        let height = top.sat_sub(bottom);
        let depth = far.sat_sub(near);
        Some(
            Matrix {
                c0: Vec4::new(two.sat_div(width), zero, zero, zero),
                c1: Vec4::new(zero, two.sat_div(height), zero, zero),
                c2: Vec4::new(zero, zero, two.sat_div(depth).sat_neg(), zero),
                c3: Vec4::new(
                    right.sat_add(left).sat_div(width).sat_neg(),
                    top.sat_add(bottom).sat_div(height).sat_neg(),
                    far.sat_add(near).sat_div(depth).sat_neg(),
                    Scalar::one(),
                ),
            },
        )
    }

    /// The product of this matrix and the column vector `v`.
    #[verifier::when_used_as_spec(spec_transform)]
    pub fn transform(self, v: Vec4) -> (r: Vec4)
        ensures
            r == self.spec_transform(v),
    {
        proof {
            reveal(Matrix::spec_transform);
        }
        self.c0.scale(v.x).plus(self.c1.scale(v.y)).plus(self.c2.scale(v.z)).plus(
            self.c3.scale(v.w),
        )
    }

    /// The product `self * o`.
    #[verifier::when_used_as_spec(spec_times)]
    pub fn times(self, o: Matrix) -> (r: Matrix)
        ensures
            r == self.spec_times(o),
    {
        proof {
            reveal(Matrix::spec_times);
        }
        Matrix {
            c0: self.transform(o.c0),
            c1: self.transform(o.c1),
            c2: self.transform(o.c2),
            c3: self.transform(o.c3),
        }
    }
}

} // verus!
