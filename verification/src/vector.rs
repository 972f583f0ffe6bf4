//! Three- and four-component vectors of fixed-point numbers.
use vstd::prelude::*;
use crate::scalar::Scalar;

verus! {

/// A direction or a position in space.
#[derive(Clone, Copy, Debug, PartialEq, Eq, Structural)]
pub struct Vec3 {
    pub x: Scalar,
    pub y: Scalar,
    pub z: Scalar,
}

/// A homogeneous position.
#[derive(Clone, Copy, Debug, PartialEq, Eq, Structural)]
pub struct Vec4 {
    pub x: Scalar,
    pub y: Scalar,
    pub z: Scalar,
    pub w: Scalar,
}

impl Vec3 {
    /// The vector with the given components.
    pub open spec fn spec_new(x: Scalar, y: Scalar, z: Scalar) -> Vec3 {
        Vec3 { x, y, z }
    }

    /// The vector whose components are all 0.
    pub open spec fn spec_zero() -> Vec3 {
        Vec3 { x: Scalar::zero(), y: Scalar::zero(), z: Scalar::zero() }
    }

    /// The vector with the given components.
    #[verifier::when_used_as_spec(spec_new)]
    pub fn new(x: Scalar, y: Scalar, z: Scalar) -> (r: Vec3)
        ensures
            r == Vec3::spec_new(x, y, z),
    {
        Vec3 { x, y, z }
    }

    /// The vector whose components are all 0.
    #[verifier::when_used_as_spec(spec_zero)]
    pub fn zero() -> (r: Vec3)
        ensures
            r == Vec3::spec_zero(),
    {
        Vec3 { x: Scalar::zero(), y: Scalar::zero(), z: Scalar::zero() }
    }
}

impl Vec4 {
    /// The vector with the given components.
    pub open spec fn spec_new(x: Scalar, y: Scalar, z: Scalar, w: Scalar) -> Vec4 {
        Vec4 { x, y, z, w }
    }

    /// Every component multiplied by `k`.
    pub open spec fn spec_scale(self, k: Scalar) -> Vec4 {
        Vec4 {
            x: self.x.sat_mul(k),
            y: self.y.sat_mul(k),
            z: self.z.sat_mul(k),
            w: self.w.sat_mul(k),
        }
    }

    /// The sum, component by component.
    pub open spec fn spec_plus(self, o: Vec4) -> Vec4 {
        Vec4 {
            x: self.x.sat_add(o.x),
            y: self.y.sat_add(o.y),
            z: self.z.sat_add(o.z),
            w: self.w.sat_add(o.w),
        }
    }

    /// The vector with the given components.
    #[verifier::when_used_as_spec(spec_new)]
    pub fn new(x: Scalar, y: Scalar, z: Scalar, w: Scalar) -> (r: Vec4)
        ensures
            r == Vec4::spec_new(x, y, z, w),
    {
        Vec4 { x, y, z, w }
    }

    /// Every component multiplied by `k`.
    #[verifier::when_used_as_spec(spec_scale)]
    pub fn scale(self, k: Scalar) -> (r: Vec4)
        ensures
            r == self.spec_scale(k),
    {
        Vec4 {
            x: self.x.sat_mul(k),
            y: self.y.sat_mul(k),
            z: self.z.sat_mul(k),
            w: self.w.sat_mul(k),
        }
    }

    /// The sum, component by component.
    #[verifier::when_used_as_spec(spec_plus)]
    pub fn plus(self, o: Vec4) -> (r: Vec4)
        ensures
            r == self.spec_plus(o),
    {
        Vec4 {
            x: self.x.sat_add(o.x),
            y: self.y.sat_add(o.y),
            z: self.z.sat_add(o.z),
            w: self.w.sat_add(o.w),
        }
    }
}

} // verus!
