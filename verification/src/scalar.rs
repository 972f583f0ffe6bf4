//! Fixed-point numbers: the arithmetic every pipeline stage is built on.
//!
//! A `Scalar` is a signed number with 32 integer and 32 fractional bits. Its
//! `raw` field counts units of 2^-32, so the number it stands for is
//! `raw / 2^32`. All operations saturate at the ends of the range and round
//! toward zero, which keeps them total and symmetric in sign.
use vstd::prelude::*;

verus! {

/// The raw representation of 1.
pub const ONE_RAW: i64 = 0x1_0000_0000;

/// The raw representation of one half.
pub const HALF_RAW: i64 = 0x8000_0000;

/// Brings an integer into the range of `i64`.
pub open spec fn clamp_raw(v: int) -> int {
    if v > i64::MAX {
        i64::MAX as int
    } else if v < i64::MIN {
        i64::MIN as int
    } else {
        v
    }
}

/// The quotient `n / d` rounded toward zero; `d` is not zero.
pub open spec fn trunc_div(n: int, d: int) -> int {
    if d > 0 {
        if n >= 0 {
            n / d
        } else {
            -((-n) / d)
        }
    } else {
        if n >= 0 {
            -(n / (-d))
        } else {
            (-n) / (-d)
        }
    }
}

/// A bound on a product from bounds on its factors.
pub proof fn lemma_mul_bounds(a: int, b: int, x: int, y: int)
    by (nonlinear_arith)
    requires
        -x <= a <= x,
        -y <= b <= y,
    ensures
        -(x * y) <= a * b <= x * y,
{
}

/// A fixed-point number; `raw` counts units of 2^-32.
#[derive(Clone, Copy, Debug, PartialEq, Eq, Structural)]
pub struct Scalar {
    pub raw: i64,
}

impl Scalar {
    /// The number 0.
    pub open spec fn spec_zero() -> Scalar {
        Scalar { raw: 0 }
    }

    /// The number 1.
    pub open spec fn spec_one() -> Scalar {
        Scalar { raw: ONE_RAW }
    }

    /// The number 1/2.
    pub open spec fn spec_half() -> Scalar {
        Scalar { raw: HALF_RAW }
    }

    /// The integer `i`.
    pub open spec fn spec_from_int(i: i32) -> Scalar {
        Scalar { raw: (i * ONE_RAW) as i64 }
    }

    /// The negation, brought into range.
    pub open spec fn spec_sat_neg(self) -> Scalar {
        Scalar { raw: clamp_raw(-self.raw) as i64 }
    }

    /// The sum, brought into range.
    pub open spec fn spec_sat_add(self, o: Scalar) -> Scalar {
        Scalar { raw: clamp_raw(self.raw + o.raw) as i64 }
    }

    /// The difference, brought into range.
    pub open spec fn spec_sat_sub(self, o: Scalar) -> Scalar {
        Scalar { raw: clamp_raw(self.raw - o.raw) as i64 }
    }

    /// The product, rounded toward zero and brought into range.
    #[verifier::opaque]
    pub open spec fn spec_sat_mul(self, o: Scalar) -> Scalar {
        Scalar { raw: clamp_raw(trunc_div(self.raw * o.raw, ONE_RAW as int)) as i64 }
    }

    /// The quotient by a number other than 0, rounded toward zero and
    /// brought into range.
    #[verifier::opaque]
    pub open spec fn spec_sat_div(self, o: Scalar) -> Scalar {
        Scalar { raw: clamp_raw(trunc_div(self.raw * ONE_RAW, o.raw as int)) as i64 }
    }

    /// The number 0.
    #[verifier::when_used_as_spec(spec_zero)]
    pub fn zero() -> (r: Scalar)
        ensures
            r == Scalar::spec_zero(),
    {
        Scalar { raw: 0 }
    }

    /// The number 1.
    #[verifier::when_used_as_spec(spec_one)]
    pub fn one() -> (r: Scalar)
        ensures
            r == Scalar::spec_one(),
    {
        Scalar { raw: ONE_RAW }
    }

    /// The number 1/2.
    #[verifier::when_used_as_spec(spec_half)]
    pub fn half() -> (r: Scalar)
        ensures
            r == Scalar::spec_half(),
    {
        Scalar { raw: HALF_RAW }
    }

    /// The integer `i`, which every `i32` is exactly.
    #[verifier::when_used_as_spec(spec_from_int)]
    pub fn from_int(i: i32) -> (r: Scalar)
        ensures
            r == Scalar::spec_from_int(i),
            r.raw == i * ONE_RAW,
    {
        let wide: i64 = i as i64;
        Scalar { raw: wide * ONE_RAW }
    }

    /// The negation, saturating: only the least number has none.
    #[verifier::when_used_as_spec(spec_sat_neg)]
    pub fn sat_neg(self) -> (r: Scalar)
        ensures
            r == self.spec_sat_neg(),
    {
        if self.raw == i64::MIN {
            Scalar { raw: i64::MAX }
        } else {
            Scalar { raw: -self.raw }
        }
    }

    /// The sum, saturating.
    #[verifier::when_used_as_spec(spec_sat_add)]
    pub fn sat_add(self, o: Scalar) -> (r: Scalar)
        ensures
            r == self.spec_sat_add(o),
    {
        let s: i128 = self.raw as i128 + o.raw as i128;
        Scalar { raw: clamp_to_raw(s) }
    }

    /// The difference, saturating.
    #[verifier::when_used_as_spec(spec_sat_sub)]
    pub fn sat_sub(self, o: Scalar) -> (r: Scalar)
        ensures
            r == self.spec_sat_sub(o),
    {
        let s: i128 = self.raw as i128 - o.raw as i128;
        Scalar { raw: clamp_to_raw(s) }
    }

    /// The product, rounded toward zero and saturating.
    #[verifier::when_used_as_spec(spec_sat_mul)]
    pub fn sat_mul(self, o: Scalar) -> (r: Scalar)
        ensures
            r == self.spec_sat_mul(o),
    {
        proof {
            reveal(Scalar::spec_sat_mul);
            lemma_mul_bounds(
                self.raw as int,
                o.raw as int,
                0x8000_0000_0000_0000,
                0x8000_0000_0000_0000,
            );
            assert(0x8000_0000_0000_0000int * 0x8000_0000_0000_0000int
                == 0x4000_0000_0000_0000_0000_0000_0000_0000int) by (nonlinear_arith);
        }
        let p: i128 = (self.raw as i128) * (o.raw as i128);
        let q: i128 = p / (ONE_RAW as i128);
        Scalar { raw: clamp_to_raw(q) }
    }

    /// The quotient, rounded toward zero and saturating. The divisor is not
    /// zero.
    #[verifier::when_used_as_spec(spec_sat_div)]
    pub fn sat_div(self, o: Scalar) -> (r: Scalar)
        requires
            o.raw != 0,
        ensures
            r == self.spec_sat_div(o),
    {
        proof {
            reveal(Scalar::spec_sat_div);
        }
        let n: i128 = (self.raw as i128) * (ONE_RAW as i128);
        let d: i128 = o.raw as i128;
        let q: i128 = if d > 0 {
            n / d
        } else {
            -(n / (-d))
        };
        Scalar { raw: clamp_to_raw(q) }
    }

    /// Whether this number is less than `o`.
    pub fn lt(self, o: Scalar) -> (r: bool)
        ensures
            r == (self.raw < o.raw),
    {
        self.raw < o.raw
    }
}

/// Brings a wide integer into the range of `i64`.
pub fn clamp_to_raw(v: i128) -> (r: i64)
    ensures
        r == clamp_raw(v as int),
{
    if v > i64::MAX as i128 {
        i64::MAX
    } else if v < i64::MIN as i128 {
        i64::MIN
    } else {
        v as i64
    }
}

} // verus!
