//! Reading binary floating-point numbers from their bits. A number in the
//! single or the double format of IEEE 754 is taken apart into sign,
//! exponent and fraction, and the fixed-point number nearest to it in the
//! direction of zero is put together from them.
use vstd::prelude::*;
use vstd::arithmetic::div_mod::lemma_basic_div;
use vstd::arithmetic::power2::{
    lemma2_to64, lemma2_to64_rest, lemma_pow2_pos, lemma_pow2_strictly_increases,
    lemma_pow2_unfold, pow2,
};
use crate::scalar::{clamp_raw, clamp_to_raw, lemma_mul_bounds, Scalar};

verus! {

/// The number `mantissa * 2^exponent`, counted in units of 2^-32, rounded
/// toward zero, negated where `negative`, and brought into range.
pub open spec fn from_parts(negative: bool, mantissa: nat, exponent: int) -> Scalar {
    let magnitude: int = if exponent >= 0 {
        (mantissa * pow2(exponent as nat)) as int
    } else {
        (mantissa / pow2((-exponent) as nat)) as int
    };
    Scalar {
        raw: clamp_raw(
            if negative {
                -magnitude
            } else {
                magnitude
            },
        ) as i64,
    }
}

/// The end of the range on the side that `negative` names.
pub open spec fn saturated(negative: bool) -> Scalar {
    if negative {
        Scalar { raw: i64::MIN }
    } else {
        Scalar { raw: i64::MAX }
    }
}

/// 2 to the power `k`.
fn power_of_two(k: u32) -> (p: u64)
    requires
        k <= 63,
    ensures
        p == pow2(k as nat),
        p >= 1,
{
    let mut p: u64 = 1;
    let mut i: u32 = 0;
    proof {
        lemma2_to64();
    }
    while i < k
        invariant
            i <= k <= 63,
            p == pow2(i as nat),
            p >= 1,
        decreases k - i,
    {
        proof {
            lemma_pow2_unfold((i + 1) as nat);
            lemma2_to64_rest();
            if i + 1 < 63 {
                lemma_pow2_strictly_increases((i + 1) as nat, 63);
            }
        }
        p = p * 2;
        i = i + 1;
    }
    p
}

/// The fixed-point number that `from_parts` describes.
fn assemble(negative: bool, mantissa: u64, exponent: i32) -> (r: Scalar)
    requires
        -4096 <= exponent <= 4096,
    ensures
        r == from_parts(negative, mantissa as nat, exponent as int),
{
    if mantissa == 0 {
        proof {
            lemma_pow2_pos((-exponent) as nat);
            assert(0nat * pow2(exponent as nat) == 0) by (nonlinear_arith);
            if exponent < 0 {
                lemma_basic_div(0, pow2((-exponent) as nat) as int);
            }
        }
        return Scalar { raw: 0 };
    }
    if exponent >= 0 {
        if exponent >= 63 {
            proof {
                lemma2_to64_rest();
                if exponent > 63 {
                    lemma_pow2_strictly_increases(63, exponent as nat);
                }
                assert(mantissa * pow2(exponent as nat) >= 0x8000_0000_0000_0000)
                    by (nonlinear_arith)
                    requires
                        mantissa >= 1,
                        pow2(exponent as nat) >= 0x8000_0000_0000_0000,
                ;
            }
            if negative {
                Scalar { raw: i64::MIN }
            } else {
                Scalar { raw: i64::MAX }
            }
        } else {
            let p: u64 = power_of_two(exponent as u32);
            proof {
                lemma2_to64_rest();
                lemma_pow2_strictly_increases(exponent as nat, 63);
                lemma_mul_bounds(
                    mantissa as int,
                    p as int,
                    0x1_0000_0000_0000_0000,
                    0x8000_0000_0000_0000,
                );
                assert(0x1_0000_0000_0000_0000int * 0x8000_0000_0000_0000int
                    == 0x8000_0000_0000_0000_0000_0000_0000_0000int) by (nonlinear_arith);
                assert(mantissa * p >= 0) by (nonlinear_arith)
                    requires
                        mantissa >= 0,
                        p >= 0,
                ;
            }
            let magnitude: u128 = (mantissa as u128) * (p as u128);
            if negative {
                if magnitude > 0x8000_0000_0000_0000 {
                    Scalar { raw: i64::MIN }
                } else {
                    Scalar { raw: clamp_to_raw(-(magnitude as i128)) }
                }
            } else {
                if magnitude > 0x7fff_ffff_ffff_ffff {
                    Scalar { raw: i64::MAX }
                } else {
                    Scalar { raw: magnitude as i64 }
                }
            }
        }
    } else {
        let k: u32 = (-exponent) as u32;
        if k >= 64 {
            proof {
                lemma2_to64();
                if k > 64 {
                    lemma_pow2_strictly_increases(64, k as nat);
                }
                lemma_basic_div(mantissa as int, pow2(k as nat) as int);
            }
            Scalar { raw: 0 }
        } else {
            let p: u64 = power_of_two(k);
            let magnitude: u64 = mantissa / p;
            if negative {
                Scalar { raw: clamp_to_raw(-(magnitude as i128)) }
            } else {
                Scalar { raw: clamp_to_raw(magnitude as i128) }
            }
        }
    }
}

impl Scalar {
    /// The fixed-point number for the single-precision number with the given
    /// bits: the number itself, rounded toward zero to a multiple of 2^-32
    /// and brought into range. An infinity becomes the end of the range on
    /// its side; a number too small to be normal becomes 0, and so does what
    /// is not a number.
    pub open spec fn spec_from_single_bits(bits: u32) -> Scalar {
        let negative = bits >= 0x8000_0000;
        let exponent = (bits / 0x80_0000) % 0x100;
        let fraction = bits % 0x80_0000;
        if exponent == 0xff {
            if fraction == 0 {
                saturated(negative)
            } else {
                Scalar::zero()
            }
        } else if exponent == 0 {
            Scalar::zero()
        } else {
            from_parts(negative, (fraction + 0x80_0000) as nat, exponent - 118)
        }
    }

    /// The fixed-point number for the double-precision number with the given
    /// bits, by the same rules.
    pub open spec fn spec_from_double_bits(bits: u64) -> Scalar {
        let negative = bits >= 0x8000_0000_0000_0000;
        let exponent = (bits / 0x10_0000_0000_0000) % 0x800;
        let fraction = bits % 0x10_0000_0000_0000;
        if exponent == 0x7ff {
            if fraction == 0 {
                saturated(negative)
            } else {
                Scalar::zero()
            }
        } else if exponent == 0 {
            Scalar::zero()
        } else {
            from_parts(negative, (fraction + 0x10_0000_0000_0000) as nat, exponent - 1043)
        }
    }

    /// The fixed-point number for the single-precision number with the given
    /// bits.
    #[verifier::when_used_as_spec(spec_from_single_bits)]
    pub fn from_single_bits(bits: u32) -> (r: Scalar)
        ensures
            r == Scalar::spec_from_single_bits(bits),
    {
        let negative: bool = bits >= 0x8000_0000;
        let exponent: u32 = (bits / 0x80_0000) % 0x100;
        let fraction: u32 = bits % 0x80_0000;
        if exponent == 0xff {
            if fraction == 0 {
                if negative {
                    Scalar { raw: i64::MIN }
                } else {
                    Scalar { raw: i64::MAX }
                }
            } else {
                Scalar::zero()
            }
        } else if exponent == 0 {
            Scalar::zero()
        } else {
            let mantissa: u64 = (fraction + 0x80_0000) as u64;
            assemble(negative, mantissa, exponent as i32 - 118)
        }
    }

    /// The fixed-point number for the double-precision number with the given
    /// bits.
    #[verifier::when_used_as_spec(spec_from_double_bits)]
    pub fn from_double_bits(bits: u64) -> (r: Scalar)
        ensures
            r == Scalar::spec_from_double_bits(bits),
    {
        let negative: bool = bits >= 0x8000_0000_0000_0000;
        let exponent: u64 = (bits / 0x10_0000_0000_0000) % 0x800;
        let fraction: u64 = bits % 0x10_0000_0000_0000;
        if exponent == 0x7ff {
            if fraction == 0 {
                if negative {
                    Scalar { raw: i64::MIN }
                } else {
                    Scalar { raw: i64::MAX }
                }
            } else {
                Scalar::zero()
            }
        } else if exponent == 0 {
            Scalar::zero()
        } else {
            let mantissa: u64 = fraction + 0x10_0000_0000_0000;
            assemble(negative, mantissa, exponent as i32 - 1043)
        }
    }
}

} // verus!
