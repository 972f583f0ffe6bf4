use gloat::scalar::{Scalar, HALF_RAW, ONE_RAW};

fn num(x: f32) -> Scalar {
    Scalar::from_single_bits(x.to_bits())
}

fn wide(x: f64) -> Scalar {
    Scalar::from_double_bits(x.to_bits())
}

#[test]
fn constants_have_their_raw_values() {
    assert_eq!(Scalar::zero().raw, 0);
    assert_eq!(Scalar::one().raw, 1i64 << 32);
    assert_eq!(Scalar::half().raw, 1i64 << 31);
    assert_eq!(ONE_RAW, 0x1_0000_0000);
    assert_eq!(HALF_RAW, 0x8000_0000);
}

#[test]
fn integers_are_exact() {
    assert_eq!(Scalar::from_int(0).raw, 0);
    assert_eq!(Scalar::from_int(3).raw, 3i64 << 32);
    assert_eq!(Scalar::from_int(-7).raw, -(7i64 << 32));
    assert_eq!(Scalar::from_int(i32::MAX).raw, (i32::MAX as i64) << 32);
    assert_eq!(Scalar::from_int(i32::MIN).raw, i64::MIN);
}

#[test]
fn single_precision_numbers_are_read_from_their_bits() {
    assert_eq!(num(0.0).raw, 0);
    assert_eq!(num(-0.0).raw, 0);
    assert_eq!(num(1.0).raw, ONE_RAW);
    assert_eq!(num(-1.0).raw, -ONE_RAW);
    assert_eq!(num(0.5).raw, HALF_RAW);
    assert_eq!(num(-2.5).raw, -(5 * HALF_RAW));
    assert_eq!(num(640.0).raw, 640 * ONE_RAW);
    assert_eq!(num(0.003125).raw, (0.003125f32 as f64 * 4294967296.0) as i64);
    assert_eq!(num(1.0e-3).raw, (1.0e-3f32 as f64 * 4294967296.0) as i64);
    assert_eq!(num(-1.0e-3).raw, -((1.0e-3f32 as f64 * 4294967296.0) as i64));
}

#[test]
fn single_precision_numbers_round_toward_zero() {
    let tiny = f32::from_bits(0x2f80_0000);
    assert_eq!(tiny, 2.0f32.powi(-32));
    assert_eq!(num(tiny).raw, 1);
    assert_eq!(num(-tiny).raw, -1);
    assert_eq!(num(tiny * 1.5).raw, 1);
    assert_eq!(num(-tiny * 1.5).raw, -1);
    assert_eq!(num(tiny * 0.75).raw, 0);
    assert_eq!(num(-tiny * 0.75).raw, 0);
}

#[test]
fn single_precision_numbers_out_of_range_saturate() {
    assert_eq!(num(f32::INFINITY).raw, i64::MAX);
    assert_eq!(num(f32::NEG_INFINITY).raw, i64::MIN);
    assert_eq!(num(f32::MAX).raw, i64::MAX);
    assert_eq!(num(f32::MIN).raw, i64::MIN);
    assert_eq!(num(2147483648.0).raw, i64::MAX);
    assert_eq!(num(-2147483648.0).raw, i64::MIN);
    assert_eq!(num(1073741824.0).raw, 1i64 << 62);
    assert_eq!(num(f32::NAN).raw, 0);
    assert_eq!(num(f32::MIN_POSITIVE).raw, 0);
    assert_eq!(num(f32::from_bits(1)).raw, 0);
}

#[test]
fn double_precision_numbers_are_read_from_their_bits() {
    assert_eq!(wide(0.0).raw, 0);
    assert_eq!(wide(1.0).raw, ONE_RAW);
    assert_eq!(wide(-1.0).raw, -ONE_RAW);
    assert_eq!(wide(0.25).raw, ONE_RAW / 4);
    assert_eq!(wide(-480.0).raw, -480 * ONE_RAW);
    assert_eq!(wide(0.1).raw, (0.1f64 * 4294967296.0) as i64);
    assert_eq!(wide(-0.1).raw, -((0.1f64 * 4294967296.0) as i64));
    assert_eq!(wide(f64::INFINITY).raw, i64::MAX);
    assert_eq!(wide(f64::NEG_INFINITY).raw, i64::MIN);
    assert_eq!(wide(1.0e300).raw, i64::MAX);
    assert_eq!(wide(-1.0e300).raw, i64::MIN);
    assert_eq!(wide(f64::NAN).raw, 0);
    assert_eq!(wide(1.0e-300).raw, 0);
    assert_eq!(wide(f64::from_bits(1)).raw, 0);
    assert_eq!(wide(2147483647.5).raw, i64::MAX - (HALF_RAW - 1));
}

#[test]
fn sums_and_differences_saturate() {
    assert_eq!(num(1.5).sat_add(num(2.25)), num(3.75));
    assert_eq!(num(1.5).sat_sub(num(2.25)), num(-0.75));
    let max = Scalar { raw: i64::MAX };
    let min = Scalar { raw: i64::MIN };
    assert_eq!(max.sat_add(num(1.0)), max);
    assert_eq!(min.sat_sub(num(1.0)), min);
    assert_eq!(min.sat_add(max).raw, -1);
    assert_eq!(max.sat_sub(min), max);
    assert_eq!(min.sat_neg(), max);
    assert_eq!(max.sat_neg().raw, -i64::MAX);
    assert_eq!(num(2.0).sat_neg(), num(-2.0));
}

#[test]
fn products_round_toward_zero_and_saturate() {
    assert_eq!(num(1.5).sat_mul(num(-2.0)), num(-3.0));
    assert_eq!(num(0.5).sat_mul(num(0.5)), num(0.25));
    assert_eq!(Scalar { raw: 1 }.sat_mul(num(0.5)).raw, 0);
    assert_eq!(Scalar { raw: -1 }.sat_mul(num(0.5)).raw, 0);
    assert_eq!(Scalar { raw: 3 }.sat_mul(num(0.5)).raw, 1);
    assert_eq!(Scalar { raw: -3 }.sat_mul(num(0.5)).raw, -1);
    assert_eq!(num(65536.0).sat_mul(num(65536.0)).raw, i64::MAX);
    assert_eq!(num(65536.0).sat_mul(num(-65536.0)).raw, i64::MIN);
    assert_eq!(num(7.0).sat_mul(Scalar::one()), num(7.0));
    assert_eq!(num(7.0).sat_mul(Scalar::zero()), Scalar::zero());
}

#[test]
fn quotients_round_toward_zero_and_saturate() {
    assert_eq!(num(3.0).sat_div(num(-2.0)), num(-1.5));
    assert_eq!(num(-3.0).sat_div(num(-2.0)), num(1.5));
    assert_eq!(num(1.0).sat_div(num(3.0)).raw, ONE_RAW / 3);
    assert_eq!(num(-1.0).sat_div(num(3.0)).raw, -(ONE_RAW / 3));
    assert_eq!(num(1.0).sat_div(num(-3.0)).raw, -(ONE_RAW / 3));
    assert_eq!(num(2.0).sat_div(num(640.0)).raw, (2 * ONE_RAW) / 640);
    assert_eq!(num(1.0).sat_div(Scalar { raw: 1 }).raw, i64::MAX);
    assert_eq!(num(-1.0).sat_div(Scalar { raw: 1 }).raw, i64::MIN);
    assert_eq!(Scalar::zero().sat_div(num(5.0)), Scalar::zero());
}

#[test]
fn order_is_that_of_the_raw_values() {
    assert!(num(-1.0).lt(num(0.0)));
    assert!(num(0.25).lt(num(0.5)));
    assert!(!num(0.5).lt(num(0.5)));
    assert!(!num(0.75).lt(num(0.5)));
}
