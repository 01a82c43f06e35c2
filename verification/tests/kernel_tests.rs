use mathx::math::Math;

fn kb(x: f32) -> u32 {
    x.to_bits()
}

fn kf(u: u32) -> f32 {
    f32::from_bits(u)
}

fn krange(expected: f32, actual: u32, eps: f32) {
    let got = kf(actual);
    assert!(
        (expected - got).abs() < eps,
        "expected {expected}, got {got}"
    );
}

#[test]
fn abs_matches_the_sign_dropped_value() {
    assert_eq!(10.0, kf(Math::abs(kb(10.0))));
    assert_eq!(10.0, kf(Math::abs(kb(-10.0))));
    assert_eq!(0.0, kf(Math::abs(kb(-0.0))));
}

#[test]
fn abs_i32_drops_the_sign() {
    assert_eq!(10, Math::abs_i32(10));
    assert_eq!(10, Math::abs_i32(-10));
    assert_eq!(0, Math::abs_i32(-0));
}

#[test]
fn approx_compares_within_a_millionth() {
    assert!(Math::approx(kb(1.20000001), kb(1.2)));
    assert!(!Math::approx(kb(1.25), kb(1.2)));
    assert!(Math::approx_epsilon(kb(1.2001), kb(1.2), kb(0.001)));
}

#[test]
fn sign_follows_the_sign_bit() {
    assert_eq!(1.0, kf(Math::sign(kb(10.0))));
    assert_eq!(-1.0, kf(Math::sign(kb(-10.0))));
    assert_eq!(-1.0, kf(Math::sign(kb(-0.0))));
}

#[test]
fn min_max_sort_their_operands() {
    assert_eq!(1.0, kf(Math::max(kb(-1.0), kb(1.0))));
    assert_eq!(-19.0, kf(Math::max(kb(-19.0), kb(-19.1))));
    assert_eq!(-1.0, kf(Math::min(kb(-1.0), kb(1.0))));
    assert_eq!(-19.1, kf(Math::min(kb(-19.0), kb(-19.1))));
    let mm = Math::min_max(kb(-19.0), kb(-19.1));
    assert_eq!((-19.1, -19.0), (kf(mm.0), kf(mm.1)));
}

#[test]
fn clamp_pushes_into_the_range() {
    assert_eq!(10.0, kf(Math::clamp(kb(20.0), kb(0.0), kb(10.0))));
    assert_eq!(20.0, kf(Math::clamp(kb(20.0), kb(0.0), kb(100.0))));
    assert_eq!(0.0, kf(Math::clamp(kb(-0.001), kb(0.0), kb(10.0))));
    assert_eq!(0.1, kf(Math::clamp(kb(0.18), kb(-0.1), kb(0.1))));
}

#[test]
fn comparisons_match_the_hardware() {
    let samples = [
        0.0f32, -0.0, 1.0, -1.0, 0.5, -0.5, 1e-40, -1e-40, 3.0e38, -3.0e38,
        f32::INFINITY, f32::NEG_INFINITY, f32::NAN, 123.456, -123.456,
    ];
    for &a in samples.iter() {
        for &b in samples.iter() {
            assert_eq!(a < b, mathx::ieee::lt(kb(a), kb(b)), "lt {a} {b}");
            assert_eq!(a <= b, mathx::ieee::le(kb(a), kb(b)), "le {a} {b}");
            assert_eq!(a == b, mathx::ieee::eq_val(kb(a), kb(b)), "eq {a} {b}");
            assert_eq!(a > b, mathx::ieee::gt(kb(a), kb(b)), "gt {a} {b}");
        }
        assert_eq!(a.is_nan(), mathx::ieee::is_nan(kb(a)));
        assert_eq!(a.is_infinite(), mathx::ieee::is_infinite(kb(a)));
        assert_eq!((-a).to_bits(), mathx::ieee::neg(kb(a)));
    }
}

#[test]
fn integer_casts_match_the_hardware() {
    let samples = [
        0.0f32, -0.0, 0.5, -0.5, 1.0, -1.0, 123.456, -5.4, 6.0, 2147483000.0,
        -2147483000.0, 3.0e38, -3.0e38, f32::INFINITY, f32::NEG_INFINITY, f32::NAN,
        16777216.0, -16777217.0, 0.9999999,
    ];
    for &a in samples.iter() {
        assert_eq!(a as i32, mathx::ieee::f32_to_i32(kb(a)), "cast {a}");
    }
    let ints = [
        0i32, 1, -1, 255, -255, 16777215, 16777216, 16777217, -16777217,
        2147483647, -2147483648, 2147483646, 1073741825,
    ];
    for &n in ints.iter() {
        assert_eq!((n as f32).to_bits(), mathx::ieee::i32_to_f32(n), "cast {n}");
    }
}

#[test]
fn lerp_interpolates_and_clamps() {
    assert_eq!(0.5, kf(Math::lerp(kb(0.0), kb(1.0), kb(0.5))));
    assert_eq!(0.089999996, kf(Math::lerp(kb(0.0), kb(0.1), kb(0.9))));
    assert_eq!(2.0, kf(Math::lerp(kb(-10.0), kb(10.0), kb(0.6))));
    assert_eq!(-5.8, kf(Math::lerp_unclamped(kb(-10.0), kb(-4.0), kb(0.7))));
    assert_eq!(1.0, kf(Math::lerp(kb(0.0), kb(1.0), kb(7.0))));
}

#[test]
fn map_rescales_between_ranges() {
    assert_eq!(1.5, kf(Math::map(kb(1.5), kb(1.0), kb(2.0), kb(1.0), kb(2.0))));
    assert_eq!(0.1, kf(Math::map(kb(1.0), kb(0.0), kb(10.0), kb(0.0), kb(1.0))));
    assert_eq!(1.1, kf(Math::map(kb(11.0), kb(0.0), kb(10.0), kb(0.0), kb(1.0))));
    assert_eq!(0.55, kf(Math::map(kb(1.0), kb(-10.0), kb(10.0), kb(0.0), kb(1.0))));
    assert_eq!(100.0, kf(Math::map(kb(-10.0), kb(-100.0), kb(-10.0), kb(10.0), kb(100.0))));
}

#[test]
fn smoothstep_follows_the_hermite_curve() {
    assert_eq!(0.0, kf(Math::smoothstep(kb(-1.0), kb(0.0), kb(1.5))));
    assert_eq!(0.7407408, kf(Math::smoothstep(kb(1.0), kb(0.0), kb(1.5))));
    assert_eq!(1.0, kf(Math::smoothstep(kb(2.0), kb(0.0), kb(1.5))));
    assert_eq!(0.31640625, kf(Math::smoothstep(kb(0.5), kb(-1.0), kb(3.0))));
}

#[test]
fn repeat_wraps_around_the_range() {
    krange(1.0, Math::repeat(kb(1.0), kb(0.0), kb(2.0)), 0.0001);
    krange(3.0, Math::repeat(kb(1.0), kb(2.0), kb(3.0)), 0.0001);
    krange(2.3, Math::repeat(kb(5.3), kb(0.0), kb(3.0)), 0.0001);
    krange(0.31, Math::repeat(kb(-4.0), kb(0.0), kb(1.23)), 0.0001);
}

#[test]
fn truncation_family_rounds_each_way() {
    assert_eq!(123.0, kf(Math::trunc(kb(123.456))));
    assert_eq!(-5.0, kf(Math::trunc(kb(-5.4))));
    assert_eq!(6.0, kf(Math::trunc(kb(6.0))));
    assert_eq!(0.0, kf(Math::trunc(kb(-0.0))));
    assert_eq!(-3.0, kf(Math::floor(kb(-3.0))));
    assert_eq!(1.0, kf(Math::floor(kb(1.4))));
    assert_eq!(-5.0, kf(Math::floor(kb(-4.9))));
    assert_eq!(-6.0, kf(Math::floor(kb(-5.3))));
    assert_eq!(2.0, kf(Math::ceil(kb(1.4))));
    assert_eq!(3.0, kf(Math::ceil(kb(2.9))));
    assert_eq!(-4.0, kf(Math::ceil(kb(-4.9))));
    assert_eq!(-5.0, kf(Math::ceil(kb(-5.3))));
}

#[test]
fn fract_keeps_the_positive_remainder() {
    krange(0.0, Math::fract(kb(3.0)), 0.0001);
    krange(0.9, Math::fract(kb(4.9)), 0.0001);
    krange(0.1, Math::fract(kb(-4.9)), 0.0001);
    krange(0.34, Math::fract(kb(12.34)), 0.0001);
}

#[test]
fn round_ties_away_from_zero() {
    assert_eq!(0.0, kf(Math::round(kb(0.0))));
    assert_eq!(1.0, kf(Math::round(kb(1.1))));
    assert_eq!(3.0, kf(Math::round(kb(2.9))));
    assert_eq!(4.0, kf(Math::round(kb(3.5))));
    assert_eq!(-5.0, kf(Math::round(kb(-4.5))));
    assert_eq!(-5.0, kf(Math::round(kb(-5.45))));
}

#[test]
fn round_to_digit_clamps_and_scales() {
    assert_eq!(1.0, kf(Math::round_to_digit(kb(1.0), 0)));
    assert_eq!(-1.0, kf(Math::round_to_digit(kb(-1.0), 0)));
    assert_eq!(2.0, kf(Math::round_to_digit(kb(1.525), 0)));
    assert_eq!(1.5, kf(Math::round_to_digit(kb(1.525), 1)));
    assert_eq!(1.53, kf(Math::round_to_digit(kb(1.525), 2)));
    assert_eq!(-2.0, kf(Math::round_to_digit(kb(-2.4), 0)));
    assert_eq!(-3.0, kf(Math::round_to_digit(kb(-2.6), 0)));
}

#[test]
fn sqrt_converges_and_rejects_negatives() {
    krange(4.0, Math::sqrt(kb(16.0)), 0.0001);
    krange(31.9974217711, Math::sqrt(kb(1023.835)), 0.001);
    krange(0.46325132, Math::sqrt(kb(0.2146018)), 0.0001);
    assert_eq!(0.0, kf(Math::sqrt(kb(-0.0))));
    assert_eq!(0.0, kf(Math::sqrt(kb(0.0))));
    assert_eq!(1.0, kf(Math::sqrt(kb(1.0))));
    assert!(kf(Math::sqrt(kb(-1.0))).is_nan());
    assert!(kf(Math::sqrt(kb(-102.0))).is_nan());
}

#[test]
fn squared_square_roots_come_back_for_nonnegative_inputs() {
    for &x in [0.0f32, 0.25, 1.0, 2.0, 9.0, 16.0, 123.456, 1023.835, 4096.0].iter() {
        let r = kf(Math::sqrt(kb(x)));
        assert!((r * r - x).abs() < 0.0001 * (1.0 + x), "sqrt {x} gave {r}");
    }
}

#[test]
fn exp_follows_the_series() {
    krange(1.0, Math::exp(kb(0.0)), 0.0001);
    krange(0.000004539993, Math::exp(kb(-10.0)), 0.0001);
    krange(22026.465, Math::exp(kb(10.0)), 5.0);
    krange(18.174147, Math::exp(kb(2.9)), 0.001);
    krange(1.0, Math::exp2(kb(0.0)), 0.0001);
    krange(1024.0, Math::exp2(kb(10.0)), 0.3);
    krange(7.464265, Math::exp2(kb(2.9)), 0.001);
}

#[test]
fn ln_reduces_and_sums_the_series() {
    krange(0.0, Math::ln(kb(1.0)), 0.0001);
    krange(4.60517018599, Math::ln(kb(100.0)), 0.0001);
    krange(-4.60517018599, Math::ln(kb(0.01)), 0.0001);
    krange(1.0, Math::ln(f32::from_bits(Math::E).to_bits()), 0.0001);
    krange(0.69314718056, Math::ln(kb(2.0)), 0.0001);
    krange(2.30258509299, Math::ln(kb(10.0)), 0.0001);
    krange(0.6931472, Math::ln_1p(kb(1.0)), 0.0001);
    krange(0.0099503305, Math::ln_1p(kb(0.01)), 0.0001);
}

#[test]
fn ln_boundary_inputs_give_the_sentinels() {
    assert!(kf(Math::ln(kb(-10.0))).is_nan());
    assert!(kf(Math::ln(kb(-1.0))).is_nan());
    assert_eq!(f32::NEG_INFINITY, kf(Math::ln(kb(0.0))));
    assert_eq!(f32::NEG_INFINITY, kf(Math::ln(kb(-0.0))));
    assert_eq!(f32::INFINITY, kf(Math::ln(kb(f32::INFINITY))));
    assert!(kf(Math::ln(kb(f32::NAN))).is_nan());
}

#[test]
fn logs_rescale_the_natural_log() {
    krange(1.0, Math::log(kb(2.0), kb(2.0)), 0.0001);
    krange(3.32192809489, Math::log(kb(10.0), kb(2.0)), 0.001);
    krange(2.0, Math::log(kb(16.0), kb(4.0)), 0.001);
    krange(0.301029995664, Math::log10(kb(2.0)), 0.0001);
    krange(1.0, Math::log10(kb(10.0)), 0.0001);
    krange(2.0, Math::log10(kb(100.0)), 0.0001);
    krange(1.0, Math::log2(kb(2.0)), 0.0001);
    krange(4.0, Math::log2(kb(16.0)), 0.001);
}

#[test]
fn pow_short_circuits_and_composes() {
    krange(1.0, Math::pow(kb(1.0), kb(0.0)), 0.0001);
    krange(1.0, Math::pow(kb(1.0), kb(10.0)), 0.0001);
    krange(1024.0, Math::pow(kb(2.0), kb(10.0)), 0.3);
    krange(83.65118, Math::pow(kb(40.0), kb(1.2)), 0.05);
    krange(0.07991368, Math::pow(kb(3.0), kb(-2.3)), 0.0001);
    krange(243.0, Math::pow_i32(kb(3.0), 5), 0.0001);
    krange(1141.166, Math::pow_i32(kb(10.45), 3), 0.01);
    krange(1.0, Math::pow_i32(kb(0.0), 0), 0.0001);
    krange(0.125, Math::pow_i32(kb(2.0), -3), 0.0001);
}

#[test]
fn sine_and_cosine_agree_with_the_reference_angles() {
    let pi = kf(Math::PI);
    krange(0.0, Math::sin(kb(0.0)), 0.0001);
    krange(1.0, Math::sin(Math::PI_OVER_2), 0.0001);
    krange(0.0, Math::sin(Math::PI), 0.0001);
    krange(-1.0, Math::sin(kb(pi + pi / 2.0)), 0.0001);
    krange(0.707106781, Math::sin(Math::PI_OVER_4), 0.0001);
    krange(0.841470985, Math::sin(kb(1.0)), 0.0001);
    krange(0.506365641, Math::sin(kb(-100.0)), 0.0001);
    krange(1.0, Math::cos(kb(0.0)), 0.0001);
    krange(0.0, Math::cos(Math::PI_OVER_2), 0.0001);
    krange(-1.0, Math::cos(Math::PI), 0.0001);
    krange(0.540302306, Math::cos(kb(1.0)), 0.0001);
    krange(0.862318872, Math::cos(kb(-100.0)), 0.0001);
    let sc = Math::sin_cos(kb(1.0));
    krange(0.841470985, sc.0, 0.0001);
    krange(0.540302306, sc.1, 0.0001);
    krange(0.841470985, Math::sin_deg(kb(57.29577951)), 0.0001);
    krange(0.540302306, Math::cos_deg(kb(57.29577951)), 0.0001);
}

#[test]
fn sine_squared_plus_cosine_squared_is_one() {
    let angles = [
        -100.0f32, -6.2, -3.14159, -1.0, -0.5, 0.0, 0.25, 0.7853982, 1.0,
        1.5707964, 2.0, 3.14159, 4.0, 6.2831855, 10.0, 100.0, 1234.5,
    ];
    for &theta in angles.iter() {
        let sc = Math::sin_cos(theta.to_bits());
        let s = kf(sc.0);
        let c = kf(sc.1);
        assert!((s * s + c * c - 1.0).abs() < 0.0001, "angle {theta}");
    }
}

#[test]
fn tangent_family_follows_sine_over_cosine() {
    krange(0.0, Math::tan(kb(0.0)), 0.0001);
    krange(1.0, Math::tan(Math::PI_OVER_4), 0.0001);
    krange(1.557407725, Math::tan(kb(1.0)), 0.0005);
    krange(0.642092616, Math::cot(kb(1.0)), 0.0005);
    krange(1.850815718, Math::sec(kb(1.0)), 0.0005);
    krange(1.188395106, Math::csc(kb(1.0)), 0.0005);
    krange(1.0, Math::tan_deg(kb(45.0)), 0.0005);
}

#[test]
fn arc_cosine_covers_its_domain() {
    krange(1.5707964, Math::acos(kb(0.0)), 0.0001);
    krange(0.0, Math::acos(kb(1.0)), 0.0001);
    krange(3.1415927, Math::acos(kb(-1.0)), 0.0001);
    krange(0.7853982, Math::acos(kb(0.707106781)), 0.0001);
    krange(1.0, Math::acos(kb(0.540302306)), 0.0001);
    krange(90.0, Math::acos_deg(kb(0.0)), 0.001);
    krange(45.0, Math::acos_deg(kb(0.707106781)), 0.005);
}

#[test]
fn arc_sine_covers_its_domain() {
    krange(0.0, Math::asin(kb(0.0)), 0.0001);
    krange(1.5707964, Math::asin(kb(1.0)), 0.0001);
    krange(-1.5707964, Math::asin(kb(-1.0)), 0.0001);
    krange(0.7853982, Math::asin(kb(0.707106781)), 0.0001);
    krange(-0.25268024, Math::asin(kb(-0.25)), 0.0001);
    krange(-90.0, Math::asin_deg(kb(-1.0)), 0.001);
}

#[test]
fn out_of_domain_inverse_trig_gives_nan() {
    assert!(kf(Math::acos(kb(1.0001))).is_nan());
    assert!(kf(Math::acos(kb(2.0))).is_nan());
    assert!(kf(Math::acos(kb(-1.001))).is_nan());
    assert!(kf(Math::asin(kb(-1.0001))).is_nan());
    assert!(kf(Math::asin(kb(2.0))).is_nan());
    assert!(kf(Math::asin(kb(-1.1))).is_nan());
    assert!(kf(Math::acosh(kb(0.0))).is_nan());
}

#[test]
fn arc_cosine_undoes_cosine_on_the_principal_range() {
    for &theta in [0.0f32, 0.3, 0.7853982, 1.0, 1.5707964, 2.0, 2.5, 3.0, 3.14159].iter() {
        let c = Math::cos(theta.to_bits());
        let back = kf(Math::acos(c));
        assert!((back - theta).abs() < 0.002, "angle {theta} came back {back}");
    }
}

#[test]
fn atan2_picks_the_quadrant() {
    krange(0.0, Math::atan2(kb(0.0), kb(1.0)), 0.0001);
    krange(0.7853982, Math::atan2(kb(1.0), kb(1.0)), 0.0001);
    krange(-0.7853982, Math::atan2(kb(-1.0), kb(1.0)), 0.0001);
    krange(1.3734008, Math::atan2(kb(5.0), kb(1.0)), 0.0001);
    krange(0.19739556, Math::atan2(kb(1.0), kb(5.0)), 0.0001);
    krange(-1.3734008, Math::atan2(kb(-5.0), kb(1.0)), 0.0001);
    krange(0.0, Math::atan2(kb(0.0), kb(0.0)), 0.0001);
    krange(0.7853982, Math::atan(kb(1.0)), 0.0001);
    krange(0.615479708546, Math::atan(kb(0.707106781)), 0.0001);
    krange(45.0, Math::atan2_deg(kb(1.0), kb(1.0)), 0.005);
}

#[test]
fn hyperbolic_family_follows_the_exponential() {
    krange(1.0, Math::cosh(kb(0.0)), 0.0001);
    krange(1.54308063482, Math::cosh(kb(1.0)), 0.0005);
    krange(1.54308063482, Math::cosh(kb(-1.0)), 0.0005);
    krange(0.0, Math::sinh(kb(0.0)), 0.0001);
    krange(1.1752012, Math::sinh(kb(1.0)), 0.0005);
    krange(-1.1752012, Math::sinh(kb(-1.0)), 0.0005);
    krange(0.0, Math::tanh(kb(0.0)), 0.0001);
    krange(0.7615942, Math::tanh(kb(1.0)), 0.0005);
    krange(-0.7615942, Math::tanh(kb(-1.0)), 0.0005);
    krange(0.8813736, Math::asinh(kb(1.0)), 0.0005);
    krange(1.0, Math::asinh(kb(1.1752012)), 0.0005);
    krange(0.0, Math::acosh(kb(1.0)), 0.0005);
    krange(1.0, Math::acosh(kb(1.54308063482)), 0.002);
    krange(0.0, Math::atanh(kb(0.0)), 0.0001);
    krange(1.0, Math::atanh(kb(0.7615942)), 0.002);
    assert!(kf(Math::atanh(kb(1.0))).is_infinite());
    assert_eq!(f32::NEG_INFINITY, kf(Math::atanh(kb(-1.5))));
}

#[test]
fn degree_conversions_scale_by_pi_over_180() {
    assert_eq!(0.610865238198f32, kf(Math::deg2rad(kb(35.0))));
    krange(5.23598775598, Math::deg2rad(kb(300.0)), 0.0001);
    krange(57.2957795131, Math::rad2deg(kb(1.0)), 0.0001);
    krange(229.183118052, Math::rad2deg(kb(4.0)), 0.001);
}

#[test]
fn the_named_constants_hold_their_literals() {
    assert_eq!(3.14159265359f32, kf(Math::PI));
    assert_eq!(1.570796326f32, kf(Math::PI_OVER_2));
    assert_eq!(0.785398163f32, kf(Math::PI_OVER_4));
    assert_eq!(6.28318530718f32, kf(Math::TWO_PI));
    assert_eq!(2.71828182845f32, kf(Math::E));
    assert_eq!(0.01745329251f32, kf(Math::DEG_TO_RAD));
    assert_eq!(57.2957795131f32, kf(Math::RAD_TO_DEG));
    assert_eq!(0.69314718056f32, kf(Math::LN2));
    assert_eq!(2.30258509299f32, kf(Math::LN10));
}
