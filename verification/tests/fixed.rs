use vision::fixed::{isqrt, MICRO};
use vision::ieee::{bits_from_micro, micro_from_bits};

#[test]
fn integer_square_root_of_small_numbers() {
    let expected = [0u64, 1, 1, 1, 2, 2, 2, 2, 2, 3, 3];
    for (n, root) in expected.iter().enumerate() {
        assert_eq!(isqrt(n as u128), *root);
    }
}

#[test]
fn integer_square_root_at_the_edges_of_squares() {
    for root in [1u128, 2, 3, 1_000, 65_535, 65_536, 4_294_967_295, 4_294_967_296, 18_446_744_073_709_551_615] {
        let square = root * root;
        assert_eq!(isqrt(square) as u128, root);
        assert_eq!(isqrt(square - 1) as u128, root - 1);
        if root < 18_446_744_073_709_551_615 {
            assert_eq!(isqrt(square + 1) as u128, root);
        }
    }
    assert_eq!(isqrt(u128::MAX), u64::MAX);
}

#[test]
fn fixed_point_unit_is_a_million() {
    assert_eq!(MICRO, 1_000_000);
}

#[test]
fn doubles_read_to_the_nearest_millionth() {
    assert_eq!(micro_from_bits(1.5f64.to_bits()), Some(1_500_000));
    assert_eq!(micro_from_bits(0.8f64.to_bits()), Some(800_000));
    assert_eq!(micro_from_bits(0.3f64.to_bits()), Some(300_000));
    assert_eq!(micro_from_bits((-2.25f64).to_bits()), Some(-2_250_000));
    assert_eq!(micro_from_bits(1150.0f64.to_bits()), Some(1_150_000_000));
    assert_eq!(micro_from_bits(123.456789f64.to_bits()), Some(123_456_789));
    assert_eq!(micro_from_bits(640.25f64.to_bits()), Some(640_250_000));
    assert_eq!(micro_from_bits(0.1234565f64.to_bits()), Some(123_456));
    assert_eq!(micro_from_bits(1.5e-6f64.to_bits()), Some(2));
    assert_eq!(micro_from_bits(2.5e-6f64.to_bits()), Some(3));
}

#[test]
fn halves_read_away_from_zero() {
    assert_eq!(micro_from_bits(0.0078125f64.to_bits()), Some(7_813));
    assert_eq!(micro_from_bits((-0.0078125f64).to_bits()), Some(-7_813));
}

#[test]
fn zero_and_tiny_doubles_read_as_zero() {
    assert_eq!(micro_from_bits(0.0f64.to_bits()), Some(0));
    assert_eq!(micro_from_bits((-0.0f64).to_bits()), Some(0));
    assert_eq!(micro_from_bits(1e-7f64.to_bits()), Some(0));
    assert_eq!(micro_from_bits(5e-7f64.to_bits()), Some(0));
    assert_eq!(micro_from_bits((-4e-7f64).to_bits()), Some(0));
    assert_eq!(micro_from_bits(1), Some(0));
    assert_eq!(micro_from_bits(f64::MIN_POSITIVE.to_bits()), Some(0));
}

#[test]
fn infinities_and_nans_do_not_read() {
    assert_eq!(micro_from_bits(f64::INFINITY.to_bits()), None);
    assert_eq!(micro_from_bits(f64::NEG_INFINITY.to_bits()), None);
    assert_eq!(micro_from_bits(f64::NAN.to_bits()), None);
    assert_eq!(micro_from_bits(0x7ff0_0000_0000_0001), None);
    assert_eq!(micro_from_bits(0xfff8_0000_0000_0000), None);
}

#[test]
fn doubles_out_of_range_do_not_read() {
    assert_eq!(micro_from_bits(9.2e12f64.to_bits()), Some(9_200_000_000_000_000_000));
    assert_eq!(micro_from_bits((-9.2e12f64).to_bits()), Some(-9_200_000_000_000_000_000));
    assert_eq!(micro_from_bits(9.3e12f64.to_bits()), None);
    assert_eq!(micro_from_bits((-9.3e12f64).to_bits()), None);
    assert_eq!(micro_from_bits(4503599627370496.0f64.to_bits()), None);
    assert_eq!(micro_from_bits(1e300f64.to_bits()), None);
    assert_eq!(micro_from_bits(f64::MAX.to_bits()), None);
    assert_eq!(micro_from_bits(0x42a0_c6f7_a0b5_ed8d), Some(9_223_372_036_854_775_391));
    assert_eq!(micro_from_bits(0x42a0_c6f7_a0b5_ed8e), None);
}

#[test]
fn reading_agrees_with_rounding_in_floating_point() {
    let mut x = 0.000_001f64;
    while x < 1.0e6 {
        let expected = (x * 1.0e6).round() as i64;
        let read = micro_from_bits(x.to_bits()).unwrap();
        assert!((read - expected).abs() <= 1, "{} read as {}", x, read);
        assert_eq!(micro_from_bits((-x).to_bits()), Some(-read));
        x *= 1.37;
    }
}

#[test]
fn fixed_point_numbers_are_written_as_the_nearest_double() {
    assert_eq!(bits_from_micro(0), 0);
    assert_eq!(f64::from_bits(bits_from_micro(1_500_000)), 1.5);
    assert_eq!(f64::from_bits(bits_from_micro(800_000)), 0.8);
    assert_eq!(bits_from_micro(800_000), 0x3fe9_9999_9999_999a);
    assert_eq!(f64::from_bits(bits_from_micro(-2_250_000)), -2.25);
    assert_eq!(f64::from_bits(bits_from_micro(1)), 0.000_001);
    assert_eq!(f64::from_bits(bits_from_micro(3)), 0.000_003);
    assert_eq!(f64::from_bits(bits_from_micro(123_456_789)), 123.456789);
    assert_eq!(f64::from_bits(bits_from_micro(1_150_000_000)), 1150.0);
    assert_eq!(bits_from_micro(i64::MAX), 0x42a0_c6f7_a0b5_ed8d);
    assert_eq!(bits_from_micro(i64::MIN), 0xc2a0_c6f7_a0b5_ed8d);
}

#[test]
fn writing_agrees_with_division_in_floating_point() {
    let mut m: i64 = 1;
    while m < (1i64 << 53) {
        for n in [m, m + 1, m - 1, -m, 3 * (m / 2) + 1] {
            assert_eq!(f64::from_bits(bits_from_micro(n)), n as f64 / 1.0e6, "{}", n);
        }
        m *= 2;
    }
    for k in 0..100_000i64 {
        let n = k * 7_919 - 300_000_000;
        assert_eq!(f64::from_bits(bits_from_micro(n)), n as f64 / 1.0e6, "{}", n);
    }
}

#[test]
fn written_numbers_read_back() {
    let mut m: i64 = 1;
    while m <= (1i64 << 51) {
        for n in [m, m - 1, -m, 1 - m, m / 3, -(m / 7)] {
            assert_eq!(micro_from_bits(bits_from_micro(n)), Some(n), "{}", n);
        }
        m *= 2;
    }
    for n in -5_000..5_000i64 {
        assert_eq!(micro_from_bits(bits_from_micro(n)), Some(n));
        assert_eq!(micro_from_bits(bits_from_micro(n * 1_000_003)), Some(n * 1_000_003));
    }
}
