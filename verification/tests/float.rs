use vapor_telemetry::telemetry::udp::float_sum::bit_length_of;
use vapor_telemetry::telemetry::udp::Float32;

struct Lcg(u64);

impl Lcg {
    fn next(&mut self) -> u32 {
        self.0 = self.0.wrapping_mul(6364136223846793005).wrapping_add(1442695040888963407);
        (self.0 >> 32) as u32
    }
}

fn special_bits() -> Vec<u32> {
    let mut bits = vec![
        0x0000_0000,
        0x8000_0000,
        0x0000_0001,
        0x8000_0001,
        0x007f_ffff,
        0x0080_0000,
        0x0080_0001,
        0x00ff_ffff,
        0x3f80_0000,
        0xbf80_0000,
        0x3f7f_ffff,
        0x3f80_0001,
        0x4b00_0000,
        0x4b7f_ffff,
        0x4b80_0000,
        0x5f00_0000,
        0x5f80_0000,
        0x7f7f_ffff,
        0xff7f_ffff,
        0x7f80_0000,
        0xff80_0000,
        0x7fc0_0000,
        0x7f80_0001,
        0xffc0_0000,
        0x7fff_ffff,
    ];
    for value in [0.5f32, 1.5, 2.5, 0.1, 2.93, 25253.5, 3574746.5, 1e-40, 1e38, 3.0e38, 16777216.0]
    {
        bits.push(value.to_bits());
        bits.push((-value).to_bits());
    }
    bits
}

fn check_sum(a: u32, b: u32) {
    let expected = f32::from_bits(a) + f32::from_bits(b);
    let got = Float32::from_bits(a).add(Float32::from_bits(b));
    if expected.is_nan() {
        assert!(f32::from_bits(got.to_bits()).is_nan(), "{:#x} + {:#x}", a, b);
        assert_eq!(got.to_bits(), 0x7fc0_0000);
    } else {
        assert_eq!(got.to_bits(), expected.to_bits(), "{:#x} + {:#x}", a, b);
    }
}

#[test]
fn sum_of_special_numbers_is_the_sum_in_single_precision() {
    let bits = special_bits();
    for &a in &bits {
        for &b in &bits {
            check_sum(a, b);
        }
    }
}

#[test]
fn sum_of_any_two_patterns_is_the_sum_in_single_precision() {
    let mut random = Lcg(0x5eed);
    for _ in 0..300_000 {
        check_sum(random.next(), random.next());
    }
}

#[test]
fn sum_of_numbers_of_close_size_is_the_sum_in_single_precision() {
    let mut random = Lcg(42);
    for _ in 0..300_000 {
        let a = random.next();
        let field = (a >> 23) & 0xff;
        let offset = random.next() % 60;
        let other = (field + 30).saturating_sub(offset).min(254);
        let b = (random.next() & 0x807f_ffff) | (other << 23);
        check_sum(a, b);
        check_sum(b, a);
    }
}

#[test]
fn sum_of_clock_readings_is_the_sum_in_single_precision() {
    let mut random = Lcg(7);
    for _ in 0..200_000 {
        let time = (random.next() % 40_000_000) as f32 / 8.0;
        let end = (random.next() % 40_000_000) as f32 / 16.0;
        check_sum(time.to_bits(), end.to_bits());
    }
    let sum = Float32::from_bits(3574746.5f32.to_bits())
        .add(Float32::from_bits(25253.5f32.to_bits()));
    assert_eq!(f32::from_bits(sum.to_bits()), 3_600_000.0);
    assert_eq!(sum.ceil_to_u64(), 3_600_000);
}

#[test]
fn sum_rounds_a_tie_to_the_even_number() {
    let one = Float32::from_bits(1.0f32.to_bits());
    let half_ulp = Float32::from_bits(2.0f32.powi(-24).to_bits());
    assert_eq!(one.add(half_ulp).to_bits(), 1.0f32.to_bits());
    let next = Float32::from_bits(1.0f32.to_bits() + 1);
    assert_eq!(next.add(half_ulp).to_bits(), 1.0f32.to_bits() + 2);
}

#[test]
fn sum_of_opposite_numbers_is_positive_zero() {
    let x = Float32::from_bits(2.93f32.to_bits());
    let minus_x = Float32::from_bits((-2.93f32).to_bits());
    assert_eq!(x.add(minus_x).to_bits(), 0);
    let minus_zero = Float32::from_bits(0x8000_0000);
    assert_eq!(minus_zero.add(minus_zero).to_bits(), 0x8000_0000);
    assert_eq!(minus_zero.add(Float32::from_bits(0)).to_bits(), 0);
}

#[test]
fn ceiling_is_the_ceiling_in_single_precision() {
    let mut random = Lcg(99);
    let mut bits = special_bits();
    for _ in 0..300_000 {
        bits.push(random.next());
    }
    for field in 100..200u32 {
        bits.push((field << 23) | (random.next() & 0x007f_ffff));
    }
    for b in bits {
        let expected = f32::from_bits(b).ceil() as u64;
        assert_eq!(Float32::from_bits(b).ceil_to_u64(), expected, "{:#x}", b);
    }
    assert_eq!(Float32::from_bits(0.2f32.to_bits()).ceil_to_u64(), 1);
    assert_eq!(Float32::from_bits(7.0f32.to_bits()).ceil_to_u64(), 7);
    assert_eq!(Float32::from_bits(7.25f32.to_bits()).ceil_to_u64(), 8);
    assert_eq!(Float32::from_bits((-7.25f32).to_bits()).ceil_to_u64(), 0);
    assert_eq!(Float32::from_bits(f32::NAN.to_bits()).ceil_to_u64(), 0);
    assert_eq!(Float32::from_bits(f32::INFINITY.to_bits()).ceil_to_u64(), u64::MAX);
    assert_eq!(Float32::from_bits(1e30f32.to_bits()).ceil_to_u64(), u64::MAX);
}

#[test]
fn equality_is_the_equality_of_numbers() {
    let bits = special_bits();
    for &a in &bits {
        for &b in &bits {
            assert_eq!(
                Float32::from_bits(a).eq_number(Float32::from_bits(b)),
                f32::from_bits(a) == f32::from_bits(b),
                "{:#x} == {:#x}",
                a,
                b
            );
        }
    }
    let nan = Float32::from_bits(f32::NAN.to_bits());
    assert!(!nan.eq_number(nan));
    assert!(Float32::from_bits(0).eq_number(Float32::from_bits(0x8000_0000)));
}

fn check_product(a: u32, b: u32) {
    let expected = f32::from_bits(a) * f32::from_bits(b);
    let got = Float32::from_bits(a).multiply(Float32::from_bits(b));
    if expected.is_nan() {
        assert_eq!(got.to_bits(), 0x7fc0_0000, "{:#x} * {:#x}", a, b);
    } else {
        assert_eq!(got.to_bits(), expected.to_bits(), "{:#x} * {:#x}", a, b);
    }
}

#[test]
fn product_of_special_numbers_is_the_product_in_single_precision() {
    let bits = special_bits();
    for &a in &bits {
        for &b in &bits {
            check_product(a, b);
        }
    }
}

#[test]
fn product_of_any_two_patterns_is_the_product_in_single_precision() {
    let mut random = Lcg(0x9e37);
    for _ in 0..300_000 {
        check_product(random.next(), random.next());
    }
}

#[test]
fn product_at_the_edges_is_the_product_in_single_precision() {
    let mut random = Lcg(78);
    for _ in 0..300_000 {
        let a = random.next();
        let field = (a >> 23) & 0xff;
        let other = match random.next() % 3 {
            0 => (254 + 127 - field).saturating_sub(random.next() % 30).min(254),
            1 => (127u32.saturating_sub(field) + random.next() % 30).min(254),
            _ => random.next() % 4,
        };
        let b = (random.next() & 0x807f_ffff) | (other << 23);
        check_product(a, b);
        check_product(b, a);
    }
}

#[test]
fn ceiling_in_the_range_of_i32_is_the_ceiling_in_single_precision() {
    let mut random = Lcg(100);
    let mut bits = special_bits();
    for _ in 0..300_000 {
        bits.push(random.next());
    }
    for field in 100..170u32 {
        bits.push((field << 23) | (random.next() & 0x007f_ffff));
        bits.push(0x8000_0000 | (field << 23) | (random.next() & 0x007f_ffff));
    }
    for value in [-0.5f32, -1.0, -1.5, -2147483648.0, -2147483904.0, 2147483648.0, 2147483520.0] {
        bits.push(value.to_bits());
    }
    for b in bits {
        let expected = f32::from_bits(b).ceil() as i32;
        assert_eq!(Float32::from_bits(b).ceil_to_i32(), expected, "{:#x}", b);
    }
}

#[test]
fn bit_length_counts_the_bits() {
    assert_eq!(bit_length_of(0), 0);
    assert_eq!(bit_length_of(1), 1);
    assert_eq!(bit_length_of(2), 2);
    assert_eq!(bit_length_of(255), 8);
    assert_eq!(bit_length_of(256), 9);
    assert_eq!(bit_length_of(u64::MAX), 64);
}

#[test]
fn sum_that_is_too_large_is_infinite() {
    let max = Float32::from_bits(f32::MAX.to_bits());
    assert_eq!(max.add(max).to_bits(), f32::INFINITY.to_bits());
    let lowest = Float32::from_bits(f32::MIN.to_bits());
    assert_eq!(lowest.add(lowest).to_bits(), f32::NEG_INFINITY.to_bits());
    assert_eq!(max.add(lowest).to_bits(), 0);
}

#[test]
fn bits_pass_through() {
    for bits in special_bits() {
        assert_eq!(Float32::from_bits(bits).to_bits(), bits);
    }
    assert_eq!(Float32::default().to_bits(), 0);
}

fn check_quotient(a: u32, b: u32) {
    let expected = f32::from_bits(a) / f32::from_bits(b);
    let got = Float32::from_bits(a).divide(Float32::from_bits(b));
    if expected.is_nan() {
        assert_eq!(got.to_bits(), 0x7fc0_0000, "{:#x} / {:#x}", a, b);
    } else {
        assert_eq!(got.to_bits(), expected.to_bits(), "{:#x} / {:#x}", a, b);
    }
}

#[test]
fn quotient_of_special_numbers_is_the_quotient_in_single_precision() {
    let bits = special_bits();
    for &a in &bits {
        for &b in &bits {
            check_quotient(a, b);
        }
    }
}

#[test]
fn quotient_of_any_two_patterns_is_the_quotient_in_single_precision() {
    let mut random = Lcg(0xd1f);
    for _ in 0..300_000 {
        check_quotient(random.next(), random.next());
    }
}

#[test]
fn quotient_at_the_edges_is_the_quotient_in_single_precision() {
    let mut random = Lcg(77);
    for _ in 0..200_000 {
        let a = random.next();
        let field = (a >> 23) & 0xff;
        let target = random.next() % 3;
        let other = match target {
            0 => (field + 127).saturating_sub(random.next() % 30).min(254),
            1 => field.saturating_sub(100 + random.next() % 60),
            _ => random.next() % 4,
        };
        let b = (random.next() & 0x807f_ffff) | (other << 23);
        check_quotient(a, b);
        check_quotient(b, a);
    }
    for count in 1..2000u32 {
        let sum = random.next() & 0x7fff_ffff;
        check_quotient(sum, (count as f32).to_bits());
    }
}

#[test]
fn count_is_the_nearest_number() {
    let mut random = Lcg(5);
    let mut counts = vec![0u64, 1, 2, 3, 16_777_215, 16_777_216, 16_777_217, 16_777_219, u64::MAX];
    for _ in 0..100_000 {
        let wide = ((random.next() as u64) << 32) | random.next() as u64;
        counts.push(wide);
        counts.push(wide >> (random.next() % 64));
    }
    for count in counts {
        assert_eq!(Float32::from_count(count).to_bits(), (count as f32).to_bits(), "{}", count);
    }
}

#[test]
fn order_is_the_order_of_numbers() {
    let mut random = Lcg(6);
    let mut bits = special_bits();
    for _ in 0..500 {
        bits.push(random.next());
    }
    for &a in &bits {
        for &b in &bits {
            assert_eq!(
                Float32::from_bits(a).lt(Float32::from_bits(b)),
                f32::from_bits(a) < f32::from_bits(b),
                "{:#x} < {:#x}",
                a,
                b
            );
        }
    }
}
