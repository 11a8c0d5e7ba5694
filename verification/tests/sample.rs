use txkit::sample::{UnitSample, ONE_BITS, UNIT_STEPS};

fn reference_bits(steps: u32) -> u32 {
    (f32::from_bits(0x7fu32 << 23 | steps) - 1.0f32).to_bits()
}

#[test]
fn samples_stay_below_one() {
    assert!(UnitSample::from_steps(0).is_some());
    assert!(UnitSample::from_steps(UNIT_STEPS - 1).is_some());
    assert!(UnitSample::from_steps(UNIT_STEPS).is_none());
    assert!(UnitSample::from_steps(u32::MAX).is_none());
    assert_eq!(UnitSample::from_steps(77).unwrap().steps(), 77);
}

#[test]
fn word_gives_its_upper_bits() {
    assert_eq!(UnitSample::from_word(0).steps(), 0);
    assert_eq!(UnitSample::from_word(511).steps(), 0);
    assert_eq!(UnitSample::from_word(512).steps(), 1);
    assert_eq!(UnitSample::from_word(u32::MAX).steps(), UNIT_STEPS - 1);
    assert_eq!(UnitSample::from_word(0x31251ba7).steps(), 1610381);
}

#[test]
fn float_bits_of_known_samples() {
    let cases = [
        (0u32, 0u32),
        (1, 0x3400_0000),
        (2, 0x3480_0000),
        (3, 0x34c0_0000),
        (0x40_0000, 0x3f00_0000),
        (0x7f_ffff, 0x3f7f_fffe),
        (0x12_3456, 0x3e11_a2b0),
    ];
    for (steps, bits) in cases {
        let sample = UnitSample::from_steps(steps).unwrap();
        assert_eq!(sample.to_float_bits(), bits);
        assert_eq!(f32::from_bits(bits), steps as f32 / 8388608.0f32);
    }
}

#[test]
fn float_bits_agree_with_float_arithmetic() {
    let mut steps: u32 = 0;
    while steps < UNIT_STEPS {
        let sample = UnitSample::from_steps(steps).unwrap();
        let bits = sample.to_float_bits();
        assert_eq!(bits, reference_bits(steps));
        assert!(bits < ONE_BITS);
        let value = f32::from_bits(bits);
        assert!(0.0 <= value && value < 1.0);
        steps += 997;
    }
    for shift in 0..23 {
        let steps = 1u32 << shift;
        assert_eq!(UnitSample::from_steps(steps).unwrap().to_float_bits(), reference_bits(steps));
        let steps = (1u32 << shift) | 1;
        assert_eq!(UnitSample::from_steps(steps).unwrap().to_float_bits(), reference_bits(steps));
    }
}

#[test]
fn byte_levels_of_known_samples() {
    let cases =
        [(0u32, 0u8), (1, 0), (0x40_0000, 127), (0x7f_ffff, 254), (0x12_3456, 36), (32897, 1), (32896, 0)];
    for (steps, level) in cases {
        assert_eq!(UnitSample::from_steps(steps).unwrap().to_u8(), level);
    }
}

#[test]
fn byte_levels_agree_with_float_arithmetic() {
    let mut steps: u32 = 0;
    while steps < UNIT_STEPS {
        let sample = UnitSample::from_steps(steps).unwrap();
        let value = f32::from_bits(sample.to_float_bits());
        assert_eq!(sample.to_u8(), (value * 255.0f32) as u8);
        steps += 31;
    }
}
