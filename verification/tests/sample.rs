use meander::sample::Sample;

fn sample(value: f64) -> Sample {
    Sample { bits: value.to_bits() }
}

#[test]
fn positive_agrees_with_comparison_on_landmarks() {
    let landmarks = [
        0.0,
        -0.0,
        1.0,
        -1.0,
        0.5,
        -0.5,
        f64::MIN_POSITIVE,
        -f64::MIN_POSITIVE,
        5e-324,
        -5e-324,
        f64::MAX,
        f64::MIN,
        f64::INFINITY,
        f64::NEG_INFINITY,
        f64::NAN,
        -f64::NAN,
        f64::EPSILON,
        1.2246467991473532e-16,
        -2.4492935982947064e-16,
    ];
    for value in landmarks {
        assert_eq!(sample(value).is_positive(), value > 0.0, "{:?}", value);
    }
}

#[test]
fn positive_agrees_with_comparison_on_bit_patterns() {
    let mut patterns: Vec<u64> = vec![0, 1, u64::MAX];
    for shift in 0..64 {
        let bit = 1u64 << shift;
        patterns.push(bit);
        patterns.push(bit - 1);
        patterns.push(bit | 1);
        patterns.push(!bit);
        patterns.push(u64::MAX >> shift);
        patterns.push(u64::MAX << shift);
        patterns.push(0x7ff0_0000_0000_0000 | bit);
        patterns.push(0xfff0_0000_0000_0000 | bit);
        patterns.push(0x7ff0_0000_0000_0000 ^ bit);
    }
    for bits in patterns {
        let expected = f64::from_bits(bits) > 0.0;
        assert_eq!(Sample { bits }.is_positive(), expected, "{:#018x}", bits);
    }
}

#[test]
fn positive_boundaries_are_exact() {
    assert!(!Sample { bits: 0 }.is_positive());
    assert!(Sample { bits: 1 }.is_positive());
    assert!(Sample { bits: 0x7fef_ffff_ffff_ffff }.is_positive());
    assert!(Sample { bits: 0x7ff0_0000_0000_0000 }.is_positive());
    assert!(!Sample { bits: 0x7ff0_0000_0000_0001 }.is_positive());
    assert!(!Sample { bits: 0x7fff_ffff_ffff_ffff }.is_positive());
    assert!(!Sample { bits: 0x8000_0000_0000_0000 }.is_positive());
    assert!(!Sample { bits: 0x8000_0000_0000_0001 }.is_positive());
    assert!(!Sample { bits: 0xfff0_0000_0000_0000 }.is_positive());
}

#[test]
fn samples_compare_by_bit_pattern() {
    assert_eq!(sample(1.0), Sample { bits: 0x3ff0_0000_0000_0000 });
    assert_ne!(sample(0.0), sample(-0.0));
    assert_eq!(sample(f64::NAN), sample(f64::NAN));
}
