use meander::sample::Sample;
use meander::signal::harmonic_to_meander;

fn samples_of(values: &[f64]) -> Vec<Sample> {
    values.iter().map(|value| Sample { bits: value.to_bits() }).collect()
}

#[test]
fn meander_is_one_exactly_where_harmonic_is_positive() {
    let values = [0.3, -0.3, 1.0, -1.0, 1e-300, -1e-300, 7.5, 0.0];
    let meander = harmonic_to_meander(&samples_of(&values));
    assert_eq!(meander, vec![1, 0, 1, 0, 1, 0, 1, 0]);
    for (level, value) in meander.iter().zip(values.iter()) {
        assert_eq!(*level == 1, *value > 0.0);
    }
}

#[test]
fn meander_maps_exact_zero_to_zero() {
    let meander = harmonic_to_meander(&samples_of(&[0.0, -0.0]));
    assert_eq!(meander, vec![0, 0]);
}

#[test]
fn meander_maps_nan_and_infinities() {
    let values = [f64::NAN, f64::INFINITY, f64::NEG_INFINITY];
    let meander = harmonic_to_meander(&samples_of(&values));
    assert_eq!(meander, vec![0, 1, 0]);
}

#[test]
fn meander_has_one_level_per_sample() {
    assert_eq!(harmonic_to_meander(&Vec::new()), Vec::<u8>::new());
    let harmonic: Vec<f64> = (0..1000).map(|i| (f64::from(i) * 0.05).sin()).collect();
    let meander = harmonic_to_meander(&samples_of(&harmonic));
    assert_eq!(meander.len(), harmonic.len());
    for (i, level) in meander.iter().enumerate() {
        assert!(*level == 0 || *level == 1);
        assert_eq!(*level == 1, harmonic[i] > 0.0, "at index {}", i);
    }
}

#[test]
fn meander_of_one_hertz_sine() {
    let period = 1.0 / 500.0;
    let harmonic: Vec<f64> = (0..8000)
        .map(|i| (2.0 * std::f64::consts::PI * 1.0 * (f64::from(i) * period)).sin())
        .collect();
    assert_eq!(harmonic.len(), 8000);
    assert_eq!(harmonic[0], 0.0);
    assert!((harmonic[125] - 1.0).abs() < 1e-12);
    let meander = harmonic_to_meander(&samples_of(&harmonic));
    assert_eq!(meander.len(), 8000);
    assert_eq!(meander[0], 0);
    assert_eq!(meander[125], 1);
    assert_eq!(meander[375], 0);
    // Half a period in, the computed sine is a tiny positive number, not zero.
    assert!(harmonic[250] > 0.0);
    assert_eq!(meander[250], 1);
}
