use meander::error::Error;
use meander::pipeline::{bundle_plots, Config};
use meander::plot::Axis;
use meander::rational::Rational;
use meander::sample::Sample;
use meander::signal::harmonic_to_meander;
use meander::timeline::Timeline;
use rustfft::num_complex::Complex;
use rustfft::FftPlanner;

fn harmonic_on(freq: f64, timeline: &Timeline) -> Vec<f64> {
    let period = 1.0 / f64::from(timeline.sample_rate());
    (0..timeline.len())
        .map(|i| (2.0 * std::f64::consts::PI * freq * (i as f64 * period)).sin())
        .collect()
}

fn as_samples(values: &[f64]) -> Vec<Sample> {
    values.iter().map(|value| Sample { bits: value.to_bits() }).collect()
}

fn magnitudes_of(signal: &[f64]) -> Vec<Sample> {
    let mut planner = FftPlanner::<f64>::new();
    let fft = planner.plan_fft_forward(signal.len());
    let mut buffer: Vec<Complex<f64>> = signal.iter().map(|x| Complex::new(*x, 0.0)).collect();
    fft.process(&mut buffer);
    buffer.iter().map(|c| Sample { bits: c.norm().to_bits() }).collect()
}

fn zeros(len: usize) -> Vec<Sample> {
    vec![Sample { bits: 0 }; len]
}

fn narrow_config(harmonic_band: i32, square_band: i32) -> Config {
    Config {
        harmonic_band: Rational::from_int(harmonic_band),
        square_band: Rational::from_int(square_band),
        test_freqs: vec![1],
        sample_rate: 100,
        base_duration: Rational::from_int(1),
    }
}

#[test]
fn default_config_values() {
    let config = Config::default();
    assert_eq!(config.harmonic_band.numerator(), 15);
    assert_eq!(config.harmonic_band.denominator(), 1);
    assert_eq!(config.square_band.numerator(), 120);
    assert_eq!(config.square_band.denominator(), 1);
    assert_eq!(config.test_freqs, vec![1, 2, 4, 8]);
    assert_eq!(config.sample_rate, 500);
    assert_eq!(config.base_duration.numerator(), 16);
    assert_eq!(config.base_duration.denominator(), 1);
}

#[test]
fn timeline_for_divides_the_base_duration() {
    let config = Config::default();
    let counts: Vec<u64> = config
        .test_freqs
        .iter()
        .map(|freq| config.timeline_for(*freq).expect("valid parameters").len())
        .collect();
    assert_eq!(counts, vec![8000, 4000, 2000, 1000]);
    assert_eq!(config.timeline_for(3).expect("valid parameters").len(), 2666);
    assert_eq!(config.timeline_for(8001).expect("valid parameters").len(), 0);
    assert_eq!(config.timeline_for(7).expect("valid parameters").sample_rate(), 500);
}

#[test]
fn timeline_for_refuses_zero_frequency_and_zero_rate() {
    let config = Config::default();
    assert!(matches!(config.timeline_for(0), Err(Error::InvalidParameter)));
    let mut silent = Config::default();
    silent.sample_rate = 0;
    assert!(matches!(silent.timeline_for(1), Err(Error::InvalidParameter)));
    assert!(matches!(silent.timeline_for(0), Err(Error::InvalidParameter)));
}

#[test]
fn timeline_for_negative_base_duration_is_empty() {
    let mut config = Config::default();
    config.base_duration = Rational::from_int(-16);
    assert_eq!(config.timeline_for(1).expect("valid parameters").len(), 0);
    config.base_duration = Rational::from_int(0);
    assert_eq!(config.timeline_for(1).expect("valid parameters").len(), 0);
}

#[test]
fn timeline_for_fractional_base_duration() {
    let mut config = Config::default();
    // 2.5 s at 1 Hz: 5/6 s at 3 Hz, which holds 416 samples and two thirds.
    config.base_duration = Rational::new(5, 2).expect("a nonzero denominator");
    assert_eq!(config.timeline_for(1).expect("valid parameters").len(), 1250);
    assert_eq!(config.timeline_for(3).expect("valid parameters").len(), 416);
    // The divided duration need not fit a 32-bit denominator.
    config.base_duration = Rational::new(i32::MAX, u32::MAX).expect("a nonzero denominator");
    config.sample_rate = u32::MAX;
    assert_eq!(config.timeline_for(u32::MAX).expect("valid parameters").len(), 0);
    assert_eq!(config.timeline_for(1).expect("valid parameters").len(), i32::MAX as u64);
    assert_eq!(config.timeline_for(2).expect("valid parameters").len(), (i32::MAX / 2) as u64);
}

#[test]
fn timeline_for_agrees_with_double_precision_division() {
    let config = Config::default();
    for freq in 1u32..=200 {
        let duration = 16.0 / f64::from(freq);
        let expected = (duration * 500.0) as i32;
        let timeline = config.timeline_for(freq).expect("valid parameters");
        assert_eq!(timeline.len(), expected as u64, "at {} Hz", freq);
    }
}

#[test]
fn bundles_of_the_default_sweep() {
    let config = Config::default();
    let expected_bins = [(240usize, 1920usize), (120, 960), (60, 480), (30, 240)];
    for (freq, (harmonic_bins, meander_bins)) in config.test_freqs.iter().zip(expected_bins) {
        let timeline = config.timeline_for(*freq).expect("valid parameters");
        let harmonic = harmonic_on(f64::from(*freq), &timeline);
        let samples = as_samples(&harmonic);
        let meander = harmonic_to_meander(&samples);
        let levels: Vec<f64> = meander.iter().map(|level| f64::from(*level)).collect();
        let harmonic_magnitudes = magnitudes_of(&harmonic);
        let meander_magnitudes = magnitudes_of(&levels);
        let set = bundle_plots(
            &config,
            timeline,
            samples.clone(),
            &harmonic_magnitudes,
            &meander_magnitudes,
        )
        .expect("attainable bands");

        assert_eq!(set.harmonic.title(), "harmonic signal");
        assert_eq!(set.harmonic.x_label(), "time");
        assert_eq!(set.harmonic.y_label(), "amplitude");
        assert_eq!(set.harmonic.series(), &samples);
        assert!(matches!(set.harmonic.axis(), Axis::Time(_)));
        assert_eq!(set.harmonic.axis().len(), timeline.len());

        assert_eq!(set.meander.title(), "meander signal");
        assert_eq!(set.meander.x_label(), "time");
        assert_eq!(set.meander.y_label(), "amplitude");
        assert_eq!(set.meander.series(), &meander);
        assert!(matches!(set.meander.axis(), Axis::Time(_)));
        assert_eq!(set.meander.axis().len(), timeline.len());

        assert_eq!(set.harmonic_spectrum.title(), "spectrum of harmonic signal");
        assert_eq!(set.harmonic_spectrum.x_label(), "frequency");
        assert_eq!(set.harmonic_spectrum.y_label(), "amplitude");
        assert_eq!(set.harmonic_spectrum.series(), &harmonic_magnitudes[..harmonic_bins].to_vec());
        assert!(matches!(set.harmonic_spectrum.axis(), Axis::Frequency(_)));
        assert_eq!(set.harmonic_spectrum.axis().len(), harmonic_bins as u64);

        assert_eq!(set.meander_spectrum.title(), "spectrum of meander signal");
        assert_eq!(set.meander_spectrum.x_label(), "frequency");
        assert_eq!(set.meander_spectrum.y_label(), "amplitude");
        assert_eq!(set.meander_spectrum.series(), &meander_magnitudes[..meander_bins].to_vec());
        assert!(matches!(set.meander_spectrum.axis(), Axis::Frequency(_)));
        assert_eq!(set.meander_spectrum.axis().len(), meander_bins as u64);

        if let Axis::Frequency(axis) = set.meander_spectrum.axis() {
            assert_eq!(axis.sample_rate(), 500);
            assert_eq!(axis.signal_len() as u64, timeline.len());
        }
    }
}

#[test]
fn bundles_refuse_a_harmonic_off_the_timeline() {
    let config = narrow_config(15, 40);
    let timeline = config.timeline_for(1).expect("valid parameters");
    assert_eq!(timeline.len(), 100);
    let r = bundle_plots(&config, timeline, zeros(99), &zeros(99), &zeros(99));
    assert!(matches!(r, Err(Error::LengthMismatch { found: 99, expected: 100 })));
    let r = bundle_plots(&config, timeline, zeros(101), &zeros(100), &zeros(100));
    assert!(matches!(r, Err(Error::LengthMismatch { found: 101, expected: 100 })));
}

#[test]
fn bundles_refuse_a_transform_off_the_signal() {
    let config = narrow_config(15, 40);
    let timeline = config.timeline_for(1).expect("valid parameters");
    let r = bundle_plots(&config, timeline, zeros(100), &zeros(98), &zeros(97));
    assert!(matches!(r, Err(Error::LengthMismatch { found: 98, expected: 100 })));
    let r = bundle_plots(&config, timeline, zeros(100), &zeros(100), &zeros(97));
    assert!(matches!(r, Err(Error::LengthMismatch { found: 97, expected: 100 })));
}

#[test]
fn bundles_report_the_band_that_is_out_of_reach() {
    // 100 samples at 100 Hz: bins of 1 Hz up to 49 Hz.
    let timeline = narrow_config(15, 40).timeline_for(1).expect("valid parameters");
    let attempt = |harmonic_band: i32, square_band: i32| {
        let config = narrow_config(harmonic_band, square_band);
        bundle_plots(&config, timeline, zeros(100), &zeros(100), &zeros(100))
    };
    assert!(attempt(15, 49).is_ok());
    match attempt(15, 50) {
        Err(Error::BandUnattainable { requested, bins }) => {
            assert_eq!(requested.numerator(), 50);
            assert_eq!(bins, 50);
        },
        other => panic!("unexpected {:?}", other.map(|_| ())),
    }
    match attempt(60, 49) {
        Err(Error::BandUnattainable { requested, bins }) => {
            assert_eq!(requested.numerator(), 60);
            assert_eq!(bins, 50);
        },
        other => panic!("unexpected {:?}", other.map(|_| ())),
    }
    match attempt(60, 70) {
        Err(Error::BandUnattainable { requested, .. }) => assert_eq!(requested.numerator(), 60),
        other => panic!("unexpected {:?}", other.map(|_| ())),
    }
}

#[test]
fn bundles_of_an_empty_signal_have_no_band() {
    let config = Config::default();
    let timeline = config.timeline_for(8001).expect("valid parameters");
    assert_eq!(timeline.len(), 0);
    let r = bundle_plots(&config, timeline, zeros(0), &zeros(0), &zeros(0));
    assert!(matches!(r, Err(Error::BandUnattainable { bins: 0, .. })));
}
