//! The plot pipeline: for one test frequency, the time axis to synthesise
//! the harmonic on and, once the harmonic and the two transforms are there,
//! the four charts to draw.
//!
//! The pipeline computes no sine and no transform. A caller asks for the
//! time axis, produces the harmonic over it, derives the square wave with
//! [`crate::signal::harmonic_to_meander`], transforms both, and hands the
//! results back to [`bundle_plots`].

use vstd::prelude::*;
use crate::error::Error;
use crate::plot::{Axis, Plot, PlotBundle};
use crate::rational::{Frac, Rational};
use crate::sample::Sample;
use crate::signal::{harmonic_to_meander, meander_of};
use crate::spectrum::{analyze, band_unattainable, bins, is_band_end};
use crate::timeline::{instants, sample_count, spanning, Timeline};

verus! {

/// The parameters of a sweep over test frequencies.
#[derive(Debug)]
pub struct Config {
    /// The band ceiling of a harmonic's spectrum, in hertz.
    pub harmonic_band: Rational,
    /// The band ceiling of a square wave's spectrum, in hertz. Clipping
    /// spreads energy over high harmonics, so this band is the wider one.
    pub square_band: Rational,
    /// The test frequencies, in hertz.
    pub test_freqs: Vec<u32>,
    /// The number of samples per second.
    pub sample_rate: u32,
    /// The duration, in seconds, of the signal at a test frequency of one
    /// hertz.
    pub base_duration: Rational,
}

impl Default for Config {
    /// Bands of 15 and 120 hertz, test frequencies of 1, 2, 4 and 8 hertz,
    /// 500 samples per second and a base duration of 16 seconds.
    fn default() -> (config: Config)
        ensures
            config.harmonic_band@ == (Frac { num: 15, den: 1 }),
            config.square_band@ == (Frac { num: 120, den: 1 }),
            config.test_freqs@ == seq![1u32, 2u32, 4u32, 8u32],
            config.sample_rate == 500,
            config.base_duration@ == (Frac { num: 16, den: 1 }),
    {
        let mut test_freqs: Vec<u32> = Vec::new();
        test_freqs.push(1);
        test_freqs.push(2);
        test_freqs.push(4);
        test_freqs.push(8);
        assert(test_freqs@ =~= seq![1u32, 2u32, 4u32, 8u32]);
        Config {
            harmonic_band: Rational::from_int(15),
            square_band: Rational::from_int(120),
            test_freqs,
            sample_rate: 500,
            base_duration: Rational::from_int(16),
        }
    }
}

impl Config {
    /// The duration of the signal at a test frequency: the base duration
    /// divided by the frequency, so that every signal spans the same number
    /// of cycles.
    pub open spec fn duration_at(&self, freq: u32) -> Frac {
        Frac { num: self.base_duration@.num, den: self.base_duration@.den * freq }
    }

    /// The time axis of the signal at the test frequency `freq`. A zero
    /// frequency and a zero sample rate are refused.
    pub fn timeline_for(&self, freq: u32) -> (r: Result<Timeline, Error>)
        ensures
            match r {
                Ok(timeline) => {
                    &&& freq > 0
                    &&& self.sample_rate > 0
                    &&& timeline.rate() == self.sample_rate
                    &&& timeline.count() == sample_count(
                        self.sample_rate as int,
                        self.duration_at(freq),
                    )
                    &&& timeline@ == instants(
                        self.sample_rate as int,
                        sample_count(self.sample_rate as int, self.duration_at(freq)),
                    )
                },
                Err(e) => (freq == 0 || self.sample_rate == 0) && e is InvalidParameter,
            },
    {
        if freq == 0 || self.sample_rate == 0 {
            return Err(Error::InvalidParameter);
        }
        let num: i32 = self.base_duration.numerator();
        let den: u32 = self.base_duration.denominator();
        assert(0 < den * freq <= 0xffff_ffff * 0xffff_ffff) by (nonlinear_arith)
            requires
                0 < den <= 0xffff_ffff,
                0 < freq <= 0xffff_ffff,
        ;
        Ok(spanning(self.sample_rate, num, (den as u64) * (freq as u64)))
    }
}

/// The four charts of one test frequency.
#[derive(Debug)]
pub struct PlotSet {
    /// The harmonic over time.
    pub harmonic: PlotBundle<Sample>,
    /// The square wave over time.
    pub meander: PlotBundle<u8>,
    /// The spectrum of the harmonic, up to the harmonic band.
    pub harmonic_spectrum: PlotBundle<Sample>,
    /// The spectrum of the square wave, up to the square band.
    pub meander_spectrum: PlotBundle<Sample>,
}

/// The chart of a signal over time.
pub open spec fn time_plot<T>(title: Seq<char>, series: Seq<T>, timeline: Seq<Frac>) -> Plot<T> {
    Plot { series, axis: timeline, title, x_label: "time"@, y_label: "amplitude"@ }
}

/// The chart of the first `len` bins of the spectrum of a signal of
/// `magnitudes.len()` samples taken at `rate` hertz.
pub open spec fn spectrum_plot(
    title: Seq<char>,
    magnitudes: Seq<Sample>,
    rate: int,
    len: int,
) -> Plot<Sample> {
    Plot {
        series: magnitudes.take(len),
        axis: bins(rate, magnitudes.len() as int).take(len),
        title,
        x_label: "frequency"@,
        y_label: "amplitude"@,
    }
}

/// What `bundle_plots` owes.
///
/// The harmonic must have one sample per instant of the time axis, and each
/// transform one magnitude per sample; the first length that is off is
/// reported, in this order. Then the harmonic band must be attainable, then
/// the square band; the first that is not is reported with its ceiling. With
/// all that in order the four charts come back: harmonic and square wave
/// over the time axis, and each spectrum cut at its band ceiling.
pub open spec fn plots_of(
    config: Config,
    timeline: Timeline,
    harmonic: Seq<Sample>,
    harmonic_magnitudes: Seq<Sample>,
    meander_magnitudes: Seq<Sample>,
    r: Result<PlotSet, Error>,
) -> bool {
    let n = harmonic.len();
    let rate = timeline.rate();
    let full = bins(rate, n as int);
    match r {
        Ok(set) => {
            let harmonic_bins = set.harmonic_spectrum@.series.len() as int;
            let meander_bins = set.meander_spectrum@.series.len() as int;
            &&& n == timeline@.len()
            &&& n == harmonic_magnitudes.len()
            &&& n == meander_magnitudes.len()
            &&& set.harmonic@ == time_plot("harmonic signal"@, harmonic, timeline@)
            &&& set.meander@ == time_plot("meander signal"@, meander_of(harmonic), timeline@)
            &&& is_band_end(full, config.harmonic_band@, harmonic_bins)
            &&& set.harmonic_spectrum@ == spectrum_plot(
                "spectrum of harmonic signal"@,
                harmonic_magnitudes,
                rate,
                harmonic_bins,
            )
            &&& is_band_end(full, config.square_band@, meander_bins)
            &&& set.meander_spectrum@ == spectrum_plot(
                "spectrum of meander signal"@,
                meander_magnitudes,
                rate,
                meander_bins,
            )
        },
        Err(Error::LengthMismatch { found, expected }) => {
            ||| n != timeline@.len() && found == n && expected == timeline@.len()
            ||| n == timeline@.len() && harmonic_magnitudes.len() != n && found
                == harmonic_magnitudes.len() && expected == n
            ||| n == timeline@.len() && harmonic_magnitudes.len() == n && meander_magnitudes.len()
                != n && found == meander_magnitudes.len() && expected == n
        },
        Err(Error::BandUnattainable { requested, bins: available }) => {
            &&& n == timeline@.len()
            &&& n == harmonic_magnitudes.len()
            &&& n == meander_magnitudes.len()
            &&& available == n / 2
            &&& {
                ||| band_unattainable(full, config.harmonic_band@) && requested@
                    == config.harmonic_band@
                ||| !band_unattainable(full, config.harmonic_band@) && band_unattainable(
                    full,
                    config.square_band@,
                ) && requested@ == config.square_band@
            }
        },
        Err(Error::InvalidParameter) => false,
    }
}

/// Puts together the four charts of one test frequency.
///
/// `timeline` is the time axis of the signal and `harmonic` the harmonic
/// over it. `harmonic_magnitudes` and `meander_magnitudes` hold the
/// magnitudes of the discrete Fourier transforms of the harmonic and of the
/// square wave cut from it, one per transform output, the zero frequency
/// first. The band ceilings are taken from `config`.
pub fn bundle_plots(
    config: &Config,
    timeline: Timeline,
    harmonic: Vec<Sample>,
    harmonic_magnitudes: &Vec<Sample>,
    meander_magnitudes: &Vec<Sample>,
) -> (r: Result<PlotSet, Error>)
    ensures
        plots_of(*config, timeline, harmonic@, harmonic_magnitudes@, meander_magnitudes@, r),
{
    let n: u64 = harmonic.len() as u64;
    if n != timeline.len() {
        return Err(Error::LengthMismatch { found: n, expected: timeline.len() });
    }
    if harmonic_magnitudes.len() as u64 != n {
        return Err(
            Error::LengthMismatch { found: harmonic_magnitudes.len() as u64, expected: n },
        );
    }
    if meander_magnitudes.len() as u64 != n {
        return Err(Error::LengthMismatch { found: meander_magnitudes.len() as u64, expected: n });
    }
    let rate: u32 = timeline.sample_rate();
    let meander = harmonic_to_meander(&harmonic);
    let (harmonic_spectrum, harmonic_axis) = match analyze(
        harmonic_magnitudes,
        rate,
        config.harmonic_band,
    ) {
        Ok(pair) => pair,
        Err(e) => {
            return Err(e);
        },
    };
    let (meander_spectrum, meander_axis) = match analyze(
        meander_magnitudes,
        rate,
        config.square_band,
    ) {
        Ok(pair) => pair,
        Err(e) => {
            return Err(e);
        },
    };
    let harmonic_plot = PlotBundle::new(
        harmonic,
        Axis::Time(timeline),
        "harmonic signal",
        "time",
        "amplitude",
    );
    let meander_plot = PlotBundle::new(
        meander,
        Axis::Time(timeline),
        "meander signal",
        "time",
        "amplitude",
    );
    let harmonic_spectrum_plot = PlotBundle::new(
        harmonic_spectrum,
        Axis::Frequency(harmonic_axis),
        "spectrum of harmonic signal",
        "frequency",
        "amplitude",
    );
    let meander_spectrum_plot = PlotBundle::new(
        meander_spectrum,
        Axis::Frequency(meander_axis),
        "spectrum of meander signal",
        "frequency",
        "amplitude",
    );
    match (harmonic_plot, meander_plot, harmonic_spectrum_plot, meander_spectrum_plot) {
        (Ok(harmonic), Ok(meander), Ok(harmonic_spectrum), Ok(meander_spectrum)) => Ok(
            PlotSet { harmonic, meander, harmonic_spectrum, meander_spectrum },
        ),
        (Err(e), _, _, _) => Err(e),
        (_, Err(e), _, _) => Err(e),
        (_, _, Err(e), _) => Err(e),
        (_, _, _, Err(e)) => Err(e),
    }
}

} // verus!
