//! The amplitude spectrum of a signal: which transform outputs are kept,
//! the frequency each kept bin stands for, and the truncation of both to a
//! band of interest.

use vstd::prelude::*;
use crate::error::Error;
use crate::rational::{lemma_le_lt_trans, Frac, Rational};
use crate::sample::Sample;

verus! {

/// The frequency, in hertz, of bin `i` of the spectrum of `samples` samples
/// taken at `rate` samples per second: `i * rate / samples`.
pub open spec fn bin(rate: int, samples: int, i: int) -> Frac {
    Frac { num: i * rate, den: samples }
}

/// The frequencies of the non-negative half of a discrete spectrum: bins
/// `0 .. samples / 2`, the upper bound excluded.
pub open spec fn bins(rate: int, samples: int) -> Seq<Frac> {
    Seq::new((samples / 2) as nat, |i: int| bin(rate, samples, i))
}

/// `j` is the first index of `axis` whose frequency is at least `ceiling`.
pub open spec fn is_band_end(axis: Seq<Frac>, ceiling: Frac, j: int) -> bool {
    &&& 0 <= j < axis.len()
    &&& ceiling.le(axis[j])
    &&& forall|i: int| 0 <= i < j ==> (#[trigger] axis[i]).lt(ceiling)
}

/// No frequency of `axis` is as high as `ceiling`.
pub open spec fn band_unattainable(axis: Seq<Frac>, ceiling: Frac) -> bool {
    forall|i: int| 0 <= i < axis.len() ==> (#[trigger] axis[i]).lt(ceiling)
}

/// Every frequency of `axis` is a proper fraction, and each is higher than
/// the one before it.
pub open spec fn ascending(axis: Seq<Frac>) -> bool {
    &&& forall|i: int| 0 <= i < axis.len() ==> (#[trigger] axis[i]).wf()
    &&& forall|i: int, j: int|
        0 <= i < j < axis.len() ==> (#[trigger] axis[i]).lt(#[trigger] axis[j])
}

/// The frequency axis of a spectrum, or a leading part of it. Bin `i` stands
/// for `i * rate / samples` hertz, where `samples` is the length of the
/// analysed signal.
#[derive(Clone, Copy, Debug)]
pub struct FrequencyAxis {
    sample_rate: u32,
    samples: usize,
    len: usize,
}

impl View for FrequencyAxis {
    type V = Seq<Frac>;

    open spec fn view(&self) -> Seq<Frac> {
        bins(self.rate(), self.samples()).take(self.count())
    }
}

impl FrequencyAxis {
    #[verifier::type_invariant]
    spec fn valid(self) -> bool {
        self.wf()
    }

    /// The sample rate of the analysed signal, in hertz.
    pub closed spec fn rate(&self) -> int {
        self.sample_rate as int
    }

    /// The length of the analysed signal.
    pub closed spec fn samples(&self) -> int {
        self.samples as int
    }

    /// The number of bins on the axis.
    pub closed spec fn count(&self) -> int {
        self.len as int
    }

    /// The sample rate is positive and the axis lies within the non-negative
    /// half of the spectrum.
    pub open spec fn wf(&self) -> bool {
        &&& self.rate() > 0
        &&& 0 <= self.count() <= self.samples() / 2
    }

    /// The full axis for a signal of `samples` samples taken at
    /// `sample_rate` hertz: `samples / 2` bins. A zero sample rate is refused.
    pub fn new(samples: usize, sample_rate: u32) -> (r: Result<FrequencyAxis, Error>)
        ensures
            match r {
                Ok(axis) => {
                    &&& sample_rate > 0
                    &&& axis.wf()
                    &&& axis.rate() == sample_rate
                    &&& axis.samples() == samples
                    &&& axis.count() == samples / 2
                    &&& axis@ == bins(sample_rate as int, samples as int)
                },
                Err(e) => sample_rate == 0 && e is InvalidParameter,
            },
    {
        if sample_rate == 0 {
            return Err(Error::InvalidParameter);
        }
        let axis = FrequencyAxis { sample_rate, samples, len: samples / 2 };
        assert(axis@ =~= bins(sample_rate as int, samples as int));
        Ok(axis)
    }

    /// The number of bins on the axis.
    pub fn len(&self) -> (n: usize)
        ensures
            n == self.count(),
            n == self@.len(),
    {
        proof {
            use_type_invariant(self);
        }
        self.len
    }

    /// The sample rate of the analysed signal, in hertz.
    pub fn sample_rate(&self) -> (rate: u32)
        ensures
            rate == self.rate(),
            rate > 0,
    {
        proof {
            use_type_invariant(self);
        }
        self.sample_rate
    }

    /// The length of the analysed signal.
    pub fn signal_len(&self) -> (n: usize)
        ensures
            n == self.samples(),
    {
        self.samples
    }

    /// Whether bin `i` is at or above `ceiling`.
    fn reaches(&self, i: usize, ceiling: &Rational) -> (b: bool)
        requires
            i < self@.len(),
        ensures
            b == ceiling@.le(self@[i as int]),
    {
        proof {
            use_type_invariant(self);
        }
        let p: i32 = ceiling.numerator();
        let q: u32 = ceiling.denominator();
        assert(self@[i as int] == bin(self.rate(), self.samples(), i as int));
        if p <= 0 {
            assert(p * self.samples <= 0 <= (i * self.sample_rate) * q) by (nonlinear_arith)
                requires
                    p <= 0,
                    self.samples >= 0,
                    i >= 0,
                    self.sample_rate >= 0,
                    q >= 0,
            ;
            true
        } else {
            assert(p * self.samples <= 0x8000_0000 * 0x1_0000_0000_0000_0000) by (nonlinear_arith)
                requires
                    0 < p <= 0x8000_0000,
                    0 <= self.samples <= 0x1_0000_0000_0000_0000,
            ;
            assert(i * self.sample_rate <= 0x8000_0000_0000_0000 * 0x1_0000_0000)
                by (nonlinear_arith)
                requires
                    0 <= i <= 0x8000_0000_0000_0000,
                    0 <= self.sample_rate <= 0x1_0000_0000,
            ;
            assert((i * self.sample_rate) * q <= (0x8000_0000_0000_0000 * 0x1_0000_0000)
                * 0x1_0000_0000) by (nonlinear_arith)
                requires
                    0 <= i * self.sample_rate <= 0x8000_0000_0000_0000 * 0x1_0000_0000,
                    0 <= q <= 0x1_0000_0000,
            ;
            let demand: u128 = (p as u128) * (self.samples as u128);
            let supply: u128 = (i as u128) * (self.sample_rate as u128) * (q as u128);
            demand <= supply
        }
    }

    /// The first bin that is at or above `ceiling`, if the axis has one.
    /// The search walks the axis from bin 0 and stops at the first hit.
    pub fn band_end(&self, ceiling: &Rational) -> (r: Option<usize>)
        ensures
            match r {
                Some(j) => is_band_end(self@, ceiling@, j as int),
                None => band_unattainable(self@, ceiling@),
            },
    {
        let n: usize = self.len();
        let mut i: usize = 0;
        while i < n
            invariant
                n == self@.len(),
                i <= n,
                forall|k: int| 0 <= k < i ==> (#[trigger] self@[k]).lt(ceiling@),
            decreases n - i,
        {
            if self.reaches(i, ceiling) {
                return Some(i);
            }
            i += 1;
        }
        None
    }

    /// The first `len` bins of the axis.
    fn truncated(&self, len: usize) -> (r: FrequencyAxis)
        requires
            len <= self@.len(),
        ensures
            r.wf(),
            r.rate() == self.rate(),
            r.samples() == self.samples(),
            r.count() == len,
            r@ == self@.take(len as int),
    {
        proof {
            use_type_invariant(self);
        }
        let r = FrequencyAxis { sample_rate: self.sample_rate, samples: self.samples, len };
        assert(r@ =~= self@.take(len as int));
        r
    }
}

/// The bins of a spectrum that a plot shows: of the `n` transform outputs of
/// an `n`-sample signal the first `n / 2`, which hold the non-negative
/// frequencies. The mirrored upper half is dropped.
pub fn signal_spectrum(magnitudes: &Vec<Sample>) -> (spectrum: Vec<Sample>)
    ensures
        spectrum@ == magnitudes@.take(magnitudes@.len() as int / 2),
{
    keep_first(magnitudes, magnitudes.len() / 2)
}

/// A copy of the first `len` samples of `series`.
fn keep_first(series: &Vec<Sample>, len: usize) -> (kept: Vec<Sample>)
    requires
        len <= series@.len(),
    ensures
        kept@ == series@.take(len as int),
{
    let mut kept: Vec<Sample> = Vec::new();
    let mut i: usize = 0;
    while i < len
        invariant
            i <= len <= series@.len(),
            kept@ == series@.take(i as int),
        decreases len - i,
    {
        kept.push(series[i]);
        i += 1;
        assert(kept@ =~= series@.take(i as int));
    }
    kept
}

/// What an analysis owes for the magnitudes of a signal's transform, the
/// signal's sample rate and a band ceiling.
///
/// With a positive sample rate and a bin that reaches the ceiling, the
/// result is the spectrum and its axis, both cut just before the first such
/// bin. A zero sample rate is an invalid parameter. Where no bin reaches the
/// ceiling the band is unattainable, and the error names the ceiling and the
/// number of bins there are.
pub open spec fn analysis_of(
    magnitudes: Seq<Sample>,
    sample_rate: u32,
    max_freq: Frac,
    r: Result<(Vec<Sample>, FrequencyAxis), Error>,
) -> bool {
    let n = magnitudes.len() as int;
    let full = bins(sample_rate as int, n);
    match r {
        Ok((spectrum, axis)) => {
            &&& sample_rate > 0
            &&& axis.wf()
            &&& axis.rate() == sample_rate
            &&& axis.samples() == n
            &&& is_band_end(full, max_freq, axis.count())
            &&& spectrum@ == magnitudes.take(axis.count())
        },
        Err(Error::InvalidParameter) => sample_rate == 0,
        Err(Error::BandUnattainable { requested, bins: available }) => {
            &&& sample_rate > 0
            &&& band_unattainable(full, max_freq)
            &&& requested@ == max_freq
            &&& available == n / 2
        },
        Err(Error::LengthMismatch { .. }) => false,
    }
}

/// The amplitude spectrum of a signal up to a band ceiling, with the
/// frequency of each bin.
///
/// `magnitudes` holds the magnitudes of the discrete Fourier transform of the
/// signal, one per transform output and in the transform's order: the zero
/// frequency first, the mirrored negative frequencies in the upper half.
/// `sample_rate` is the rate in hertz at which the signal was sampled and
/// `max_freq` the ceiling in hertz.
///
/// The lower half of the magnitudes is paired with the frequencies
/// `i * sample_rate / n`, and both are cut at the first bin whose frequency
/// is `max_freq` or more; that bin itself is not kept. Spectrum and axis come
/// back with equal length and matching indices.
pub fn analyze(magnitudes: &Vec<Sample>, sample_rate: u32, max_freq: Rational) -> (r: Result<
    (Vec<Sample>, FrequencyAxis),
    Error,
>)
    ensures
        analysis_of(magnitudes@, sample_rate, max_freq@, r),
        r matches Ok((spectrum, axis)) ==> {
            &&& spectrum@.len() == axis@.len()
            &&& axis@ == bins(sample_rate as int, magnitudes@.len() as int).take(
                axis@.len() as int,
            )
            &&& spectrum@ == magnitudes@.take(axis@.len() as int)
        },
{
    let full = match FrequencyAxis::new(magnitudes.len(), sample_rate) {
        Ok(axis) => axis,
        Err(_) => {
            return Err(Error::InvalidParameter);
        },
    };
    let raw = signal_spectrum(magnitudes);
    match full.band_end(&max_freq) {
        Some(j) => {
            let axis = full.truncated(j);
            let spectrum = keep_first(&raw, j);
            assert(spectrum@ =~= magnitudes@.take(j as int));
            Ok((spectrum, axis))
        },
        None => Err(Error::BandUnattainable { requested: max_freq, bins: full.len() }),
    }
}

/// The bins of a spectrum start at zero hertz and ascend.
pub proof fn lemma_bins_ascending(rate: int, samples: int)
    requires
        rate > 0,
        samples >= 0,
    ensures
        ascending(bins(rate, samples)),
        samples >= 2 ==> bins(rate, samples)[0].same(Frac { num: 0, den: 1 }),
{
    let axis = bins(rate, samples);
    if samples >= 2 {
        let zero = Frac { num: 0, den: 1 };
        assert(axis[0] == bin(rate, samples, 0));
        assert(axis[0].num * zero.den == zero.num * axis[0].den) by (nonlinear_arith)
            requires
                axis[0].num == 0 * rate,
                zero.num == 0,
        ;
    }
    assert forall|i: int, j: int| 0 <= i < j < axis.len() implies (#[trigger] axis[i]).lt(
        #[trigger] axis[j],
    ) by {
        assert((i * rate) * samples < (j * rate) * samples) by (nonlinear_arith)
            requires
                0 <= i < j,
                rate > 0,
                samples > 0,
        ;
    }
}

/// Truncation boundary. On an ascending axis, cutting at the first frequency
/// that is `ceiling` or more keeps exactly the frequencies below `ceiling`:
/// every kept one is below it, the last kept one included, and every dropped
/// one is at or above it, the first dropped one included. No other index is
/// such a cut.
pub proof fn lemma_truncation_boundary(axis: Seq<Frac>, ceiling: Frac, j: int)
    requires
        ascending(axis),
        ceiling.wf(),
        is_band_end(axis, ceiling, j),
    ensures
        forall|i: int| 0 <= i < axis.len() ==> (i < j <==> (#[trigger] axis[i]).lt(ceiling)),
        j > 0 ==> axis[j - 1].lt(ceiling),
        ceiling.le(axis[j]),
        forall|k: int| is_band_end(axis, ceiling, k) ==> k == j,
{
    assert forall|i: int| 0 <= i < axis.len() implies (i < j <==> (#[trigger] axis[i]).lt(
        ceiling,
    )) by {
        if i > j {
            assert(axis[j].lt(axis[i]));
            lemma_le_lt_trans(ceiling, axis[j], axis[i]);
        }
    }
    assert forall|k: int| is_band_end(axis, ceiling, k) implies k == j by {
        if k < j {
            assert(axis[k].lt(ceiling));
        } else if j < k {
            assert(axis[j].lt(ceiling));
        }
    }
}

/// An analysis has one outcome. Two results that both are what `analyze`
/// owes for the same magnitudes, sample rate and ceiling agree: both succeed
/// or both fail, with the same spectrum on the same axis, or with the same
/// error.
pub proof fn lemma_analysis_unique(
    magnitudes: Seq<Sample>,
    sample_rate: u32,
    max_freq: Frac,
    first: Result<(Vec<Sample>, FrequencyAxis), Error>,
    second: Result<(Vec<Sample>, FrequencyAxis), Error>,
)
    requires
        max_freq.wf(),
        analysis_of(magnitudes, sample_rate, max_freq, first),
        analysis_of(magnitudes, sample_rate, max_freq, second),
    ensures
        match (first, second) {
            (Ok((s1, a1)), Ok((s2, a2))) => s1@ == s2@ && a1 == a2 && a1@ == a2@,
            (Err(Error::InvalidParameter), Err(Error::InvalidParameter)) => true,
            (
                Err(Error::BandUnattainable { requested: r1, bins: b1 }),
                Err(Error::BandUnattainable { requested: r2, bins: b2 }),
            ) => r1@ == r2@ && b1 == b2,
            _ => false,
        },
{
    if let Ok((_, axis)) = first {
        let full = bins(sample_rate as int, magnitudes.len() as int);
        lemma_bins_ascending(sample_rate as int, magnitudes.len() as int);
        lemma_truncation_boundary(full, max_freq, axis.count());
    }
}

} // verus!
