//! The discrete time axis of a sampled signal.

use vstd::prelude::*;
use crate::error::Error;
use crate::rational::{lemma_floor_bounds, Frac, Rational};

verus! {

/// The number of samples that fit into `duration` seconds at `rate` samples
/// per second: the product rounded down, and none for a duration that is
/// not positive. A duration that is no whole number of sample periods is
/// shortened to the last full one.
pub open spec fn sample_count(rate: int, duration: Frac) -> int {
    let whole = duration.times(rate).floor();
    if whole > 0 {
        whole
    } else {
        0
    }
}

/// The first `count` sample instants at `rate` samples per second, in
/// seconds: instant `i` is `i / rate`.
pub open spec fn instants(rate: int, count: int) -> Seq<Frac> {
    Seq::new(count as nat, |i: int| Frac { num: i, den: rate })
}

/// The sample instants of a signal: `0, 1 / rate, 2 / rate, ...`.
#[derive(Clone, Copy, Debug)]
pub struct Timeline {
    sample_rate: u32,
    len: u64,
}

impl View for Timeline {
    type V = Seq<Frac>;

    open spec fn view(&self) -> Seq<Frac> {
        instants(self.rate(), self.count())
    }
}

impl Timeline {
    #[verifier::type_invariant]
    spec fn valid(self) -> bool {
        self.sample_rate > 0
    }

    /// The number of samples per second.
    pub closed spec fn rate(&self) -> int {
        self.sample_rate as int
    }

    /// The number of instants.
    pub closed spec fn count(&self) -> int {
        self.len as int
    }

    /// The number of instants.
    pub fn len(&self) -> (n: u64)
        ensures
            n == self.count(),
            n == self@.len(),
    {
        self.len
    }

    /// The number of samples per second, which is never zero.
    pub fn sample_rate(&self) -> (rate: u32)
        ensures
            rate == self.rate(),
            rate > 0,
    {
        proof {
            use_type_invariant(self);
        }
        self.sample_rate
    }
}

/// The time axis of a signal that lasts `duration` seconds and is sampled
/// `sample_rate` times per second.
///
/// The axis starts at zero, its instants are one sample period apart, and it
/// has as many of them as whole sample periods fit into the duration: the
/// product of duration and rate, rounded down. A duration of zero or less
/// gives an empty axis. Only a zero sample rate is refused.
pub fn create_timeline(sample_rate: u32, duration: Rational) -> (r: Result<Timeline, Error>)
    ensures
        match r {
            Ok(timeline) => {
                &&& sample_rate > 0
                &&& timeline.rate() == sample_rate
                &&& timeline.count() == sample_count(sample_rate as int, duration@)
                &&& timeline@ == instants(
                    sample_rate as int,
                    sample_count(sample_rate as int, duration@),
                )
                &&& duration@.num > 0 ==> timeline@.len() == duration@.times(
                    sample_rate as int,
                ).floor()
                &&& duration@.num <= 0 ==> timeline@.len() == 0
                &&& timeline@.len() > 0 ==> timeline@[0].same(Frac { num: 0, den: 1 })
                &&& forall|i: int|
                    0 <= i && i + 1 < timeline@.len() ==> (#[trigger] timeline@[i + 1]).minus(
                        timeline@[i],
                    ).same(Frac { num: 1, den: sample_rate as int })
            },
            Err(e) => sample_rate == 0 && e is InvalidParameter,
        },
{
    if sample_rate == 0 {
        return Err(Error::InvalidParameter);
    }
    let timeline = spanning(sample_rate, duration.numerator(), duration.denominator() as u64);
    proof {
        lemma_evenly_spaced(sample_rate as int, timeline.count());
        if duration@.num > 0 {
            lemma_sample_count_is_floor(sample_rate as int, duration@);
        } else {
            lemma_no_samples_without_duration(sample_rate as int, duration@);
        }
    }
    Ok(timeline)
}

/// The time axis of a signal that lasts `num / den` seconds at `sample_rate`
/// samples per second.
pub(crate) fn spanning(sample_rate: u32, num: i32, den: u64) -> (timeline: Timeline)
    requires
        sample_rate > 0,
        den > 0,
    ensures
        timeline.rate() == sample_rate,
        timeline.count() == sample_count(
            sample_rate as int,
            Frac { num: num as int, den: den as int },
        ),
{
    let len: u64 = if num <= 0 {
        proof {
            lemma_no_samples_without_duration(
                sample_rate as int,
                Frac { num: num as int, den: den as int },
            );
        }
        0
    } else {
        assert(0 <= num * sample_rate <= 0x8000_0000 * 0x1_0000_0000) by (nonlinear_arith)
            requires
                0 < num <= 0x8000_0000,
                0 < sample_rate <= 0x1_0000_0000,
        ;
        assert((num * sample_rate) / (den as int) >= 0) by (nonlinear_arith)
            requires
                num * sample_rate >= 0,
                den > 0,
        ;
        (num as u64) * (sample_rate as u64) / den
    };
    Timeline { sample_rate, len }
}

/// The instants of a time axis start at zero, are `1 / rate` apart, and so
/// ascend.
pub proof fn lemma_evenly_spaced(rate: int, count: int)
    requires
        rate > 0,
        count >= 0,
    ensures
        count > 0 ==> instants(rate, count)[0].same(Frac { num: 0, den: 1 }),
        forall|i: int|
            0 <= i && i + 1 < count ==> (#[trigger] instants(rate, count)[i + 1]).minus(
                instants(rate, count)[i],
            ).same(Frac { num: 1, den: rate }),
        forall|i: int, j: int|
            0 <= i < j < count ==> (#[trigger] instants(rate, count)[i]).lt(
                #[trigger] instants(rate, count)[j],
            ),
{
    let axis = instants(rate, count);
    if count > 0 {
        let zero = Frac { num: 0, den: 1 };
        assert(axis[0].num * zero.den == zero.num * axis[0].den) by (nonlinear_arith)
            requires
                axis[0].num == 0,
                zero.num == 0,
        ;
    }
    assert forall|i: int, j: int| 0 <= i < j < count implies (#[trigger] axis[i]).lt(
        #[trigger] axis[j],
    ) by {
        assert(i * rate < j * rate) by (nonlinear_arith)
            requires
                i < j,
                rate > 0,
        ;
    }
    assert forall|i: int| 0 <= i && i + 1 < count implies (#[trigger] axis[i + 1]).minus(
        axis[i],
    ).same(Frac { num: 1, den: rate }) by {
        let step = axis[i + 1].minus(axis[i]);
        assert(step.num == (i + 1) * rate - i * rate);
        assert(step.den == rate * rate);
        assert(step.num * rate == 1 * step.den) by (nonlinear_arith)
            requires
                step.num == (i + 1) * rate - i * rate,
                step.den == rate * rate,
        ;
    }
}

/// For a positive duration the number of samples is the floor of
/// `duration * rate`: the one integer `n` with `n <= duration * rate < n + 1`.
pub proof fn lemma_sample_count_is_floor(rate: int, duration: Frac)
    requires
        rate > 0,
        duration.wf(),
        duration.num > 0,
    ensures
        sample_count(rate, duration) == duration.times(rate).floor(),
        (Frac { num: sample_count(rate, duration), den: 1 }).le(duration.times(rate)),
        duration.times(rate).lt(Frac { num: sample_count(rate, duration) + 1, den: 1 }),
{
    let product = duration.times(rate);
    assert(product.num / product.den >= 0) by (nonlinear_arith)
        requires
            product.num == duration.num * rate,
            product.den == duration.den,
            duration.num > 0,
            rate > 0,
            duration.den > 0,
    ;
    lemma_floor_bounds(product);
}

/// A duration of zero or less holds no sample.
pub proof fn lemma_no_samples_without_duration(rate: int, duration: Frac)
    requires
        rate > 0,
        duration.wf(),
        duration.num <= 0,
    ensures
        sample_count(rate, duration) == 0,
{
    let product = duration.times(rate);
    assert(product.num / product.den <= 0) by (nonlinear_arith)
        requires
            product.num == duration.num * rate,
            product.den == duration.den,
            duration.num <= 0,
            rate > 0,
            duration.den > 0,
    ;
}

} // verus!
