//! Plot bundles: a series, the axis it is drawn against, and its captions.

use vstd::prelude::*;
use crate::error::Error;
use crate::rational::Frac;
use crate::spectrum::FrequencyAxis;
use crate::timeline::Timeline;

verus! {

/// The horizontal axis of a plot.
#[derive(Clone, Copy, Debug)]
pub enum Axis {
    /// Sample instants, in seconds.
    Time(Timeline),
    /// Spectrum bins, in hertz.
    Frequency(FrequencyAxis),
}

impl View for Axis {
    type V = Seq<Frac>;

    open spec fn view(&self) -> Seq<Frac> {
        match self {
            Axis::Time(timeline) => timeline@,
            Axis::Frequency(axis) => axis@,
        }
    }
}

impl Axis {
    /// The number of positions on the axis.
    pub fn len(&self) -> (n: u64)
        ensures
            n == self@.len(),
    {
        match self {
            Axis::Time(timeline) => timeline.len(),
            Axis::Frequency(axis) => axis.len() as u64,
        }
    }
}

/// What a plot bundle holds.
pub struct Plot<T> {
    /// The vertical values, one per position of the axis.
    pub series: Seq<T>,
    /// The horizontal positions.
    pub axis: Seq<Frac>,
    /// The caption of the chart.
    pub title: Seq<char>,
    /// The caption of the horizontal axis.
    pub x_label: Seq<char>,
    /// The caption of the vertical axis.
    pub y_label: Seq<char>,
}

/// Everything a renderer needs for one chart. The series and the axis have
/// the same length, so that position `i` of the axis belongs to value `i` of
/// the series. A bundle does not change once it is made.
#[derive(Debug)]
pub struct PlotBundle<T> {
    series: Vec<T>,
    axis: Axis,
    title: &'static str,
    x_label: &'static str,
    y_label: &'static str,
}

impl<T> View for PlotBundle<T> {
    type V = Plot<T>;

    closed spec fn view(&self) -> Plot<T> {
        Plot {
            series: self.series@,
            axis: self.axis@,
            title: self.title@,
            x_label: self.x_label@,
            y_label: self.y_label@,
        }
    }
}

impl<T> PlotBundle<T> {
    #[verifier::type_invariant]
    spec fn aligned(self) -> bool {
        self.series@.len() == self.axis@.len()
    }

    /// Bundles a series with its axis and captions. A series whose length
    /// differs from the axis's is refused.
    pub fn new(
        series: Vec<T>,
        axis: Axis,
        title: &'static str,
        x_label: &'static str,
        y_label: &'static str,
    ) -> (r: Result<PlotBundle<T>, Error>)
        ensures
            match r {
                Ok(bundle) => {
                    &&& series@.len() == axis@.len()
                    &&& bundle@ == (Plot {
                        series: series@,
                        axis: axis@,
                        title: title@,
                        x_label: x_label@,
                        y_label: y_label@,
                    })
                },
                Err(e) => {
                    &&& series@.len() != axis@.len()
                    &&& e matches Error::LengthMismatch { found, expected }
                    &&& found == series@.len()
                    &&& expected == axis@.len()
                },
            },
    {
        let found: u64 = series.len() as u64;
        let expected: u64 = axis.len();
        if found != expected {
            return Err(Error::LengthMismatch { found, expected });
        }
        Ok(PlotBundle { series, axis, title, x_label, y_label })
    }

    /// The vertical values.
    pub fn series(&self) -> (series: &Vec<T>)
        ensures
            series@ == self@.series,
            series@.len() == self@.axis.len(),
    {
        proof {
            use_type_invariant(self);
        }
        &self.series
    }

    /// The horizontal axis.
    pub fn axis(&self) -> (axis: &Axis)
        ensures
            axis@ == self@.axis,
    {
        &self.axis
    }

    /// The caption of the chart.
    pub fn title(&self) -> (title: &'static str)
        ensures
            title@ == self@.title,
    {
        self.title
    }

    /// The caption of the horizontal axis.
    pub fn x_label(&self) -> (label: &'static str)
        ensures
            label@ == self@.x_label,
    {
        self.x_label
    }

    /// The caption of the vertical axis.
    pub fn y_label(&self) -> (label: &'static str)
        ensures
            label@ == self@.y_label,
    {
        self.y_label
    }
}

} // verus!
