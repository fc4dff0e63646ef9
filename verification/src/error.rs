//! The ways in which a request to the pipeline can fail.

use vstd::prelude::*;
use crate::rational::Rational;

verus! {

/// Why a pipeline step refused its input.
#[derive(Clone, Copy, Debug)]
pub enum Error {
    /// A sample rate or a test frequency was zero.
    InvalidParameter,
    /// No bin of the available spectrum reaches the requested band ceiling.
    /// `requested` is that ceiling in hertz and `bins` the number of bins the
    /// spectrum has, so that a caller can fall back to the whole band.
    BandUnattainable { requested: Rational, bins: usize },
    /// A series has not the length that the axis or signal it belongs to
    /// calls for.
    LengthMismatch { found: u64, expected: u64 },
}

} // verus!
