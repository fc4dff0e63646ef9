//! Synthetic test signals and their amplitude spectra, prepared for plotting.
//!
//! The crate covers the exact, integer part of a small signal pipeline: the
//! discrete time axis, the hard-clipped square wave derived from a harmonic,
//! the frequency axis of a discrete spectrum and its truncation to a band of
//! interest, and the bundles handed to a chart renderer. Sample values are
//! carried as binary64 bit patterns; the transcendental and transform
//! arithmetic that produces them is done by the caller.

pub mod rational;
pub mod sample;
pub mod signal;
pub mod error;
pub mod spectrum;
pub mod timeline;
pub mod plot;
pub mod pipeline;
