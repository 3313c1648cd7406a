//! A multi-band parametric equalizer for single-channel audio: a bank of
//! second-order recursive filters, one per band, cascaded sample by sample.
//!
//! Every real quantity (a sample, a coefficient, a frequency, a gain) is held
//! as the 32-bit encoding of an IEEE 754 binary32 number. The library decides
//! which operations are carried out on which operands and in which order; the
//! operations themselves are supplied by the caller as an arithmetic unit
//! (see [`arithmetic`]). All contracts are stated relative to that unit.

pub mod arithmetic;
pub mod biquad;
pub mod cascade;
pub mod equalizer;
pub mod laws;

pub use arithmetic::Operation;
pub use biquad::{BiquadFilter, Coefficients, History};
pub use equalizer::{ConfigurationError, Equalizer};
