//! Signal-conditioning and decision core for a multichannel bioelectric
//! control pipeline: a per-channel IIR filter bank, a deterministic pattern
//! decoder, an amplitude-calibration controller, and an adaptively calibrated
//! statistical gate over classifier output.
//!
//! All signal amplitudes are fixed-point integers in thousandths of a
//! microvolt, and all probabilities are fixed-point integers in parts per
//! million, so that every numeric step of the pipeline is exact and verified.
//! Converting to and from hardware floating-point values happens outside this
//! crate.

pub mod board;
pub mod calib;
pub mod classifier;
pub mod decoder;
pub mod engine;
pub mod filter;
pub mod fixed;
pub mod gate;
pub mod gatecal;
pub mod lang;
pub mod trig;
pub mod types;
