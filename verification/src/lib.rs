//! A real-time synthesizer core: waveform selection, block assembly and the
//! bounded pipeline that carries samples from a generator to an audio sink.
//!
//! Samples travel through this crate as the 32-bit patterns of their
//! IEEE-754 single-precision values, so that every function here works on
//! integers only.

pub mod block;
pub mod ring;
pub mod session;
pub mod terminal;
pub mod wave;
