//! A finite stereo audio-frame buffer: an ordered sequence of two-channel
//! frames, built from a position-indexed generator or filled one frame at a
//! time by a downmix conversion, with random-access lookup and a
//! streaming-source query of its own.

pub mod frame;
pub mod generator;
pub mod signal;
