//! Offline audio-effect transforms over integer PCM signals: a decimating
//! resampler, the integer bookkeeping of a diffusion/reverb cascade (silence
//! tail, stage lengths, random stage draws), and the truncation policy of a
//! ring modulator. The floating-point sample kernels themselves run in the
//! unverified shell around this library.

pub mod delay;
pub mod error;
pub mod filter;
pub mod random;
pub mod resample;
pub mod ring_mod;
