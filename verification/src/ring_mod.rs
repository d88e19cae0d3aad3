//! The ring modulator's sample-count policy. The oscillator itself runs in
//! floating point and lives with the unverified shell; the decisions below —
//! how many samples are produced, and when the input counts as exhausted —
//! are fixed here.

use vstd::prelude::*;

verus! {

/// The shape of the low-frequency oscillator that modulates the carrier.
#[derive(Clone, Copy, Debug, PartialEq, Eq)]
pub enum Waveform {
    /// The carrier frequency glides smoothly with the sine of the LFO phase.
    Sinusoidal,
    /// The carrier frequency jumps between unmodulated and fully modulated,
    /// following the sign of the sine of the LFO phase (a 50%-duty square
    /// wave synchronized with the sinusoidal phase).
    Square,
}

/// How many samples the ring modulator produces: the requested count, capped
/// at the input's length. Asking for more samples than the input supplies is
/// not an error; the transform stops early and returns the shorter result.
pub fn ring_mod_output_len(sample_length: usize, signal_len: usize) -> (r: usize)
    ensures
        r == if sample_length <= signal_len {
            sample_length as int
        } else {
            signal_len as int
        },
{
    if sample_length <= signal_len {
        sample_length
    } else {
        signal_len
    }
}

/// Whether a request for `sample_length` samples runs out of input before
/// completing — the condition under which the ring modulator reports a
/// non-fatal `SignalExhausted` notice alongside its shortened result.
pub fn signal_exhausted(sample_length: usize, signal_len: usize) -> (r: bool)
    ensures
        r == (signal_len < sample_length),
{
    signal_len < sample_length
}

} // verus!
