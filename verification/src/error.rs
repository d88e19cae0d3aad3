//! Failure conditions of the transforms.

use vstd::prelude::*;

verus! {

/// What can go wrong in a transform.
#[derive(Clone, Copy, Debug, PartialEq, Eq)]
pub enum AudioError {
    /// A derived delay-buffer length came out as 0; indexing modulo 0 is
    /// undefined, so the request is rejected before any filtering starts.
    InvalidParameter,
    /// A resample request with `new_sample_rate == 0` or a target rate above
    /// the source rate; nothing is computed for it.
    DegenerateResample,
    /// The ring modulator was asked for more samples than the input supplies;
    /// the transform stops early and returns the shorter result.
    SignalExhausted,
    /// The operating system's randomness source failed to produce a value.
    RandomSourceFailed,
}

} // verus!
