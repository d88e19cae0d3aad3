//! Integer bookkeeping of the diffusion/reverb engine: the silence tail that
//! gives filter energy room to decay, and the per-stage delay-buffer lengths
//! of the deterministic divisor cascade.

use vstd::prelude::*;

use crate::error::AudioError;

verus! {

/// The input signal followed by 5 seconds of silence (zero-valued samples) at
/// the given sample rate, so that a reverb tail has room to decay. Every
/// diffusion cascade pads its input this way before filtering, so its output
/// is always `5 * sample_rate` samples longer than its input.
pub fn pad_with_silence(signal: &Vec<i32>, sample_rate: u32) -> (r: Vec<i32>)
    requires
        signal@.len() + 5 * (sample_rate as int) <= usize::MAX,
    ensures
        r@.len() == signal@.len() + 5 * (sample_rate as int),
        forall|i: int| 0 <= i < signal@.len() ==> r@[i] == signal@[i],
        forall|i: int| signal@.len() <= i < r@.len() ==> r@[i] == 0i32,
{
    let mut r: Vec<i32> = Vec::new();
    let mut j: usize = 0;
    while j < signal.len()
        invariant
            j <= signal@.len(),
            r@.len() == j,
            forall|i: int| 0 <= i < j ==> r@[i] == signal@[i],
        decreases signal@.len() - j,
    {
        let s = signal[j];
        r.push(s);
        j = j + 1;
    }
    let tail: usize = 5 * (sample_rate as usize);
    let mut t: usize = 0;
    while t < tail
        invariant
            t <= tail,
            r@.len() == signal@.len() + t,
            forall|i: int| 0 <= i < signal@.len() ==> r@[i] == signal@[i],
            forall|i: int| signal@.len() <= i < r@.len() ==> r@[i] == 0i32,
        decreases tail - t,
    {
        r.push(0);
        t = t + 1;
    }
    r
}

/// Admits a derived delay-buffer length only if an all-pass filter can index
/// its buffer modulo it: a length of 0 is rejected as `InvalidParameter`,
/// never filtered with. The divisor cascade gets this from
/// `cascade_stage_lengths`; the randomized cascade, whose lengths come out of
/// a millisecond conversion, checks each one here.
pub fn check_stage_length(delay_samples: usize) -> (r: Result<usize, AudioError>)
    ensures
        r matches Ok(m) ==> m == delay_samples && delay_samples >= 1,
        r matches Err(e) ==> e == AudioError::InvalidParameter && delay_samples == 0,
{
    if delay_samples == 0 {
        Err(AudioError::InvalidParameter)
    } else {
        Ok(delay_samples)
    }
}

/// Delay-buffer lengths for the divisor cascade: stage `k` of `stages` gets a
/// buffer of `buffer_length / (offset + k)` samples, all sharing one feedback
/// value. A stage whose derived length would be 0 cannot be filtered (its
/// buffer is indexed modulo the length), so such a request is rejected as
/// `InvalidParameter` instead; this happens exactly when the last stage's
/// divisor `offset + stages - 1` exceeds `buffer_length`.
pub fn cascade_stage_lengths(buffer_length: u32, stages: u32, offset: u32) -> (r: Result<
    Vec<usize>,
    AudioError,
>)
    requires
        offset >= 1,
    ensures
        match r {
            Ok(v) => {
                &&& stages == 0 || buffer_length >= offset + stages - 1
                &&& v@.len() == stages
                &&& forall|k: int|
                    0 <= k < stages ==> #[trigger] v@[k] == buffer_length as int / (offset + k)
                &&& forall|k: int| 0 <= k < stages ==> #[trigger] v@[k] >= 1
            },
            Err(e) => {
                &&& e == AudioError::InvalidParameter
                &&& stages > 0
                &&& buffer_length < offset + stages - 1
            },
        },
{
    if stages > 0 {
        let need: u64 = offset as u64 + (stages - 1) as u64;
        if (buffer_length as u64) < need {
            return Err(AudioError::InvalidParameter);
        }
    }
    let mut v: Vec<usize> = Vec::new();
    let mut i: u32 = 0;
    while i < stages
        invariant
            offset >= 1,
            stages == 0 || buffer_length >= offset + stages - 1,
            i <= stages,
            v@.len() == i,
            forall|k: int|
                0 <= k < i ==> #[trigger] v@[k] == buffer_length as int / (offset + k),
            forall|k: int| 0 <= k < i ==> #[trigger] v@[k] >= 1,
        decreases stages - i,
    {
        let d: u64 = offset as u64 + i as u64;
        let m: u64 = buffer_length as u64 / d;
        proof {
            assert(1 <= m <= buffer_length) by (nonlinear_arith)
                requires
                    m == buffer_length as int / d as int,
                    1 <= d as int <= buffer_length as int,
            ;
        }
        v.push(m as usize);
        i = i + 1;
    }
    Ok(v)
}

} // verus!
