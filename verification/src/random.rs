//! The randomness the Schroeder cascade draws its stage delays from. The
//! operating system's generator is reached through `getrandom`; everything
//! proved about a draw holds whatever value came back.

use vstd::prelude::*;

use crate::error::AudioError;

verus! {

/// Declares `getrandom::Error`, the error the operating system's randomness
/// source can report, so that it can appear in signatures here.
#[verifier::external_type_specification]
#[verifier::external_body]
pub struct ExGetrandomError(getrandom::Error);

/// Relies on `getrandom::u32`: a random value from the system's preferred
/// randomness source. Nothing can be promised of the value itself.
pub assume_specification[ getrandom::u32 ]() -> (r: Result<u32, getrandom::Error>);

/// A percentage drawn uniformly-at-machine-random from `0..100`, or
/// `RandomSourceFailed` if the operating system's source reports an error.
/// The Schroeder cascade maps such a draw onto its per-stage delay interval,
/// so the bound proved here is what keeps every drawn delay inside that
/// interval.
pub fn draw_percent() -> (r: Result<u8, AudioError>)
    ensures
        r matches Ok(p) ==> p < 100,
        r matches Err(e) ==> e == AudioError::RandomSourceFailed,
{
    match getrandom::u32() {
        Ok(v) => Ok((v % 100) as u8),
        Err(_) => Err(AudioError::RandomSourceFailed),
    }
}

/// One percentage draw per cascade stage: `stages` independent values, each
/// in `0..100`. Fails with `RandomSourceFailed` only if the operating
/// system's source does; a zero-stage cascade needs no randomness, so it
/// always succeeds with an empty draw list.
pub fn draw_stage_percents(stages: u32) -> (r: Result<Vec<u8>, AudioError>)
    ensures
        r matches Ok(v) ==> {
            &&& v@.len() == stages
            &&& forall|k: int| 0 <= k < stages ==> #[trigger] v@[k] < 100
        },
        r matches Err(e) ==> e == AudioError::RandomSourceFailed,
        stages == 0 ==> r is Ok,
{
    let mut v: Vec<u8> = Vec::new();
    let mut i: u32 = 0;
    while i < stages
        invariant
            i <= stages,
            v@.len() == i,
            forall|k: int| 0 <= k < i ==> #[trigger] v@[k] < 100,
        decreases stages - i,
    {
        match draw_percent() {
            Ok(p) => v.push(p),
            Err(e) => {
                return Err(e);
            },
        }
        i = i + 1;
    }
    Ok(v)
}

} // verus!
