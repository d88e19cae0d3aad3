//! Decimating resampler: keeps every `factor`-th sample of a signal, with no
//! anti-alias filtering (aliasing is an accepted limitation of this design).

use vstd::prelude::*;

use crate::error::AudioError;

verus! {

/// Every `factor`-th element of `s`, starting at index 0.
pub open spec fn decimated(s: Seq<i32>, factor: int) -> Seq<i32>
    recommends
        factor >= 1,
{
    Seq::new((((s.len() + factor - 1) / factor) as nat), |k: int| s[k * factor])
}

/// What `downsample` returns: empty on a degenerate request, otherwise the
/// input decimated by `floor(sample_rate / new_sample_rate)`.
pub open spec fn downsample_spec(sample_rate: u32, s: Seq<i32>, new_sample_rate: u32) -> Seq<i32> {
    if new_sample_rate == 0 || new_sample_rate > sample_rate {
        Seq::empty()
    } else {
        decimated(s, sample_rate as int / new_sample_rate as int)
    }
}

/// Naive decimation: keep every `floor(sample_rate / new_sample_rate)`-th
/// sample. A request with `new_sample_rate == 0` or
/// `new_sample_rate > sample_rate` is degenerate and yields an empty signal.
pub fn downsample(sample_rate: u32, signal: &Vec<i32>, new_sample_rate: u32) -> (r: Vec<i32>)
    ensures
        r@ =~= downsample_spec(sample_rate, signal@, new_sample_rate),
        new_sample_rate == 0 || new_sample_rate > sample_rate ==> r@.len() == 0,
{
    if sample_rate < new_sample_rate || new_sample_rate == 0 {
        return Vec::new();
    }
    let factor: usize = (sample_rate / new_sample_rate) as usize;
    let ghost f: int = factor as int;
    proof {
        assert(1 <= sample_rate as int / new_sample_rate as int <= u32::MAX) by (nonlinear_arith)
            requires
                0 < new_sample_rate as int <= sample_rate as int <= u32::MAX,
        ;
    }
    let mut out: Vec<i32> = Vec::new();
    proof {
        assert(out@.len() * f == 0) by (nonlinear_arith)
            requires
                out@.len() == 0,
        ;
    }
    let mut i: usize = 0;
    // `pos` is the index the next kept sample would have, even past the end of
    // the signal; `i` is the same index capped at the signal's length so that
    // the running position always fits in `usize`.
    let ghost mut pos: int = 0;
    while i < signal.len()
        invariant
            1 <= f <= u32::MAX,
            f == sample_rate as int / new_sample_rate as int,
            factor == f,
            pos == out@.len() * f,
            i == if pos < signal@.len() { pos } else { signal@.len() as int },
            pos >= signal@.len() ==> pos < signal@.len() + f,
            forall|k: int| 0 <= k < out@.len() ==> #[trigger] out@[k] == signal@[k * f],
            forall|k: int| 0 <= k < out@.len() ==> #[trigger] (k * f) < signal@.len(),
        decreases signal@.len() - i,
    {
        let s = signal[i];
        out.push(s);
        proof {
            assert(out@.len() * f == pos + f) by (nonlinear_arith)
                requires
                    pos == (out@.len() - 1) * f,
            ;
            pos = pos + f;
        }
        if factor < signal.len() - i {
            i = i + factor;
        } else {
            i = signal.len();
        }
    }
    proof {
        lemma_ceil_div_from_bounds(signal@.len() as int, f, out@.len() as int);
        assert(out@ =~= decimated(signal@, f));
    }
    out
}

/// Like `downsample`, but reports a degenerate request (`new_sample_rate ==
/// 0` or a target rate above the source rate) as `DegenerateResample`, for
/// callers that need to tell a legitimately empty result from an invalid
/// request.
pub fn downsample_checked(sample_rate: u32, signal: &Vec<i32>, new_sample_rate: u32) -> (r: Result<
    Vec<i32>,
    AudioError,
>)
    ensures
        r matches Ok(v) ==> {
            &&& 0 < new_sample_rate <= sample_rate
            &&& v@ =~= decimated(signal@, sample_rate as int / new_sample_rate as int)
        },
        r matches Err(e) ==> {
            &&& e == AudioError::DegenerateResample
            &&& (new_sample_rate == 0 || new_sample_rate > sample_rate)
        },
{
    if sample_rate < new_sample_rate || new_sample_rate == 0 {
        return Err(AudioError::DegenerateResample);
    }
    Ok(downsample(sample_rate, signal, new_sample_rate))
}

/// If `l * f` covers `len` and `(l - 1) * f` does not, then `l` is the
/// rounded-up quotient `(len + f - 1) / f`.
proof fn lemma_ceil_div_from_bounds(len: int, f: int, l: int)
    by (nonlinear_arith)
    requires
        f >= 1,
        len >= 0,
        l >= 0,
        l * f >= len,
        l > 0 ==> (l - 1) * f < len,
        l == 0 ==> len == 0,
    ensures
        l == (len + f - 1) / f,
{
}

} // verus!
