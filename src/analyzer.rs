use vstd::prelude::*;

use crate::buffer::Buffer;

verus! {

/// Failure conditions of the spectral analysis.
#[derive(Debug, Clone, Copy, PartialEq, Eq)]
pub enum AnalyzerError {
    /// The sample rate is not positive.
    InvalidConfiguration,
    /// The block holds channels of zero samples, so no transform length exists.
    InvalidBufferLength,
}

/// The spectrum of one channel for one block: the frequency of each kept bin
/// and its magnitude, index-aligned.
pub struct AnalyzerResult<V> {
    pub frequencies: Vec<V>,
    pub magnitudes: Vec<V>,
}

/// The number of bins kept of a transform of length `n`: the lower half, as the
/// upper half mirrors it.
pub open spec fn bin_count(n: nat) -> nat {
    n / 2
}

/// The transform length for the block in `buffer`: the samples per channel.
/// A buffer with no channels needs no transform and gives zero; channels of zero
/// samples are refused.
pub fn transform_length<T>(buffer: &Buffer<T>) -> (r: Result<usize, AnalyzerError>)
    ensures
        buffer@.len() == 0 ==> r == Ok::<usize, AnalyzerError>(0),
        buffer@.len() > 0 && buffer.spec_sample_count() == 0 ==> r == Err::<usize, AnalyzerError>(
            AnalyzerError::InvalidBufferLength,
        ),
        buffer@.len() > 0 && buffer.spec_sample_count() > 0 ==> r == Ok::<usize, AnalyzerError>(
            buffer.spec_sample_count() as usize,
        ),
{
    if buffer.channel_count() == 0 {
        Ok(0)
    } else if buffer.sample_count() == 0 {
        Err(AnalyzerError::InvalidBufferLength)
    } else {
        Ok(buffer.sample_count())
    }
}

/// Runs `analyze` on every channel of `buffer`, in channel order, and collects
/// one result per channel. The block is checked first: it fails as a whole,
/// before any channel is analysed, or yields a result for every channel.
pub fn analyze_channels<T, R, F: Fn(&[T]) -> R>(buffer: &Buffer<T>, analyze: F) -> (r: Result<
    Vec<R>,
    AnalyzerError,
>)
    requires
        buffer.wf(),
        forall|s: &[T]| #[trigger] analyze.requires((s,)),
    ensures
        r is Err <==> buffer@.len() > 0 && buffer.spec_sample_count() == 0,
        r is Err ==> r->Err_0 == AnalyzerError::InvalidBufferLength,
        r is Ok ==> r->Ok_0@.len() == buffer@.len(),
        r is Ok ==> forall|i: int, s: &[T]|
            0 <= i < buffer@.len() && s@ == buffer@[i] ==> #[trigger] analyze.ensures(
                (s,),
                #[trigger] r->Ok_0@[i],
            ),
{
    match transform_length(buffer) {
        Err(e) => {
            return Err(e);
        },
        Ok(_) => {},
    }
    let mut results: Vec<R> = Vec::new();
    let count = buffer.channel_count();
    let mut i: usize = 0;
    while i < count
        invariant
            buffer.wf(),
            count == buffer@.len(),
            forall|s: &[T]| #[trigger] analyze.requires((s,)),
            i <= count,
            results@.len() == i,
            forall|j: int, s: &[T]|
                0 <= j < i && s@ == buffer@[j] ==> #[trigger] analyze.ensures(
                    (s,),
                    #[trigger] results@[j],
                ),
        decreases count - i,
    {
        let channel = buffer.channel_at(i);
        let result = analyze(channel);
        results.push(result);
        proof {
            assert forall|j: int, s: &[T]|
                0 <= j < i + 1 && s@ == buffer@[j] implies #[trigger] analyze.ensures(
                (s,),
                #[trigger] results@[j],
            ) by {
                if j == i {
                    assert(s == channel);
                }
            }
        }
        i += 1;
    }
    Ok(results)
}

/// Assembles the result of one channel from its transform `spectrum`: for each
/// bin of the lower half, in order, its magnitude by `magnitude` and its
/// frequency by `frequency`, which is handed the bin index.
pub fn build_result<C, V, FM: Fn(&C) -> V, FF: Fn(usize) -> V>(
    spectrum: &[C],
    magnitude: FM,
    frequency: FF,
) -> (r: AnalyzerResult<V>)
    requires
        forall|c: &C| #[trigger] magnitude.requires((c,)),
        forall|k: usize| #[trigger] frequency.requires((k,)),
    ensures
        r.magnitudes@.len() == bin_count(spectrum@.len() as nat),
        r.frequencies@.len() == bin_count(spectrum@.len() as nat),
        forall|k: int|
            0 <= k < bin_count(spectrum@.len() as nat) ==> #[trigger] magnitude.ensures(
                (&spectrum@[k],),
                r.magnitudes@[k],
            ),
        forall|k: int|
            0 <= k < bin_count(spectrum@.len() as nat) ==> #[trigger] frequency.ensures(
                (k as usize,),
                r.frequencies@[k],
            ),
{
    let bins = spectrum.len() / 2;
    let mut magnitudes: Vec<V> = Vec::with_capacity(bins);
    let mut frequencies: Vec<V> = Vec::with_capacity(bins);
    let mut k: usize = 0;
    while k < bins
        invariant
            bins == bin_count(spectrum@.len() as nat),
            bins <= spectrum@.len(),
            forall|c: &C| #[trigger] magnitude.requires((c,)),
            forall|j: usize| #[trigger] frequency.requires((j,)),
            k <= bins,
            magnitudes@.len() == k,
            frequencies@.len() == k,
            forall|j: int|
                0 <= j < k ==> #[trigger] magnitude.ensures((&spectrum@[j],), magnitudes@[j]),
            forall|j: int|
                0 <= j < k ==> #[trigger] frequency.ensures((j as usize,), frequencies@[j]),
        decreases bins - k,
    {
        magnitudes.push(magnitude(&spectrum[k]));
        frequencies.push(frequency(k));
        k += 1;
    }
    AnalyzerResult { frequencies, magnitudes }
}

} // verus!
