use vstd::prelude::*;

verus! {

/// Failure conditions of the sample buffer.
#[derive(Debug, Clone, Copy, PartialEq, Eq)]
pub enum BufferError {
    /// A channel index at or beyond the number of bound channels.
    IndexOutOfRange,
    /// Channels of unequal length were offered for binding.
    ShapeMismatch,
}

/// Whether every channel of `chs` holds exactly `n` samples.
pub open spec fn all_of_len<T>(chs: Seq<Seq<T>>, n: nat) -> bool {
    forall|i: int| 0 <= i < chs.len() ==> #[trigger] chs[i].len() == n
}

/// Whether all channels of `chs` share one length.
pub open spec fn uniform<T>(chs: Seq<Seq<T>>) -> bool {
    chs.len() == 0 || all_of_len(chs, chs[0].len())
}

/// Samples per channel of a shape: the length of the first channel, or zero.
pub open spec fn samples_of<T>(chs: Seq<Seq<T>>) -> nat {
    if chs.len() == 0 {
        0
    } else {
        chs[0].len()
    }
}

/// Replacing one channel by a sequence of the same length keeps the shape uniform.
proof fn lemma_update_keeps_uniform<T>(chs: Seq<Seq<T>>, i: int, s: Seq<T>)
    requires
        uniform(chs),
        0 <= i < chs.len(),
    ensures
        s.len() == chs[i].len() ==> uniform(chs.update(i, s)),
{
    if s.len() == chs[i].len() {
        let u = chs.update(i, s);
        assert forall|j: int| 0 <= j < u.len() implies #[trigger] u[j].len() == chs[0].len() by {
            assert(chs[j].len() == chs[0].len());
        }
    }
}

/// The contents of a list of channels, one sequence per channel.
pub open spec fn channels_view<T>(chs: Seq<Vec<T>>) -> Seq<Seq<T>> {
    chs.map_values(|c: Vec<T>| c@)
}

/// Whether all the given channels share one length.
fn same_lengths<T>(channels: &Vec<Vec<T>>) -> (r: bool)
    ensures
        r == uniform(channels_view(channels@)),
{
    let ghost view = channels_view(channels@);
    if channels.len() == 0 {
        return true;
    }
    let n = channels[0].len();
    let mut k: usize = 1;
    while k < channels.len()
        invariant
            1 <= k <= channels.len(),
            view == channels_view(channels@),
            n == view[0].len(),
            forall|j: int| 0 <= j < k ==> #[trigger] view[j].len() == n,
        decreases channels.len() - k,
    {
        if channels[k].len() != n {
            assert(view[k as int].len() != n);
            return false;
        }
        k += 1;
    }
    true
}

/// Whether `chs` has a channel `c` with a sample at index `k`.
pub open spec fn in_bounds<T>(chs: Seq<Seq<T>>, c: int, k: int) -> bool {
    0 <= c < chs.len() && 0 <= k < chs[c].len()
}

/// One block of multi-channel audio: one storage vector per channel, all of one
/// length. The storage is taken from the host when a block is bound and handed
/// back when it is unbound.
pub struct Buffer<T> {
    channels: Vec<Vec<T>>,
}

impl<T> View for Buffer<T> {
    type V = Seq<Seq<T>>;

    closed spec fn view(&self) -> Seq<Seq<T>> {
        channels_view(self.channels@)
    }
}

impl<T> Buffer<T> {
    /// Well-formedness: all bound channels share one length.
    pub open spec fn wf(&self) -> bool {
        uniform(self@)
    }

    /// The number of samples in each channel of this buffer.
    pub open spec fn spec_sample_count(&self) -> nat {
        samples_of(self@)
    }

    /// An unbound buffer, with no channels.
    pub fn new() -> (r: Self)
        ensures
            r.wf(),
            r@ == Seq::<Seq<T>>::empty(),
    {
        let r = Buffer { channels: Vec::new() };
        assert(r@ =~= Seq::<Seq<T>>::empty());
        r
    }

    /// The number of bound channels; zero when unbound.
    pub fn channel_count(&self) -> (r: usize)
        ensures
            r == self@.len(),
    {
        self.channels.len()
    }

    /// The number of samples per channel in the current block; zero when unbound.
    pub fn sample_count(&self) -> (r: usize)
        ensures
            r == self.spec_sample_count(),
    {
        if self.channels.len() == 0 {
            0
        } else {
            self.channels[0].len()
        }
    }

    /// Read access to the samples of channel `i`.
    pub fn channel(&self, i: usize) -> (r: Result<&[T], BufferError>)
        requires
            self.wf(),
        ensures
            i < self@.len() ==> (r matches Ok(c) && c@ == self@[i as int]),
            i < self@.len() ==> r->Ok_0@.len() == self.spec_sample_count(),
            i >= self@.len() ==> r == Err::<&[T], BufferError>(BufferError::IndexOutOfRange),
    {
        if i < self.channels.len() {
            Ok(self.channel_at(i))
        } else {
            Err(BufferError::IndexOutOfRange)
        }
    }

    /// The samples of channel `i`, which must be bound.
    pub(crate) fn channel_at(&self, i: usize) -> (r: &[T])
        requires
            i < self@.len(),
        ensures
            r@ == self@[i as int],
    {
        self.channels[i].as_slice()
    }

    /// Write access to the samples of channel `i`. The slice spans the whole
    /// channel; writes through it change samples, never the shape.
    pub fn channel_mut(&mut self, i: usize) -> (r: Result<&mut [T], BufferError>)
        requires
            old(self).wf(),
        ensures
            i < old(self)@.len() ==> (r matches Ok(c) && c@ == old(self)@[i as int]),
            i < old(self)@.len() ==> final(self)@ == old(self)@.update(i as int, final(r->Ok_0)@),
            r is Ok ==> (final(r->Ok_0)@.len() == r->Ok_0@.len() ==> final(self).wf()),
            i >= old(self)@.len() ==> (r is Err && r->Err_0 == BufferError::IndexOutOfRange),
            i >= old(self)@.len() ==> final(self)@ == old(self)@,
            r is Err ==> final(self).wf(),
    {
        if i < self.channels.len() {
            let ghost before = self@;
            let c = self.slice_mut(i);
            proof {
                lemma_update_keeps_uniform(before, i as int, final(c)@);
            }
            Ok(c)
        } else {
            Err(BufferError::IndexOutOfRange)
        }
    }

    fn slice_mut(&mut self, i: usize) -> (r: &mut [T])
        requires
            i < old(self)@.len(),
        ensures
            r@ == old(self)@[i as int],
            final(self)@ == old(self)@.update(i as int, final(r)@),
    {
        self.channels[i].as_mut_slice()
    }

    /// Rebinds the buffer to new per-channel storage and hands back the storage
    /// it held before. Channels of unequal length are refused with
    /// `ShapeMismatch`, and the buffer then keeps its previous binding.
    pub fn bind(&mut self, channels: Vec<Vec<T>>) -> (r: Result<Vec<Vec<T>>, BufferError>)
        requires
            old(self).wf(),
        ensures
            final(self).wf(),
            r is Ok <==> uniform(channels_view(channels@)),
            r is Ok ==> final(self)@ == channels_view(channels@),
            r is Ok ==> channels_view(r->Ok_0@) == old(self)@,
            r is Err ==> r->Err_0 == BufferError::ShapeMismatch,
            r is Err ==> final(self)@ == old(self)@,
    {
        if !same_lengths(&channels) {
            return Err(BufferError::ShapeMismatch);
        }
        let mut previous = channels;
        std::mem::swap(&mut self.channels, &mut previous);
        Ok(previous)
    }

    /// Unbinds the buffer, handing back its storage; the buffer is left with no
    /// channels.
    pub fn unbind(&mut self) -> (r: Vec<Vec<T>>)
        ensures
            final(self).wf(),
            final(self)@ == Seq::<Seq<T>>::empty(),
            channels_view(r@) == old(self)@,
    {
        let mut previous: Vec<Vec<T>> = Vec::new();
        std::mem::swap(&mut self.channels, &mut previous);
        assert(self@ =~= Seq::<Seq<T>>::empty());
        previous
    }

    /// A walk over the sample indices of the current block, in ascending order.
    pub fn iter_samples(&self) -> (r: SamplesIterator)
        ensures
            r.position() == 0,
            r.end() == self.spec_sample_count(),
    {
        SamplesIterator { current_sample: 0, samples_end: self.sample_count() }
    }

    /// The sample at index `sample` of channel `channel`.
    pub fn sample(&self, channel: usize, sample: usize) -> (r: Result<&T, BufferError>)
        requires
            self.wf(),
        ensures
            in_bounds(self@, channel as int, sample as int) ==> r == Ok::<&T, BufferError>(
                &self@[channel as int][sample as int],
            ),
            !in_bounds(self@, channel as int, sample as int) ==> r == Err::<&T, BufferError>(
                BufferError::IndexOutOfRange,
            ),
    {
        if channel < self.channels.len() && sample < self.channels[channel].len() {
            Ok(&self.channels[channel][sample])
        } else {
            Err(BufferError::IndexOutOfRange)
        }
    }

    /// Write access to the sample at index `sample` of channel `channel`.
    pub fn sample_mut(&mut self, channel: usize, sample: usize) -> (r: Result<&mut T, BufferError>)
        requires
            old(self).wf(),
        ensures
            in_bounds(old(self)@, channel as int, sample as int) ==> (r matches Ok(x) && *x
                == old(self)@[channel as int][sample as int]),
            in_bounds(old(self)@, channel as int, sample as int) ==> final(self)@ == old(
                self,
            )@.update(
                channel as int,
                old(self)@[channel as int].update(sample as int, *final(r->Ok_0)),
            ),
            !in_bounds(old(self)@, channel as int, sample as int) ==> (r is Err && r->Err_0
                == BufferError::IndexOutOfRange),
            !in_bounds(old(self)@, channel as int, sample as int) ==> final(self)@ == old(self)@,
            final(self).wf(),
    {
        if channel < self.channels.len() && sample < self.channels[channel].len() {
            let ghost before = self@;
            let x = self.element_mut(channel, sample);
            proof {
                lemma_update_keeps_uniform(
                    before,
                    channel as int,
                    before[channel as int].update(sample as int, *final(x)),
                );
            }
            Ok(x)
        } else {
            Err(BufferError::IndexOutOfRange)
        }
    }

    fn element_mut(&mut self, channel: usize, sample: usize) -> (r: &mut T)
        requires
            in_bounds(old(self)@, channel as int, sample as int),
        ensures
            *r == old(self)@[channel as int][sample as int],
            final(self)@ == old(self)@.update(
                channel as int,
                old(self)@[channel as int].update(sample as int, *final(r)),
            ),
    {
        &mut self.channels[channel][sample]
    }
}

/// A walk over the sample indices of one block. Each step yields a view of one
/// index across all channels; the view holds only the index, and every access
/// through it borrows the buffer for that access alone, so no two live
/// accesses can overlap.
pub struct SamplesIterator {
    current_sample: usize,
    samples_end: usize,
}

impl SamplesIterator {
    /// The index the next step yields.
    pub closed spec fn position(&self) -> nat {
        self.current_sample as nat
    }

    /// One past the last index of the walk.
    pub closed spec fn end(&self) -> nat {
        self.samples_end as nat
    }

    /// The view of the next sample index, or `None` once the walk is over.
    pub fn next(&mut self) -> (r: Option<ChannelSamples>)
        ensures
            old(self).position() < old(self).end() ==> (r is Some && r->Some_0.index() == old(
                self,
            ).position()),
            old(self).position() < old(self).end() ==> final(self).position() == old(
                self,
            ).position() + 1,
            old(self).position() >= old(self).end() ==> r is None,
            old(self).position() >= old(self).end() ==> final(self).position() == old(
                self,
            ).position(),
            final(self).end() == old(self).end(),
    {
        if self.current_sample < self.samples_end {
            let view = ChannelSamples { current_sample: self.current_sample };
            self.current_sample = self.current_sample + 1;
            Some(view)
        } else {
            None
        }
    }

    /// The number of steps left, as a lower and an exact upper bound.
    pub fn size_hint(&self) -> (r: (usize, Option<usize>))
        ensures
            r.0 == if self.position() < self.end() {
                self.end() - self.position()
            } else {
                0
            },
            r.1 == Some(r.0),
    {
        let remaining = if self.current_sample < self.samples_end {
            self.samples_end - self.current_sample
        } else {
            0
        };
        (remaining, Some(remaining))
    }
}

/// One sample index of a block, across all channels.
pub struct ChannelSamples {
    current_sample: usize,
}

impl ChannelSamples {
    /// The sample index this view stands for.
    pub closed spec fn index(&self) -> nat {
        self.current_sample as nat
    }

    /// The sample index this view stands for.
    pub fn sample_index(&self) -> (r: usize)
        ensures
            r == self.index(),
    {
        self.current_sample
    }

    /// A walk over the channels of `buffer` at this view's sample index.
    pub fn into_iter<T>(self, buffer: &Buffer<T>) -> (r: ChannelSamplesIterator)
        ensures
            r.sample_index() == self.index(),
            r.position() == 0,
            r.end() == buffer@.len(),
    {
        ChannelSamplesIterator {
            current_sample: self.current_sample,
            current_channel: 0,
            channels_end: buffer.channel_count(),
        }
    }
}

/// A walk over the channels of a buffer at one sample index.
pub struct ChannelSamplesIterator {
    current_sample: usize,
    current_channel: usize,
    channels_end: usize,
}

impl ChannelSamplesIterator {
    /// The sample index of the walk.
    pub closed spec fn sample_index(&self) -> nat {
        self.current_sample as nat
    }

    /// The channel the next step yields.
    pub closed spec fn position(&self) -> nat {
        self.current_channel as nat
    }

    /// One past the last channel of the walk.
    pub closed spec fn end(&self) -> nat {
        self.channels_end as nat
    }

    /// Write access to the sample of the next channel, or `None` once the walk
    /// is over or the buffer no longer holds this sample.
    pub fn next<'a, T>(&mut self, buffer: &'a mut Buffer<T>) -> (r: Option<&'a mut T>)
        requires
            old(buffer).wf(),
        ensures
            final(buffer).wf(),
            final(self).sample_index() == old(self).sample_index(),
            final(self).end() == old(self).end(),
            ({
                let (c, k) = (old(self).position() as int, old(self).sample_index() as int);
                if c < old(self).end() && in_bounds(old(buffer)@, c, k) {
                    &&& r matches Some(x)
                    &&& *x == old(buffer)@[c][k]
                    &&& final(buffer)@ == old(buffer)@.update(
                        c,
                        old(buffer)@[c].update(k, *final(r->Some_0)),
                    )
                    &&& final(self).position() == c + 1
                } else {
                    &&& r is None
                    &&& final(buffer)@ == old(buffer)@
                    &&& final(self).position() == old(self).position()
                }
            }),
    {
        if self.current_channel < self.channels_end {
            match buffer.sample_mut(self.current_channel, self.current_sample) {
                Ok(x) => {
                    self.current_channel = self.current_channel + 1;
                    Some(x)
                },
                Err(_) => None,
            }
        } else {
            None
        }
    }

    /// The number of steps left, as a lower and an exact upper bound.
    pub fn size_hint(&self) -> (r: (usize, Option<usize>))
        ensures
            r.0 == if self.position() < self.end() {
                self.end() - self.position()
            } else {
                0
            },
            r.1 == Some(r.0),
    {
        let remaining = if self.current_channel < self.channels_end {
            self.channels_end - self.current_channel
        } else {
            0
        };
        (remaining, Some(remaining))
    }
}

} // verus!
