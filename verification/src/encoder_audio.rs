use crate::samples::{filled, uniform, append_block, split_front, empty_channels};
use vstd::prelude::*;

verus! {

/// Resampled audio waiting to be cut into encoder frames of a fixed size, with
/// the presentation timestamp (in samples) of the next frame.
pub struct EncoderAudioQueue<T> {
    pub channels: Vec<Vec<T>>,
    pub next_pts: i64,
}

/// One encoder frame: `samples[c]` holds channel `c`.
pub struct AudioFrame<T> {
    pub samples: Vec<Vec<T>>,
    pub pts: i64,
}

impl<T: Copy> EncoderAudioQueue<T> {
    /// Channels are present and all hold the same number of samples.
    pub open spec fn wf(&self) -> bool {
        uniform(self.channels@)
    }

    /// The number of samples waiting in each channel.
    pub open spec fn spec_len(&self) -> nat {
        self.channels@[0]@.len()
    }

    /// An empty queue with `num_channels` channels whose first frame has
    /// timestamp 0.
    pub fn new(num_channels: usize) -> (r: Self)
        requires
            num_channels > 0,
        ensures
            r.wf(),
            r.channels@.len() == num_channels,
            r.spec_len() == 0,
            r.next_pts == 0,
    {
        EncoderAudioQueue { channels: empty_channels(num_channels), next_pts: 0 }
    }

    /// The number of samples waiting in each channel.
    pub fn buffered(&self) -> (r: usize)
        requires
            self.wf(),
        ensures
            r == self.spec_len(),
    {
        self.channels[0].len()
    }

    /// Queues a resampled block: `block[c]` goes after the samples of channel
    /// `c`.
    pub fn push_block(&mut self, block: &Vec<Vec<T>>)
        requires
            old(self).wf(),
            uniform(block@),
            block@.len() == old(self).channels@.len(),
        ensures
            final(self).wf(),
            final(self).next_pts == old(self).next_pts,
            final(self).channels@.len() == old(self).channels@.len(),
            forall|c: int|
                0 <= c < old(self).channels@.len() ==> #[trigger] final(self).channels@[c]@ == old(
                    self,
                ).channels@[c]@ + block@[c]@,
    {
        append_block(&mut self.channels, block);
    }

    /// When at least `frame_size` samples are waiting, takes the first
    /// `frame_size` of every channel out as a frame stamped with `next_pts`,
    /// and advances `next_pts` by `frame_size`. Otherwise changes nothing and
    /// returns `None`.
    pub fn pop_frame(&mut self, frame_size: usize) -> (r: Option<AudioFrame<T>>)
        requires
            old(self).wf(),
            frame_size > 0,
            old(self).next_pts + frame_size <= i64::MAX,
        ensures
            final(self).wf(),
            final(self).channels@.len() == old(self).channels@.len(),
            match r {
                Some(f) => {
                    &&& old(self).spec_len() >= frame_size
                    &&& f.pts == old(self).next_pts
                    &&& final(self).next_pts == old(self).next_pts + frame_size
                    &&& f.samples@.len() == old(self).channels@.len()
                    &&& forall|c: int|
                        0 <= c < old(self).channels@.len() ==> {
                            &&& #[trigger] f.samples@[c]@ == old(self).channels@[c]@.take(
                                frame_size as int,
                            )
                            &&& final(self).channels@[c]@ == old(self).channels@[c]@.skip(
                                frame_size as int,
                            )
                        }
                },
                None => old(self).spec_len() < frame_size && final(self).channels == old(
                    self,
                ).channels && final(self).next_pts == old(self).next_pts,
            },
    {
        if self.channels[0].len() >= frame_size {
            let pts = self.next_pts;
            let any: T = self.channels[0][0];
            let samples = split_front(&mut self.channels, frame_size, frame_size, any);
            proof {
                assert forall|c: int| 0 <= c < old(self).channels@.len() implies #[trigger] samples@[c]@
                    == old(self).channels@[c]@.take(frame_size as int) by {
                    assert(filled((frame_size - frame_size) as nat, any)
                        =~= Seq::<T>::empty());
                    assert(old(self).channels@[c]@.take(frame_size as int) + Seq::<T>::empty()
                        =~= old(self).channels@[c]@.take(frame_size as int));
                }
            }
            self.next_pts = (self.next_pts as i128 + frame_size as i128) as i64;
            Some(AudioFrame { samples, pts })
        } else {
            None
        }
    }

    /// `after` is `before` with all full frames of `frame_size` samples taken
    /// out as `frames` (see `drain_frames`).
    pub open spec fn spec_drained(
        before: Self,
        after: Self,
        frames: Seq<AudioFrame<T>>,
        frame_size: nat,
    ) -> bool {
        let n = before.spec_len();
        let k = n / frame_size;
        &&& after.wf()
        &&& after.channels@.len() == before.channels@.len()
        &&& frames.len() == k
        &&& after.spec_len() == n % frame_size
        &&& after.spec_len() < frame_size
        &&& after.next_pts == before.next_pts + k * frame_size
        &&& forall|c: int|
            0 <= c < before.channels@.len() ==> #[trigger] after.channels@[c]@
                == before.channels@[c]@.skip((k * frame_size) as int)
        &&& forall|i: int|
            0 <= i < k ==> {
                &&& #[trigger] frames[i].pts == before.next_pts + i * frame_size
                &&& frames[i].samples@.len() == before.channels@.len()
                &&& forall|c: int|
                    0 <= c < before.channels@.len() ==> #[trigger] frames[i].samples@[c]@
                        == before.channels@[c]@.subrange(i * frame_size, i * frame_size + frame_size)
            }
    }

    /// Takes every full frame out of the queue, in order: with `n` samples
    /// waiting, `n / frame_size` frames of `frame_size` samples each, the `i`-th
    /// holding samples `i * frame_size` up to `(i + 1) * frame_size` of every
    /// channel and stamped `next_pts + i * frame_size`. Afterwards fewer than
    /// `frame_size` samples (`n % frame_size`) are left in every channel and
    /// `next_pts` has moved past the frames taken.
    #[verifier::spinoff_prover]
    pub fn drain_frames(&mut self, frame_size: usize) -> (frames: Vec<AudioFrame<T>>)
        requires
            old(self).wf(),
            frame_size > 0,
            old(self).next_pts + (old(self).spec_len() / (frame_size as nat)) * frame_size
                <= i64::MAX,
        ensures
            Self::spec_drained(*old(self), *final(self), frames@, frame_size as nat),
    {
        let ghost old_chs = self.channels@;
        let ghost p0 = self.next_pts as int;
        let ghost n0 = self.spec_len();
        let ghost f = frame_size as int;
        let ghost mut taken: int = 0;
        let mut frames: Vec<AudioFrame<T>> = Vec::new();
        proof {
            assert forall|c: int| 0 <= c < old_chs.len() implies #[trigger] self.channels@[c]@
                == old_chs[c]@.skip(0) by {
                assert(old_chs[c]@.skip(0) =~= old_chs[c]@);
            }
            assert(frames@.len() == 0);
            assert(frames@.len() * f == 0) by (nonlinear_arith)
                requires
                    frames@.len() == 0,
            ;
        }
        while self.channels[0].len() >= frame_size
            invariant
                self.wf(),
                self.channels@.len() == old_chs.len(),
                uniform(old_chs),
                n0 == old_chs[0]@.len(),
                f == frame_size,
                f > 0,
                taken == frames@.len() * f,
                0 <= taken <= n0,
                self.next_pts == p0 + taken,
                p0 + (n0 / (f as nat)) * f <= i64::MAX,
                forall|c: int|
                    0 <= c < old_chs.len() ==> #[trigger] self.channels@[c]@ == old_chs[c]@.skip(
                        taken,
                    ),
                forall|i: int|
                    0 <= i < frames@.len() ==> {
                        &&& #[trigger] frames@[i].pts == p0 + i * f
                        &&& frames@[i].samples@.len() == old_chs.len()
                        &&& forall|c: int|
                            0 <= c < old_chs.len() ==> #[trigger] frames@[i].samples@[c]@
                                == old_chs[c]@.subrange(i * f, i * f + f)
                    },
            decreases self.spec_len(),
        {
            let ghost k = frames@.len() as int;
            let ghost cur = self.channels@;
            proof {
                assert(cur[0]@.len() == n0 - taken);
                assert(k * f == taken);
                assert((k + 1) * f == taken + f) by (nonlinear_arith)
                    requires
                        k * f == taken,
                ;
                assert(taken + f <= (n0 / (f as nat)) * f) by {
                    vstd::arithmetic::div_mod::lemma_div_is_ordered((k + 1) * f, n0 as int, f);
                    vstd::arithmetic::div_mod::lemma_div_multiples_vanish(k + 1, f);
                    assert(((k + 1) * f) / f == k + 1) by (nonlinear_arith)
                        requires
                            f > 0,
                            (f * (k + 1)) / f == k + 1,
                    ;
                    assert((k + 1) * f <= (n0 / (f as nat)) * f) by (nonlinear_arith)
                        requires
                            k + 1 <= n0 / (f as nat),
                            f > 0,
                    ;
                }
            }
            let popped = self.pop_frame(frame_size);
            match popped {
                Some(fr) => {
                    proof {
                        assert forall|c: int| 0 <= c < old_chs.len() implies #[trigger] fr.samples@[c]@
                            == old_chs[c]@.subrange(k * f, k * f + f) by {
                            assert(cur[c]@ == old_chs[c]@.skip(taken));
                            assert(old_chs[c]@.len() == n0);
                            assert(cur[c]@.take(f) =~= old_chs[c]@.subrange(taken, taken + f));
                        }
                        assert forall|c: int| 0 <= c < old_chs.len() implies #[trigger] self.channels@[c]@
                            == old_chs[c]@.skip(taken + f) by {
                            assert(fr.samples@[c]@ == cur[c]@.take(f));
                            assert(cur[c]@ == old_chs[c]@.skip(taken));
                            assert(old_chs[c]@.len() == n0);
                            assert(cur[c]@.skip(f) =~= old_chs[c]@.skip(taken + f));
                        }
                        assert(fr.pts == p0 + k * f);
                    }
                    let ghost before = frames@;
                    frames.push(fr);
                    proof {
                        taken = taken + f;
                        assert forall|i: int| 0 <= i < frames@.len() implies {
                            &&& #[trigger] frames@[i].pts == p0 + i * f
                            &&& frames@[i].samples@.len() == old_chs.len()
                            &&& forall|c: int|
                                0 <= c < old_chs.len() ==> #[trigger] frames@[i].samples@[c]@
                                    == old_chs[c]@.subrange(i * f, i * f + f)
                        } by {
                            if i < k {
                                assert(frames@[i] == before[i]);
                            }
                        }
                    }
                },
                None => {
                    proof {
                        assert(false);
                    }
                },
            }
        }
        proof {
            let k = frames@.len() as int;
            assert(self.spec_len() == n0 - taken);
            vstd::arithmetic::div_mod::lemma_fundamental_div_mod_converse(
                n0 as int,
                f,
                k,
                n0 - taken,
            );
            assert(k == n0 / (f as nat));
            assert(taken == k * frame_size);
            assert(old_chs == old(self).channels@);
            assert(n0 == old(self).spec_len());
            assert(p0 == old(self).next_pts);
            assert(Self::spec_drained(*old(self), *self, frames@, frame_size as nat));
        }
        frames
    }

    /// At the end of the stream: when fewer than `frame_size` but some samples
    /// are waiting, takes them all out as a last frame padded with `silence` to
    /// `frame_size` samples, stamped with `next_pts`, and advances `next_pts` by
    /// `frame_size`. Otherwise changes nothing and returns `None`.
    pub fn pop_padded_tail(&mut self, frame_size: usize, silence: T) -> (r: Option<AudioFrame<T>>)
        requires
            old(self).wf(),
            old(self).next_pts + frame_size <= i64::MAX,
        ensures
            final(self).wf(),
            final(self).channels@.len() == old(self).channels@.len(),
            match r {
                Some(f) => {
                    &&& 0 < old(self).spec_len() < frame_size
                    &&& f.pts == old(self).next_pts
                    &&& final(self).next_pts == old(self).next_pts + frame_size
                    &&& final(self).spec_len() == 0
                    &&& f.samples@.len() == old(self).channels@.len()
                    &&& forall|c: int|
                        0 <= c < old(self).channels@.len() ==> #[trigger] f.samples@[c]@ == old(
                            self,
                        ).channels@[c]@ + filled((frame_size - old(self).spec_len()) as nat, silence)
                },
                None => !(0 < old(self).spec_len() < frame_size) && final(self).channels == old(
                    self,
                ).channels && final(self).next_pts == old(self).next_pts,
            },
    {
        let remaining = self.channels[0].len();
        if remaining > 0 && remaining < frame_size {
            let pts = self.next_pts;
            let samples = split_front(&mut self.channels, remaining, frame_size, silence);
            proof {
                assert forall|c: int| 0 <= c < old(self).channels@.len() implies #[trigger] samples@[c]@
                    == old(self).channels@[c]@ + filled((frame_size - remaining) as nat, silence) by {
                    assert(old(self).channels@[c]@.len() == remaining);
                    assert(old(self).channels@[c]@.take(remaining as int) =~= old(self).channels@[c]@);
                }
                assert(self.channels@[0]@.len() == 0);
            }
            self.next_pts = (self.next_pts as i128 + frame_size as i128) as i64;
            Some(AudioFrame { samples, pts })
        } else {
            None
        }
    }
}

/// The audio requested from the host so far during an export, in samples per
/// channel. After each rendered frame the export asks for the samples that
/// bring the total up to the number expected for the frames rendered so far.
pub struct AudioSchedule {
    pub requested: u64,
}

impl AudioSchedule {
    /// Nothing requested yet.
    pub fn new() -> (r: Self)
        ensures
            r.requested == 0,
    {
        AudioSchedule { requested: 0 }
    }

    /// How many samples to ask for when `expected` samples should have been
    /// requested in all: the difference to what was requested so far.
    pub fn due(&self, expected: u64) -> (n: u64)
        requires
            expected >= self.requested,
        ensures
            n == expected - self.requested,
            self.requested + n == expected,
    {
        expected - self.requested
    }

    /// Takes note that `count` more samples were delivered by the host.
    pub fn delivered(&mut self, count: u64)
        requires
            old(self).requested + count <= u64::MAX,
        ensures
            final(self).requested == old(self).requested + count,
    {
        self.requested = self.requested + count;
    }
}

/// The samples requested in all after an export rendered frames whose expected
/// running totals are `expected`, the host delivering the request made after
/// frame `k` when `delivered[k]`: after each frame `AudioSchedule::due` asks
/// for the difference to the expected total and `AudioSchedule::delivered`
/// counts it when it came.
pub open spec fn audio_requested_after(expected: Seq<u64>, delivered: Seq<bool>) -> int
    decreases expected.len(),
{
    if expected.len() == 0 {
        0
    } else {
        let before = audio_requested_after(expected.drop_last(), delivered.drop_last());
        if delivered.last() {
            before + (expected.last() - before)
        } else {
            before
        }
    }
}

/// The expected running totals never decrease from one frame to the next.
pub open spec fn totals_nondecreasing(expected: Seq<u64>) -> bool {
    forall|i: int, j: int| 0 <= i <= j < expected.len() ==> expected[i] <= expected[j]
}

} // verus!
