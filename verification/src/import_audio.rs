use crate::samples::{filled, uniform, drop_front, append_block, split_front, prepend_block, empty_channels};
use crate::timing::{Rational, NO_PTS, trunc_div, trunc_div_i128};
use vstd::prelude::*;

verus! {

/// Decoded audio of an imported file that has not been handed to the host yet.
/// Channel `c` holds the samples for positions `start_sample`,
/// `start_sample + 1`, ... in order. `needs_first_pts` is set after a seek,
/// until the first decoded block tells where the decoder really landed.
pub struct ImportAudioBuffer<T> {
    pub channels: Vec<Vec<T>>,
    pub start_sample: i64,
    pub needs_first_pts: bool,
}

/// The sample position at which a decoded block begins: its timestamp (the
/// best-effort one when it has none), converted from the time base into
/// samples and rounded toward zero. `None` when there is no timestamp or the
/// time base denominator or the sample rate is not positive.
pub open spec fn spec_block_start_sample(
    pts: i64,
    best_effort: i64,
    time_base: Rational,
    sample_rate: i32,
) -> Option<int> {
    let t = if pts != NO_PTS {
        pts
    } else {
        best_effort
    };
    if t != NO_PTS && time_base.den > 0 && sample_rate > 0 {
        Some(trunc_div(t * sample_rate * time_base.num, time_base.den as int))
    } else {
        None
    }
}

/// The products that turn a timestamp into a sample position stay within `i64`.
pub open spec fn block_start_fits(pts: i64, best_effort: i64, time_base: Rational, sample_rate: i32) -> bool {
    let t = if pts != NO_PTS {
        pts
    } else {
        best_effort
    };
    t != NO_PTS && time_base.den > 0 && sample_rate > 0 ==> {
        &&& i64::MIN <= t * sample_rate <= i64::MAX
        &&& i64::MIN <= t * sample_rate * time_base.num <= i64::MAX
    }
}

/// The timestamp to seek to for a sample position: the position converted from
/// samples into the time base, rounded toward zero; 0 when the time base
/// numerator or the sample rate is not positive.
pub open spec fn spec_audio_seek_target(position: i64, time_base: Rational, sample_rate: i32) -> int {
    if time_base.num > 0 && sample_rate > 0 {
        trunc_div(position * time_base.den, sample_rate * time_base.num)
    } else {
        0
    }
}

/// The timestamp to seek to for a sample position (see
/// `spec_audio_seek_target`). The product of the position and the time base
/// denominator must stay within `i64`.
pub fn audio_seek_target(position: i64, time_base: Rational, sample_rate: i32) -> (r: i64)
    requires
        time_base.num > 0 && sample_rate > 0 ==> i64::MIN <= position * time_base.den <= i64::MAX,
    ensures
        r == spec_audio_seek_target(position, time_base, sample_rate),
{
    if time_base.num > 0 && sample_rate > 0 {
        let n: i128 = position as i128 * time_base.den as i128;
        let sr: i128 = sample_rate as i128;
        let tn: i128 = time_base.num as i128;
        assert(0 < sr * tn < 0x4000_0000_0000_0000) by (nonlinear_arith)
            requires
                0 < sr < 0x8000_0000,
                0 < tn < 0x8000_0000,
        ;
        let d: i128 = sr * tn;
        let q = trunc_div_i128(n, d);
        assert(-0x8000_0000_0000_0000 <= q <= 0x7fff_ffff_ffff_ffff) by {
            assert(crate::timing::abs_int(n as int) / crate::timing::abs_int(d as int)
                <= crate::timing::abs_int(n as int)) by (nonlinear_arith)
                requires
                    d >= 1,
            ;
        }
        q as i64
    } else {
        0
    }
}

/// The sample position at which a decoded block begins (see
/// `spec_block_start_sample`).
pub fn block_start_sample(pts: i64, best_effort: i64, time_base: Rational, sample_rate: i32) -> (r:
    Option<i64>)
    requires
        block_start_fits(pts, best_effort, time_base, sample_rate),
    ensures
        match spec_block_start_sample(pts, best_effort, time_base, sample_rate) {
            Some(s) => r == Some(s as i64) && i64::MIN <= s <= i64::MAX,
            None => r is None,
        },
{
    let t: i64 = if pts != NO_PTS {
        pts
    } else {
        best_effort
    };
    if t != NO_PTS && time_base.den > 0 && sample_rate > 0 {
        let a: i128 = t as i128 * sample_rate as i128;
        let n: i128 = a * time_base.num as i128;
        let d: i128 = time_base.den as i128;
        let q = trunc_div_i128(n, d);
        assert(crate::timing::abs_int(n as int) / crate::timing::abs_int(d as int)
            <= crate::timing::abs_int(n as int)) by (nonlinear_arith)
            requires
                d >= 1,
        ;
        Some(q as i64)
    } else {
        None
    }
}

impl<T: Copy> ImportAudioBuffer<T> {
    /// Channels are present and all hold the same number of samples.
    pub open spec fn wf(&self) -> bool {
        uniform(self.channels@)
    }

    /// The number of samples held in each channel.
    pub open spec fn spec_len(&self) -> nat {
        self.channels@[0]@.len()
    }

    /// The buffer holds the sample at `position`.
    pub open spec fn spec_covers(&self, position: int) -> bool {
        self.start_sample <= position < self.start_sample + self.spec_len()
    }

    /// An empty buffer with `num_channels` channels, starting at position 0.
    pub fn new(num_channels: usize) -> (r: Self)
        requires
            num_channels > 0,
        ensures
            r.wf(),
            r.channels@.len() == num_channels,
            forall|c: int| 0 <= c < num_channels ==> #[trigger] r.channels@[c]@.len() == 0,
            r.start_sample == 0,
            !r.needs_first_pts,
    {
        let channels = empty_channels(num_channels);
        ImportAudioBuffer { channels, start_sample: 0, needs_first_pts: false }
    }

    /// The number of samples held in each channel.
    pub fn buffered(&self) -> (r: usize)
        requires
            self.wf(),
        ensures
            r == self.spec_len(),
    {
        self.channels[0].len()
    }

    /// Whether the buffer holds the sample at `position`.
    pub fn covers(&self, position: i64) -> (r: bool)
        requires
            self.wf(),
        ensures
            r == self.spec_covers(position as int),
    {
        let len = self.channels[0].len();
        (position as i128) >= (self.start_sample as i128) && (position as i128) < (
        self.start_sample as i128) + (len as i128)
    }

    /// Prepares the buffer for a read that begins at `position`. When the buffer
    /// does not hold that sample, it is emptied and restarted at `position`
    /// with `needs_first_pts` set, and `true` is returned: the decoder has to
    /// seek. Otherwise the samples before `position` are dropped and `false`
    /// is returned.
    pub fn reposition(&mut self, position: i64) -> (seek: bool)
        requires
            old(self).wf(),
        ensures
            final(self).wf(),
            final(self).channels@.len() == old(self).channels@.len(),
            seek == !old(self).spec_covers(position as int),
            final(self).start_sample == position,
            seek ==> final(self).needs_first_pts && final(self).spec_len() == 0,
            !seek ==> final(self).needs_first_pts == old(self).needs_first_pts,
            !seek ==> forall|c: int|
                0 <= c < old(self).channels@.len() ==> #[trigger] final(self).channels@[c]@
                    == old(self).channels@[c]@.skip(position - old(self).start_sample),
    {
        if !self.covers(position) {
            let n = self.channels.len();
            let mut c: usize = 0;
            while c < n
                invariant
                    n == self.channels@.len(),
                    n > 0,
                    c <= n,
                    forall|j: int| 0 <= j < c ==> #[trigger] self.channels@[j]@.len() == 0,
                decreases n - c,
            {
                self.channels[c].clear();
                c = c + 1;
            }
            self.start_sample = position;
            self.needs_first_pts = true;
            true
        } else {
            let len = self.channels[0].len();
            let discard: usize = (position as i128 - self.start_sample as i128) as usize;
            assert(discard == position - self.start_sample);
            let n = self.channels.len();
            let ghost old_chs = self.channels@;
            let ghost old_start = self.start_sample;
            let ghost old_flag = self.needs_first_pts;
            let mut c: usize = 0;
            while c < n
                invariant
                    n == self.channels@.len(),
                    old_chs.len() == n,
                    uniform(old_chs),
                    discard <= old_chs[0]@.len(),
                    c <= n,
                    forall|j: int|
                        0 <= j < c ==> #[trigger] self.channels@[j]@ == old_chs[j]@.skip(
                            discard as int,
                        ),
                    forall|j: int| c <= j < n ==> #[trigger] self.channels@[j] == old_chs[j],
                    self.start_sample == old_start,
                    self.needs_first_pts == old_flag,
                decreases n - c,
            {
                assert(old_chs[c as int]@.len() == old_chs[0]@.len());
                drop_front(&mut self.channels[c], discard);
                c = c + 1;
            }
            self.start_sample = position;
            false
        }
    }

    /// Takes note of the timestamps of the first block decoded after a seek:
    /// when `needs_first_pts` is set, the start position becomes the block's
    /// start position (when it has one) and the flag is cleared.
    pub fn record_first_pts(
        &mut self,
        pts: i64,
        best_effort: i64,
        time_base: Rational,
        sample_rate: i32,
    )
        requires
            block_start_fits(pts, best_effort, time_base, sample_rate),
        ensures
            final(self).channels == old(self).channels,
            !final(self).needs_first_pts,
            final(self).start_sample == (if old(self).needs_first_pts {
                match spec_block_start_sample(pts, best_effort, time_base, sample_rate) {
                    Some(s) => s as i64,
                    None => old(self).start_sample,
                }
            } else {
                old(self).start_sample
            }),
    {
        if self.needs_first_pts {
            if let Some(s) = block_start_sample(pts, best_effort, time_base, sample_rate) {
                self.start_sample = s;
            }
            self.needs_first_pts = false;
        }
    }

    /// When the buffer starts after `position`, fills the gap in front of every
    /// channel with `silence` so that the buffer starts at `position`.
    pub fn fill_gap(&mut self, position: i64, silence: T)
        requires
            old(self).wf(),
            old(self).start_sample - position <= usize::MAX,
            old(self).start_sample - position <= i64::MAX,
        ensures
            final(self).wf(),
            final(self).needs_first_pts == old(self).needs_first_pts,
            final(self).channels@.len() == old(self).channels@.len(),
            old(self).start_sample > position ==> {
                &&& final(self).start_sample == position
                &&& forall|c: int|
                    0 <= c < old(self).channels@.len() ==> #[trigger] final(self).channels@[c]@
                        == filled((old(self).start_sample - position) as nat, silence) + old(
                        self,
                    ).channels@[c]@
            },
            old(self).start_sample <= position ==> final(self).channels == old(self).channels
                && final(self).start_sample == old(self).start_sample,
    {
        if self.start_sample > position {
            let gap: usize = (self.start_sample - position) as usize;
            prepend_block(&mut self.channels, gap, silence);
            self.start_sample = position;
        }
    }

    /// Appends a decoded block: `block[c]` goes after the samples of channel
    /// `c`.
    pub fn append(&mut self, block: &Vec<Vec<T>>)
        requires
            old(self).wf(),
            uniform(block@),
            block@.len() == old(self).channels@.len(),
        ensures
            final(self).wf(),
            final(self).start_sample == old(self).start_sample,
            final(self).needs_first_pts == old(self).needs_first_pts,
            final(self).channels@.len() == old(self).channels@.len(),
            forall|c: int|
                0 <= c < old(self).channels@.len() ==> #[trigger] final(self).channels@[c]@ == old(
                    self,
                ).channels@[c]@ + block@[c]@,
    {
        append_block(&mut self.channels, block);
    }

    /// The start position after `record_first_pts` with these timestamps.
    pub open spec fn start_after_block(
        &self,
        pts: i64,
        best_effort: i64,
        time_base: Rational,
        sample_rate: i32,
    ) -> i64 {
        if self.needs_first_pts {
            match spec_block_start_sample(pts, best_effort, time_base, sample_rate) {
                Some(s) => s as i64,
                None => self.start_sample,
            }
        } else {
            self.start_sample
        }
    }

    /// Whether a read of `size` samples still needs more decoded audio.
    pub fn wants_more(&self, size: usize) -> (r: bool)
        requires
            self.wf(),
        ensures
            r == (self.spec_len() < size),
    {
        self.channels[0].len() < size
    }

    /// Takes in one decoded block during a read that begins at `position`:
    /// the first block after a seek sets the start position
    /// (`record_first_pts`), a start after `position` is filled with `silence`
    /// back to `position` (`fill_gap`), and the block is appended (`append`).
    pub fn receive_block(
        &mut self,
        position: i64,
        pts: i64,
        best_effort: i64,
        time_base: Rational,
        sample_rate: i32,
        block: &Vec<Vec<T>>,
        silence: T,
    )
        requires
            old(self).wf(),
            uniform(block@),
            block@.len() == old(self).channels@.len(),
            block_start_fits(pts, best_effort, time_base, sample_rate),
            old(self).start_after_block(pts, best_effort, time_base, sample_rate) - position
                <= usize::MAX,
            old(self).start_after_block(pts, best_effort, time_base, sample_rate) - position
                <= i64::MAX,
        ensures
            ({
                let s1 = old(self).start_after_block(pts, best_effort, time_base, sample_rate);
                &&& final(self).wf()
                &&& !final(self).needs_first_pts
                &&& final(self).channels@.len() == old(self).channels@.len()
                &&& final(self).start_sample == (if s1 > position {
                    position
                } else {
                    s1
                })
                &&& forall|c: int|
                    0 <= c < old(self).channels@.len() ==> #[trigger] final(self).channels@[c]@ == (
                    if s1 > position {
                        filled((s1 - position) as nat, silence)
                    } else {
                        Seq::<T>::empty()
                    }) + old(self).channels@[c]@ + block@[c]@
            }),
    {
        let ghost old_chs = self.channels@;
        self.record_first_pts(pts, best_effort, time_base, sample_rate);
        self.fill_gap(position, silence);
        let ghost mid = self.channels@;
        self.append(block);
        assert forall|c: int| 0 <= c < old_chs.len() implies #[trigger] self.channels@[c]@ == (
        if old(self).start_after_block(pts, best_effort, time_base, sample_rate) > position {
            filled(
                (old(self).start_after_block(pts, best_effort, time_base, sample_rate) - position) as nat,
                silence,
            )
        } else {
            Seq::<T>::empty()
        }) + old_chs[c]@ + block@[c]@ by {
            if old(self).start_after_block(pts, best_effort, time_base, sample_rate) <= position {
                assert(mid[c]@ == old_chs[c]@);
                assert(Seq::<T>::empty() + old_chs[c]@ =~= old_chs[c]@);
            }
        }
    }

    /// Hands out the next `size` samples of every channel: the buffered ones
    /// first, then `silence` for what is missing. The handed-out samples leave
    /// the buffer and the start position moves past them.
    pub fn take(&mut self, size: usize, silence: T) -> (out: Vec<Vec<T>>)
        requires
            old(self).wf(),
            old(self).start_sample + (if size < old(self).spec_len() {
                size as nat
            } else {
                old(self).spec_len()
            }) <= i64::MAX,
        ensures
            ({
                let copied = if size < old(self).spec_len() {
                    size as nat
                } else {
                    old(self).spec_len()
                };
                &&& final(self).wf()
                &&& final(self).needs_first_pts == old(self).needs_first_pts
                &&& final(self).start_sample == old(self).start_sample + copied
                &&& final(self).channels@.len() == old(self).channels@.len()
                &&& out@.len() == old(self).channels@.len()
                &&& forall|c: int|
                    0 <= c < old(self).channels@.len() ==> {
                        &&& #[trigger] out@[c]@ == old(self).channels@[c]@.take(copied as int)
                            + filled((size - copied) as nat, silence)
                        &&& final(self).channels@[c]@ == old(self).channels@[c]@.skip(
                            copied as int,
                        )
                    }
            }),
    {
        let len = self.channels[0].len();
        let copied: usize = if size < len {
            size
        } else {
            len
        };
        let out = split_front(&mut self.channels, copied, size, silence);
        self.start_sample = (self.start_sample as i128 + copied as i128) as i64;
        out
    }
}

} // verus!
