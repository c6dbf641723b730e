use std::collections::HashSet;
use vstd::prelude::*;

verus! {

broadcast use vstd::std_specs::hash::group_hash_axioms;

/// A decoded frame kept for later requests, with the frame index it shows.
/// `F` is the handle of the decoded picture.
pub struct CachedFrame<F> {
    pub frame_number: i32,
    pub frame: F,
}

/// A command for the background decoder.
#[derive(Clone, Copy, Debug, PartialEq, Eq)]
pub enum WorkerCommand {
    DecodeVideoFrame(i32),
    Terminate,
}

/// The state shared between the host's frame requests and the background
/// decoder: the decoded frames, oldest first, and the frame indices whose
/// decoding has been requested and not yet finished.
pub struct CacheState<F> {
    pub frame_cache: Vec<CachedFrame<F>>,
    pub decoding_in_progress: HashSet<i32>,
}

/// Some entry of `frames` shows frame `n`.
pub open spec fn holds_frame<F>(frames: Seq<CachedFrame<F>>, n: i32) -> bool {
    exists|i: int| 0 <= i < frames.len() && #[trigger] frames[i].frame_number == n
}

/// `i` is the first entry of `frames` that shows frame `n`.
pub open spec fn first_entry_of<F>(frames: Seq<CachedFrame<F>>, n: i32, i: int) -> bool {
    &&& 0 <= i < frames.len()
    &&& frames[i].frame_number == n
    &&& forall|j: int| 0 <= j < i ==> #[trigger] frames[j].frame_number != n
}

/// A request for frame `n` is still waiting: its decoding is in progress and
/// no cached entry shows it.
pub open spec fn spec_must_wait<F>(frames: Seq<CachedFrame<F>>, pending: Set<i32>, n: i32) -> bool {
    pending.contains(n) && !holds_frame(frames, n)
}

/// The frame list after storing a frame with room for `limit` entries (at
/// least one): the oldest entry is dropped when the list already holds `limit`
/// or more, and the new entry goes last.
pub open spec fn spec_store<F>(frames: Seq<CachedFrame<F>>, entry: CachedFrame<F>, limit: nat) -> Seq<
    CachedFrame<F>,
> {
    if frames.len() >= limit {
        frames.drop_first().push(entry)
    } else {
        frames.push(entry)
    }
}

impl<F> CacheState<F> {
    /// An empty cache with no decoding in progress.
    pub fn new() -> (r: Self)
        ensures
            r.frame_cache@ == Seq::<CachedFrame<F>>::empty(),
            r.decoding_in_progress@ == Set::<i32>::empty(),
    {
        CacheState { frame_cache: Vec::new(), decoding_in_progress: HashSet::new() }
    }

    /// The position of the first cached entry that shows frame `n`.
    pub fn find(&self, n: i32) -> (r: Option<usize>)
        ensures
            match r {
                Some(i) => first_entry_of(self.frame_cache@, n, i as int),
                None => !holds_frame(self.frame_cache@, n),
            },
    {
        let mut i: usize = 0;
        while i < self.frame_cache.len()
            invariant
                i <= self.frame_cache@.len(),
                forall|j: int| 0 <= j < i ==> #[trigger] self.frame_cache@[j].frame_number != n,
            decreases self.frame_cache@.len() - i,
        {
            if self.frame_cache[i].frame_number == n {
                return Some(i);
            }
            i = i + 1;
        }
        None
    }

    /// Whether some cached entry shows frame `n`.
    pub fn is_cached(&self, n: i32) -> (r: bool)
        ensures
            r == holds_frame(self.frame_cache@, n),
    {
        self.find(n).is_some()
    }

    /// The picture of the first cached entry that shows frame `n`.
    pub fn lookup(&self, n: i32) -> (r: Option<&F>)
        ensures
            match r {
                Some(f) => exists|i: int|
                    first_entry_of(self.frame_cache@, n, i) && *f == self.frame_cache@[i].frame,
                None => !holds_frame(self.frame_cache@, n),
            },
    {
        match self.find(n) {
            Some(i) => Some(&self.frame_cache[i].frame),
            None => None,
        }
    }

    /// Records that frame `n` is being decoded. Returns whether it was not
    /// recorded before, that is whether a decode command has to be sent.
    pub fn mark_pending(&mut self, n: i32) -> (newly: bool)
        ensures
            final(self).frame_cache@ == old(self).frame_cache@,
            final(self).decoding_in_progress@ == old(self).decoding_in_progress@.insert(n),
            newly == !old(self).decoding_in_progress@.contains(n),
    {
        if self.decoding_in_progress.contains(&n) {
            false
        } else {
            self.decoding_in_progress.insert(n);
            true
        }
    }

    /// A read-ahead request for frame `n`: unless the frame is cached or already
    /// being decoded, records it as being decoded and returns `true` (a decode
    /// command has to be sent); otherwise changes nothing and returns `false`.
    pub fn request_frame(&mut self, n: i32) -> (send: bool)
        ensures
            final(self).frame_cache@ == old(self).frame_cache@,
            send == (!holds_frame(old(self).frame_cache@, n)
                && !old(self).decoding_in_progress@.contains(n)),
            final(self).decoding_in_progress@ == (if send {
                old(self).decoding_in_progress@.insert(n)
            } else {
                old(self).decoding_in_progress@
            }),
    {
        if self.is_cached(n) || self.decoding_in_progress.contains(&n) {
            false
        } else {
            self.decoding_in_progress.insert(n);
            true
        }
    }

    /// Whether a request for frame `n` still has to wait for the decoder.
    pub fn must_wait(&self, n: i32) -> (r: bool)
        ensures
            r == spec_must_wait(self.frame_cache@, self.decoding_in_progress@, n),
    {
        self.decoding_in_progress.contains(&n) && !self.is_cached(n)
    }

    /// Stores a decoded frame. When the cache already holds `limit` or more
    /// entries, the oldest one is removed and handed back so that its picture
    /// can be released.
    pub fn store_frame(&mut self, n: i32, frame: F, limit: usize) -> (evicted: Option<
        CachedFrame<F>,
    >)
        requires
            limit >= 1,
        ensures
            final(self).decoding_in_progress@ == old(self).decoding_in_progress@,
            final(self).frame_cache@ == spec_store(
                old(self).frame_cache@,
                CachedFrame { frame_number: n, frame },
                limit as nat,
            ),
            match evicted {
                Some(e) => old(self).frame_cache@.len() >= limit && e == old(self).frame_cache@[0],
                None => old(self).frame_cache@.len() < limit,
            },
            old(self).frame_cache@.len() < limit ==> final(self).frame_cache@ == old(
                self,
            ).frame_cache@.push(CachedFrame { frame_number: n, frame }),
            old(self).frame_cache@.len() >= limit ==> final(self).frame_cache@ == old(
                self,
            ).frame_cache@.drop_first().push(CachedFrame { frame_number: n, frame }),
    {
        let evicted = if self.frame_cache.len() >= limit {
            Some(self.frame_cache.remove(0))
        } else {
            None
        };
        self.frame_cache.push(CachedFrame { frame_number: n, frame });
        evicted
    }

    /// Stores two decoded frames one after the other, each as `store_frame`
    /// does: room is made before each of them, so the cache never grows past
    /// `limit`. Hands back the entries removed to make room, oldest first.
    pub fn store_pair(
        &mut self,
        first_n: i32,
        first: F,
        second_n: i32,
        second: F,
        limit: usize,
    ) -> (evicted: (Option<CachedFrame<F>>, Option<CachedFrame<F>>))
        requires
            limit >= 1,
        ensures
            final(self).decoding_in_progress@ == old(self).decoding_in_progress@,
            final(self).frame_cache@ == spec_store(
                spec_store(
                    old(self).frame_cache@,
                    CachedFrame { frame_number: first_n, frame: first },
                    limit as nat,
                ),
                CachedFrame { frame_number: second_n, frame: second },
                limit as nat,
            ),
            old(self).frame_cache@.len() <= limit ==> final(self).frame_cache@.len() <= limit,
            match evicted.0 {
                Some(e) => old(self).frame_cache@.len() >= limit && e == old(self).frame_cache@[0],
                None => old(self).frame_cache@.len() < limit,
            },
            ({
                let mid = spec_store(
                    old(self).frame_cache@,
                    CachedFrame { frame_number: first_n, frame: first },
                    limit as nat,
                );
                match evicted.1 {
                    Some(e) => mid.len() >= limit && e == mid[0],
                    None => mid.len() < limit,
                }
            }),
    {
        let e1 = self.store_frame(first_n, first, limit);
        let e2 = self.store_frame(second_n, second, limit);
        (e1, e2)
    }

    /// Records that the decoder has finished with frame `n`.
    pub fn finish_request(&mut self, n: i32)
        ensures
            final(self).frame_cache@ == old(self).frame_cache@,
            final(self).decoding_in_progress@ == old(self).decoding_in_progress@.remove(n),
    {
        self.decoding_in_progress.remove(&n);
    }

    /// Takes every cached entry out of the cache, oldest first, so that the
    /// pictures can be released.
    pub fn drain_frames(&mut self) -> (frames: Vec<CachedFrame<F>>)
        ensures
            frames@ == old(self).frame_cache@,
            final(self).frame_cache@ == Seq::<CachedFrame<F>>::empty(),
            final(self).decoding_in_progress@ == old(self).decoding_in_progress@,
    {
        let mut out: Vec<CachedFrame<F>> = Vec::new();
        std::mem::swap(&mut out, &mut self.frame_cache);
        out
    }
}

} // verus!
