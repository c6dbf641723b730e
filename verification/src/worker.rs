use crate::cache::WorkerCommand;
use crate::timing::needs_seek;
use vstd::prelude::*;

verus! {

/// The decoder's "needs more input" status.
pub const DECODER_NEEDS_INPUT: i32 = -11;

/// The decoder's "end of stream" status.
pub const DECODER_END_OF_STREAM: i32 = -541478725;

/// How many times one decode request may feed the decoder before it gives up.
pub const MAX_DECODE_FEEDS: u32 = 1000;

/// The "last decoded frame" before anything has been decoded.
pub const NOTHING_DECODED: i32 = -999999;

/// What came out of the decoder when a frame was asked of it: a picture showing
/// the given frame index, or a status code.
#[derive(Clone, Copy, Debug, PartialEq, Eq)]
pub enum ReceiveResult {
    Picture(i32),
    Status(i32),
}

/// What the background decoder does next for the current request.
#[derive(Clone, Copy, Debug, PartialEq, Eq)]
pub enum DecodeStep {
    /// The picture shows the requested frame: cache it under that index; the
    /// request is done.
    StoreRequested,
    /// The picture shows an earlier frame: drop it and receive again.
    SkipPicture,
    /// The picture shows a later frame (the given index): cache it under its own
    /// index and under the requested one; the request is done.
    StoreOvershoot(i32),
    /// Feed the decoder with the next packet (or the end of the stream).
    Feed,
    /// Give up on the request.
    GiveUp,
}

/// What the background decoder does with a command.
#[derive(Clone, Copy, Debug, PartialEq, Eq)]
pub enum WorkerPlan {
    /// Leave the loop.
    Exit,
    /// The frame is cached already: wake the waiters and take the next command.
    AlreadyCached,
    /// Decode the frame, seeking first when `seek` is set.
    Decode { frame: i32, seek: bool },
}

/// One decode request in progress: the requested frame index and how often the
/// decoder has been fed for it.
pub struct DecodeJob {
    pub requested: i32,
    pub feeds: u32,
}

/// The step for a receive result (see `DecodeJob::on_receive`).
pub open spec fn spec_decode_step(requested: i32, result: ReceiveResult) -> DecodeStep {
    match result {
        ReceiveResult::Picture(n) => if n == requested {
            DecodeStep::StoreRequested
        } else if n < requested {
            DecodeStep::SkipPicture
        } else {
            DecodeStep::StoreOvershoot(n)
        },
        ReceiveResult::Status(code) => if code == DECODER_NEEDS_INPUT || code
            == DECODER_END_OF_STREAM {
            DecodeStep::Feed
        } else {
            DecodeStep::GiveUp
        },
    }
}

impl DecodeJob {
    /// A fresh request for frame `requested`.
    pub fn new(requested: i32) -> (r: Self)
        ensures
            r.requested == requested,
            r.feeds == 0,
    {
        DecodeJob { requested, feeds: 0 }
    }

    /// The next step after the decoder answered with `result`: a picture of the
    /// requested frame is stored, an earlier one skipped, a later one stored
    /// under both indices; "needs input" and "end of stream" lead to feeding the
    /// decoder, any other status to giving up.
    pub fn on_receive(&self, result: ReceiveResult) -> (step: DecodeStep)
        ensures
            step == spec_decode_step(self.requested, result),
            match result {
                ReceiveResult::Picture(n) => {
                    &&& n < self.requested ==> step == DecodeStep::SkipPicture
                    &&& n == self.requested ==> step == DecodeStep::StoreRequested
                    &&& n > self.requested ==> step == DecodeStep::StoreOvershoot(n)
                },
                ReceiveResult::Status(_) => step == DecodeStep::Feed || step == DecodeStep::GiveUp,
            },
    {
        match result {
            ReceiveResult::Picture(n) => {
                if n == self.requested {
                    DecodeStep::StoreRequested
                } else if n < self.requested {
                    DecodeStep::SkipPicture
                } else {
                    DecodeStep::StoreOvershoot(n)
                }
            },
            ReceiveResult::Status(code) => {
                if code == DECODER_NEEDS_INPUT || code == DECODER_END_OF_STREAM {
                    DecodeStep::Feed
                } else {
                    DecodeStep::GiveUp
                }
            },
        }
    }

    /// Takes note of one feeding of the decoder. A failed send ends the request;
    /// otherwise the feed is counted and the request goes on as long as no more
    /// than `MAX_DECODE_FEEDS` feeds were made.
    pub fn on_fed(&mut self, send_failed: bool) -> (go_on: bool)
        requires
            old(self).feeds <= MAX_DECODE_FEEDS,
        ensures
            final(self).requested == old(self).requested,
            send_failed ==> !go_on && final(self).feeds == old(self).feeds,
            !send_failed ==> final(self).feeds == old(self).feeds + 1,
            !send_failed ==> go_on == (old(self).feeds + 1 <= MAX_DECODE_FEEDS),
    {
        if send_failed {
            false
        } else {
            self.feeds = self.feeds + 1;
            self.feeds <= MAX_DECODE_FEEDS
        }
    }
}

/// The background decoder's own state: the last frame index it delivered.
pub struct DecoderWorker {
    pub last_decoded_frame: i32,
}

impl DecoderWorker {
    /// A decoder that has delivered nothing yet.
    pub fn new() -> (r: Self)
        ensures
            r.last_decoded_frame == NOTHING_DECODED,
    {
        DecoderWorker { last_decoded_frame: NOTHING_DECODED }
    }

    /// What to do with `cmd`, given whether the requested frame is cached: a
    /// termination command ends the loop; a cached frame needs no decoding;
    /// otherwise the frame is decoded, after a seek unless it lies at most ten
    /// frames ahead of the last delivered one.
    pub fn plan(&self, cmd: WorkerCommand, cached: bool) -> (p: WorkerPlan)
        ensures
            p == (match cmd {
                WorkerCommand::Terminate => WorkerPlan::Exit,
                WorkerCommand::DecodeVideoFrame(n) => if cached {
                    WorkerPlan::AlreadyCached
                } else {
                    WorkerPlan::Decode {
                        frame: n,
                        seek: n < self.last_decoded_frame || n > self.last_decoded_frame + 10,
                    }
                },
            }),
    {
        match cmd {
            WorkerCommand::Terminate => WorkerPlan::Exit,
            WorkerCommand::DecodeVideoFrame(n) => {
                if cached {
                    WorkerPlan::AlreadyCached
                } else {
                    WorkerPlan::Decode { frame: n, seek: needs_seek(n, self.last_decoded_frame) }
                }
            },
        }
    }

    /// Takes note that the requested frame was delivered.
    pub fn delivered(&mut self, requested: i32)
        ensures
            final(self).last_decoded_frame == requested,
    {
        self.last_decoded_frame = requested;
    }
}

/// How many decoded frames to keep for a machine with `total_gb` gigabytes of
/// memory: 4 below 8 GB, 8 below 16 GB, 16 below 32 GB, 32 otherwise.
pub open spec fn spec_cache_size_for(total_gb: u64) -> usize {
    if total_gb < 8 {
        4
    } else if total_gb < 16 {
        8
    } else if total_gb < 32 {
        16
    } else {
        32
    }
}

/// How many decoded frames to keep, given the machine's physical memory in
/// bytes when it could be queried: the memory in whole gigabytes (16 when
/// unknown) decides, as `spec_cache_size_for` says.
pub fn get_dynamic_cache_size(total_memory_bytes: Option<u64>) -> (r: usize)
    ensures
        r == spec_cache_size_for(
            match total_memory_bytes {
                Some(b) => b / 1073741824u64,
                None => 16u64,
            },
        ),
{
    let total_gb: u64 = match total_memory_bytes {
        Some(b) => b / 1073741824u64,
        None => 16,
    };
    if total_gb < 8 {
        4
    } else if total_gb < 16 {
        8
    } else if total_gb < 32 {
        16
    } else {
        32
    }
}

} // verus!
