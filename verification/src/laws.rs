use crate::cache::{CachedFrame, holds_frame, spec_must_wait, spec_store};
use crate::encoder_audio::{audio_requested_after, totals_nondecreasing};
use crate::samples::filled;
use crate::worker::{spec_cache_size_for, spec_decode_step, DecodeStep, ReceiveResult, DECODER_END_OF_STREAM, DECODER_NEEDS_INPUT};
use vstd::prelude::*;

verus! {

/// A stored frame can be found in the cache afterwards.
pub proof fn law_stored_frame_is_cached<F>(frames: Seq<CachedFrame<F>>, n: i32, f: F, limit: nat)
    requires
        limit >= 1,
    ensures
        holds_frame(spec_store(frames, CachedFrame { frame_number: n, frame: f }, limit), n),
{
    let after = spec_store(frames, CachedFrame { frame_number: n, frame: f }, limit);
    assert(after[after.len() - 1].frame_number == n);
}

/// Storing a frame into a cache that holds `limit` entries or more keeps its
/// size (the oldest entry makes room); a cache with room grows by one. So a
/// cache that starts within its limit stays within it.
pub proof fn law_store_respects_limit<F>(frames: Seq<CachedFrame<F>>, e: CachedFrame<F>, limit: nat)
    requires
        limit >= 1,
    ensures
        frames.len() >= limit ==> spec_store(frames, e, limit).len() == frames.len(),
        frames.len() < limit ==> spec_store(frames, e, limit).len() == frames.len() + 1,
        frames.len() <= limit ==> spec_store(frames, e, limit).len() <= limit,
{
}

/// The entry that leaves a full cache is the oldest one; all others stay, in
/// order, ahead of the new entry.
pub proof fn law_store_evicts_oldest<F>(frames: Seq<CachedFrame<F>>, e: CachedFrame<F>, limit: nat)
    requires
        limit >= 1,
        frames.len() >= limit,
    ensures
        forall|i: int|
            0 <= i < frames.len() - 1 ==> #[trigger] spec_store(frames, e, limit)[i] == frames[i + 1],
        spec_store(frames, e, limit).last() == e,
{
}

/// A request stops waiting once the decoder has stored its frame, and once the
/// decoder has finished with it.
pub proof fn law_delivery_ends_wait<F>(
    frames: Seq<CachedFrame<F>>,
    pending: Set<i32>,
    n: i32,
    f: F,
    limit: nat,
)
    requires
        limit >= 1,
    ensures
        !spec_must_wait(spec_store(frames, CachedFrame { frame_number: n, frame: f }, limit), pending, n),
        !spec_must_wait(frames, pending.remove(n), n),
{
    law_stored_frame_is_cached(frames, n, f, limit);
}

/// A frame is never sent to the decoder twice by read-ahead requests: after one
/// request for a frame, whether it sent a decode command or not, a second
/// request for the same frame sends none.
pub proof fn law_requests_are_not_repeated<F>(frames: Seq<CachedFrame<F>>, pending: Set<i32>, n: i32)
    ensures
        ({
            let send = !holds_frame(frames, n) && !pending.contains(n);
            let after = if send {
                pending.insert(n)
            } else {
                pending
            };
            !(!holds_frame(frames, n) && !after.contains(n))
        }),
{
}

/// Reading audio from a position the buffer holds hands out the buffered
/// samples from that position on, in order, and silence once they run out:
/// sample `i` of the read is the buffered sample at position `position + i`
/// when there is one.
pub proof fn law_read_returns_samples_from_position<T>(
    channel: Seq<T>,
    start: int,
    position: int,
    size: nat,
    silence: T,
)
    requires
        start <= position < start + channel.len(),
    ensures
        ({
            let rest = channel.skip(position - start);
            let copied = if size < rest.len() {
                size
            } else {
                rest.len()
            };
            let out = rest.take(copied as int) + filled((size - copied) as nat, silence);
            &&& out.len() == size
            &&& forall|i: int|
                0 <= i < size ==> #[trigger] out[i] == (if position + i < start + channel.len() {
                    channel[position - start + i]
                } else {
                    silence
                })
        }),
{
    let rest = channel.skip(position - start);
    let copied = if size < rest.len() {
        size
    } else {
        rest.len()
    };
    let out = rest.take(copied as int) + filled((size - copied) as nat, silence);
    assert forall|i: int| 0 <= i < size implies #[trigger] out[i] == (if position + i < start
        + channel.len() {
        channel[position - start + i]
    } else {
        silence
    }) by {
        if i < copied {
            assert(out[i] == rest[i]);
        } else {
            assert(out[i] == filled((size - copied) as nat, silence)[i - copied]);
        }
    }
}

/// Samples taken out of an audio queue and the samples left behind make up,
/// in order, what was queued: nothing is lost, repeated or reordered.
pub proof fn law_frames_preserve_samples<T>(queued: Seq<T>, taken: nat)
    requires
        taken <= queued.len(),
    ensures
        queued.take(taken as int) + queued.skip(taken as int) == queued,
{
    assert(queued.take(taken as int) + queued.skip(taken as int) =~= queued);
}

/// More memory never means a smaller frame cache, and the cache holds 4, 8, 16
/// or 32 frames.
pub proof fn law_cache_size_grows_with_memory(gb1: u64, gb2: u64)
    requires
        gb1 <= gb2,
    ensures
        spec_cache_size_for(gb1) <= spec_cache_size_for(gb2),
        spec_cache_size_for(gb1) == 4 || spec_cache_size_for(gb1) == 8 || spec_cache_size_for(gb1)
            == 16 || spec_cache_size_for(gb1) == 32,
{
}

/// Exported audio keeps pace with the video: as long as the expected running
/// totals never decrease, the samples requested so far never exceed the
/// expected total of the last rendered frame (so the amount `due` asks for is
/// never negative), and after a frame whose request the host delivered they
/// equal that frame's expected total exactly.
pub proof fn law_audio_keeps_pace(expected: Seq<u64>, delivered: Seq<bool>)
    requires
        expected.len() == delivered.len(),
        expected.len() > 0,
        totals_nondecreasing(expected),
    ensures
        0 <= audio_requested_after(expected, delivered) <= expected.last(),
        delivered.last() ==> audio_requested_after(expected, delivered) == expected.last(),
    decreases expected.len(),
{
    if expected.len() > 1 {
        let e = expected.drop_last();
        let d = delivered.drop_last();
        assert(totals_nondecreasing(e)) by {
            assert forall|i: int, j: int| 0 <= i <= j < e.len() implies e[i] <= e[j] by {
                assert(e[i] == expected[i] && e[j] == expected[j]);
            }
        }
        law_audio_keeps_pace(e, d);
        assert(e.last() == expected[expected.len() - 2]);
        assert(expected[expected.len() - 2] <= expected[expected.len() - 1]);
        let before = audio_requested_after(e, d);
        assert(0 <= before <= expected.last());
    } else {
        let e = expected.drop_last();
        let d = delivered.drop_last();
        assert(e.len() == 0);
        assert(audio_requested_after(e, d) == 0);
    }
}

/// Storing into a cache with room changes nothing that was cached: every entry
/// keeps its place, frame index and picture, and the new entry comes last. So
/// a frame that was cached before is still found with its own picture.
pub proof fn law_store_with_room_keeps_entries<F>(
    frames: Seq<CachedFrame<F>>,
    e: CachedFrame<F>,
    limit: nat,
)
    requires
        limit >= 1,
        frames.len() < limit,
    ensures
        spec_store(frames, e, limit).len() == frames.len() + 1,
        forall|i: int|
            0 <= i < frames.len() ==> #[trigger] spec_store(frames, e, limit)[i] == frames[i],
        spec_store(frames, e, limit)[frames.len() as int] == e,
        forall|n: i32| holds_frame(frames, n) ==> holds_frame(spec_store(frames, e, limit), n),
{
    let after = spec_store(frames, e, limit);
    assert forall|n: i32| holds_frame(frames, n) implies holds_frame(after, n) by {
        let i = choose|i: int| 0 <= i < frames.len() && #[trigger] frames[i].frame_number == n;
        assert(after[i] == frames[i]);
    }
}

/// What the background decoder does with each answer of the decoder, for every
/// requested frame: a picture earlier than the request is skipped (decoding
/// goes on), the requested picture is stored, a later picture is stored under
/// its own index and the requested one; "needs input" and "end of stream" lead
/// to feeding the decoder, and only another status gives the request up.
pub proof fn law_decode_steps(requested: i32, n: i32, code: i32)
    ensures
        n < requested ==> spec_decode_step(requested, ReceiveResult::Picture(n))
            == DecodeStep::SkipPicture,
        n == requested ==> spec_decode_step(requested, ReceiveResult::Picture(n))
            == DecodeStep::StoreRequested,
        n > requested ==> spec_decode_step(requested, ReceiveResult::Picture(n))
            == DecodeStep::StoreOvershoot(n),
        spec_decode_step(requested, ReceiveResult::Picture(n)) != DecodeStep::GiveUp,
        spec_decode_step(requested, ReceiveResult::Picture(n)) != DecodeStep::Feed,
        (code == DECODER_NEEDS_INPUT || code == DECODER_END_OF_STREAM) ==> spec_decode_step(
            requested,
            ReceiveResult::Status(code),
        ) == DecodeStep::Feed,
        !(code == DECODER_NEEDS_INPUT || code == DECODER_END_OF_STREAM) ==> spec_decode_step(
            requested,
            ReceiveResult::Status(code),
        ) == DecodeStep::GiveUp,
{
}

} // verus!
