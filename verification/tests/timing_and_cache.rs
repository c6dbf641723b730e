use nukeav1::cache::{CacheState, WorkerCommand};
use nukeav1::pixels::bgra64_to_u16_shift;
use nukeav1::timing::needs_seek;
use nukeav1::worker::{get_dynamic_cache_size, DecodeJob, DecodeStep, DecoderWorker, ReceiveResult, WorkerPlan, DECODER_END_OF_STREAM, DECODER_NEEDS_INPUT, MAX_DECODE_FEEDS, NOTHING_DECODED};

#[test]
fn shift_halves_each_sample() {
    let src = [0u16, 1, 2, 65535, 40000];
    let mut dst = [7u16; 5];
    bgra64_to_u16_shift(&src, &mut dst);
    assert_eq!(dst, [0, 0, 1, 32767, 20000]);
}

#[test]
fn shift_stops_at_shorter_buffer() {
    let src = [100u16, 200];
    let mut dst = [9u16; 4];
    bgra64_to_u16_shift(&src, &mut dst);
    assert_eq!(dst, [50, 100, 9, 9]);
    let src = [100u16, 200, 300];
    let mut dst = [0u16; 1];
    bgra64_to_u16_shift(&src, &mut dst);
    assert_eq!(dst, [50]);
}

#[test]
fn seek_only_outside_the_read_ahead_window() {
    assert!(!needs_seek(5, 5));
    assert!(!needs_seek(15, 5));
    assert!(needs_seek(16, 5));
    assert!(needs_seek(4, 5));
    assert!(needs_seek(0, NOTHING_DECODED) == true);
    assert!(needs_seek(i32::MAX, i32::MAX - 5) == false);
}

#[test]
fn cache_stores_and_finds_frames() {
    let mut c: CacheState<u64> = CacheState::new();
    assert!(!c.is_cached(3));
    assert_eq!(c.store_frame(3, 300, 2).map(|e| e.frame_number), None);
    assert_eq!(c.store_frame(4, 400, 2).map(|e| e.frame_number), None);
    assert_eq!(c.lookup(3), Some(&300));
    assert_eq!(c.find(4), Some(1));
    // full: the oldest entry leaves
    let evicted = c.store_frame(5, 500, 2).unwrap();
    assert_eq!((evicted.frame_number, evicted.frame), (3, 300));
    assert!(!c.is_cached(3));
    assert_eq!(c.lookup(5), Some(&500));
    assert_eq!(c.frame_cache.len(), 2);
}

#[test]
fn cache_pair_store_keeps_the_limit() {
    let mut c: CacheState<&str> = CacheState::new();
    c.store_frame(1, "a", 2);
    c.store_frame(2, "b", 2);
    let (e1, e2) = c.store_pair(9, "later", 5, "requested", 2);
    assert_eq!(e1.map(|e| (e.frame_number, e.frame)), Some((1, "a")));
    assert_eq!(e2.map(|e| (e.frame_number, e.frame)), Some((2, "b")));
    assert_eq!(c.frame_cache.len(), 2);
    assert_eq!(c.lookup(9), Some(&"later"));
    assert_eq!(c.lookup(5), Some(&"requested"));
    // with room, nothing leaves
    let mut c: CacheState<u8> = CacheState::new();
    let (e1, e2) = c.store_pair(3, 30, 2, 20, 4);
    assert!(e1.is_none() && e2.is_none());
    assert_eq!(c.frame_cache.len(), 2);
}

#[test]
fn cache_duplicates_and_drain() {
    let mut c: CacheState<&str> = CacheState::new();
    c.store_frame(1, "a", 4);
    c.store_frame(1, "b", 4);
    assert_eq!(c.frame_cache.len(), 2);
    // the first entry showing the frame is found
    assert_eq!(c.lookup(1), Some(&"a"));
    let all = c.drain_frames();
    assert_eq!(all.len(), 2);
    assert!(c.frame_cache.is_empty());
}

#[test]
fn requests_are_sent_once() {
    let mut c: CacheState<u8> = CacheState::new();
    assert!(c.request_frame(7));
    assert!(!c.request_frame(7));
    assert!(c.must_wait(7));
    c.store_frame(7, 1, 4);
    assert!(!c.must_wait(7));
    c.finish_request(7);
    assert!(!c.decoding_in_progress.contains(&7));
    // a cached frame needs no decoding
    assert!(!c.request_frame(7));
    assert!(c.mark_pending(8));
    assert!(!c.mark_pending(8));
    assert!(c.must_wait(8));
    c.finish_request(8);
    assert!(!c.must_wait(8));
}

#[test]
fn worker_plans_commands() {
    let mut w = DecoderWorker::new();
    assert_eq!(w.last_decoded_frame, NOTHING_DECODED);
    assert_eq!(w.plan(WorkerCommand::Terminate, false), WorkerPlan::Exit);
    assert_eq!(w.plan(WorkerCommand::DecodeVideoFrame(3), true), WorkerPlan::AlreadyCached);
    assert_eq!(w.plan(WorkerCommand::DecodeVideoFrame(3), false), WorkerPlan::Decode { frame: 3, seek: true });
    w.delivered(3);
    assert_eq!(w.plan(WorkerCommand::DecodeVideoFrame(4), false), WorkerPlan::Decode { frame: 4, seek: false });
    assert_eq!(w.plan(WorkerCommand::DecodeVideoFrame(14), false), WorkerPlan::Decode { frame: 14, seek: true });
    assert_eq!(w.plan(WorkerCommand::DecodeVideoFrame(2), false), WorkerPlan::Decode { frame: 2, seek: true });
}

#[test]
fn decode_job_steps() {
    let job = DecodeJob::new(10);
    assert_eq!(job.on_receive(ReceiveResult::Picture(10)), DecodeStep::StoreRequested);
    assert_eq!(job.on_receive(ReceiveResult::Picture(9)), DecodeStep::SkipPicture);
    assert_eq!(job.on_receive(ReceiveResult::Picture(12)), DecodeStep::StoreOvershoot(12));
    assert_eq!(job.on_receive(ReceiveResult::Status(DECODER_NEEDS_INPUT)), DecodeStep::Feed);
    assert_eq!(job.on_receive(ReceiveResult::Status(DECODER_END_OF_STREAM)), DecodeStep::Feed);
    assert_eq!(job.on_receive(ReceiveResult::Status(-22)), DecodeStep::GiveUp);
}

#[test]
fn decode_job_gives_up_after_the_feed_limit() {
    let mut job = DecodeJob::new(0);
    let mut feeds = 0;
    while job.on_fed(false) {
        feeds += 1;
    }
    assert_eq!(feeds, MAX_DECODE_FEEDS);
    assert_eq!(job.feeds, MAX_DECODE_FEEDS + 1);
    let mut job = DecodeJob::new(0);
    assert!(!job.on_fed(true));
    assert_eq!(job.feeds, 0);
}

#[test]
fn cache_size_follows_memory() {
    let gb: u64 = 1024 * 1024 * 1024;
    assert_eq!(get_dynamic_cache_size(None), 16);
    assert_eq!(get_dynamic_cache_size(Some(4 * gb)), 4);
    assert_eq!(get_dynamic_cache_size(Some(8 * gb - 1)), 4);
    assert_eq!(get_dynamic_cache_size(Some(8 * gb)), 8);
    assert_eq!(get_dynamic_cache_size(Some(16 * gb)), 16);
    assert_eq!(get_dynamic_cache_size(Some(31 * gb)), 16);
    assert_eq!(get_dynamic_cache_size(Some(32 * gb)), 32);
    assert_eq!(get_dynamic_cache_size(Some(u64::MAX)), 32);
}

#[test]
fn cache_pair_store_evicts_once_when_one_slot_is_left() {
    let mut c: CacheState<u8> = CacheState::new();
    c.store_frame(1, 10, 2);
    let (e1, e2) = c.store_pair(4, 40, 3, 30, 2);
    assert!(e1.is_none());
    assert_eq!(e2.map(|e| e.frame_number), Some(1));
    assert_eq!(c.frame_cache.len(), 2);
}
