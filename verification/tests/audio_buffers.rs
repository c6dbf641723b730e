use nukeav1::encoder_audio::EncoderAudioQueue;
use nukeav1::import_audio::{audio_seek_target, block_start_sample, ImportAudioBuffer};
use nukeav1::timing::{Rational, NO_PTS};

fn block(chs: &[&[i32]]) -> Vec<Vec<i32>> {
    chs.iter().map(|c| c.to_vec()).collect()
}

#[test]
fn import_buffer_starts_empty() {
    let b: ImportAudioBuffer<i32> = ImportAudioBuffer::new(2);
    assert_eq!(b.channels.len(), 2);
    assert_eq!(b.buffered(), 0);
    assert_eq!(b.start_sample, 0);
    assert!(!b.needs_first_pts);
    assert!(!b.covers(0));
}

#[test]
fn read_from_held_position_drops_earlier_samples() {
    let mut b: ImportAudioBuffer<i32> = ImportAudioBuffer::new(2);
    b.start_sample = 100;
    b.append(&block(&[&[1, 2, 3, 4], &[11, 12, 13, 14]]));
    assert!(b.covers(102));
    assert!(!b.covers(104));
    assert!(!b.reposition(102));
    assert_eq!(b.start_sample, 102);
    assert_eq!(b.channels, block(&[&[3, 4], &[13, 14]]));
    let out = b.take(3, 0);
    assert_eq!(out, block(&[&[3, 4, 0], &[13, 14, 0]]));
    assert_eq!(b.start_sample, 104);
    assert_eq!(b.buffered(), 0);
}

#[test]
fn read_from_other_position_asks_for_a_seek() {
    let mut b: ImportAudioBuffer<i32> = ImportAudioBuffer::new(1);
    b.append(&block(&[&[5, 6]]));
    assert!(b.reposition(500));
    assert!(b.needs_first_pts);
    assert_eq!(b.start_sample, 500);
    assert_eq!(b.buffered(), 0);
}

#[test]
fn first_block_after_seek_sets_start_and_gap_is_silence() {
    let mut b: ImportAudioBuffer<i32> = ImportAudioBuffer::new(1);
    assert!(b.reposition(1000));
    // decoder landed at pts 21 in 1/48 s units at 1000 Hz: sample 437
    b.record_first_pts(21, NO_PTS, Rational { num: 1, den: 48 }, 1000);
    assert_eq!(b.start_sample, 437);
    assert!(!b.needs_first_pts);
    // later blocks do not move the start
    b.record_first_pts(99, NO_PTS, Rational { num: 1, den: 48 }, 1000);
    assert_eq!(b.start_sample, 437);
    let mut b: ImportAudioBuffer<i32> = ImportAudioBuffer::new(1);
    b.reposition(10);
    b.record_first_pts(20, NO_PTS, Rational { num: 1, den: 1 }, 1);
    assert_eq!(b.start_sample, 20);
    b.append(&block(&[&[7, 8]]));
    b.fill_gap(10, -1);
    assert_eq!(b.start_sample, 10);
    assert_eq!(b.channels[0], vec![-1, -1, -1, -1, -1, -1, -1, -1, -1, -1, 7, 8]);
    // no gap: nothing changes
    b.fill_gap(15, -1);
    assert_eq!(b.channels[0].len(), 12);
}

#[test]
fn first_block_without_timestamps_keeps_start() {
    let mut b: ImportAudioBuffer<i32> = ImportAudioBuffer::new(1);
    b.reposition(10);
    b.record_first_pts(NO_PTS, NO_PTS, Rational { num: 1, den: 1 }, 48000);
    assert_eq!(b.start_sample, 10);
    assert!(!b.needs_first_pts);
    assert_eq!(block_start_sample(NO_PTS, 5, Rational { num: 1, den: 10 }, 100), Some(50));
    assert_eq!(block_start_sample(7, 5, Rational { num: 1, den: 0 }, 100), None);
    assert_eq!(block_start_sample(-7, 5, Rational { num: 1, den: 2 }, 1), Some(-3));
}

#[test]
fn seek_target_converts_samples_to_time_base() {
    assert_eq!(audio_seek_target(48000, Rational { num: 1, den: 1000 }, 48000), 1000);
    assert_eq!(audio_seek_target(100, Rational { num: 0, den: 1000 }, 48000), 0);
    assert_eq!(audio_seek_target(100, Rational { num: 1, den: 1000 }, 0), 0);
    assert_eq!(audio_seek_target(-3, Rational { num: 1, den: 1 }, 2), -1);
}

#[test]
fn encoder_queue_cuts_fixed_frames() {
    let mut q: EncoderAudioQueue<i32> = EncoderAudioQueue::new(2);
    q.push_block(&block(&[&[1, 2, 3], &[4, 5, 6]]));
    assert!(q.pop_frame(4).is_none());
    q.push_block(&block(&[&[7, 8], &[9, 10]]));
    let f = q.pop_frame(4).unwrap();
    assert_eq!(f.pts, 0);
    assert_eq!(f.samples, block(&[&[1, 2, 3, 7], &[4, 5, 6, 9]]));
    assert_eq!(q.next_pts, 4);
    assert_eq!(q.buffered(), 1);
    assert!(q.pop_frame(4).is_none());
    let t = q.pop_padded_tail(4, 0).unwrap();
    assert_eq!(t.pts, 4);
    assert_eq!(t.samples, block(&[&[8, 0, 0, 0], &[10, 0, 0, 0]]));
    assert_eq!(q.next_pts, 8);
    assert_eq!(q.buffered(), 0);
    assert!(q.pop_padded_tail(4, 0).is_none());
}

#[test]
fn full_tail_is_not_padded() {
    let mut q: EncoderAudioQueue<i32> = EncoderAudioQueue::new(1);
    q.push_block(&block(&[&[1, 2]]));
    assert!(q.pop_padded_tail(2, 0).is_none());
    assert_eq!(q.pop_frame(2).unwrap().samples, block(&[&[1, 2]]));
}

#[test]
fn received_blocks_fill_the_gap_and_append() {
    let mut b: ImportAudioBuffer<i32> = ImportAudioBuffer::new(2);
    assert!(b.reposition(100));
    assert!(b.wants_more(4));
    // first block after the seek starts at sample 102: two samples of silence first
    b.receive_block(100, 102, NO_PTS, Rational { num: 1, den: 1 }, 1, &block(&[&[1, 2], &[3, 4]]), 0);
    assert_eq!(b.start_sample, 100);
    assert_eq!(b.channels, block(&[&[0, 0, 1, 2], &[0, 0, 3, 4]]));
    assert!(!b.needs_first_pts);
    assert!(!b.wants_more(4));
    assert!(b.wants_more(5));
    // later blocks are appended whatever their timestamps
    b.receive_block(100, 500, NO_PTS, Rational { num: 1, den: 1 }, 1, &block(&[&[5], &[6]]), 0);
    assert_eq!(b.channels, block(&[&[0, 0, 1, 2, 5], &[0, 0, 3, 4, 6]]));
}

#[test]
fn draining_takes_every_full_frame() {
    let mut q: EncoderAudioQueue<i32> = EncoderAudioQueue::new(2);
    q.push_block(&block(&[&[1, 2, 3, 4, 5, 6, 7], &[11, 12, 13, 14, 15, 16, 17]]));
    let frames = q.drain_frames(3);
    assert_eq!(frames.len(), 2);
    assert_eq!((frames[0].pts, frames[1].pts), (0, 3));
    assert_eq!(frames[0].samples, block(&[&[1, 2, 3], &[11, 12, 13]]));
    assert_eq!(frames[1].samples, block(&[&[4, 5, 6], &[14, 15, 16]]));
    assert_eq!(q.channels, block(&[&[7], &[17]]));
    assert_eq!(q.next_pts, 6);
    // nothing full left: nothing taken
    assert!(q.drain_frames(3).is_empty());
    assert_eq!(q.next_pts, 6);
}
