use std::cell::Cell;

use imf_decoder::frame::Frame;
use imf_decoder::queue::{Clock, Queue};

struct StepClock {
    now: Cell<u64>,
    step: u64,
}

impl Clock for StepClock {
    fn now_micros(&self) -> u64 {
        let t = self.now.get();
        self.now.set(t + self.step);
        t
    }
}

fn clock() -> StepClock {
    StepClock { now: Cell::new(1000), step: 10 }
}

fn stamped(ts: u64) -> Frame {
    let mut f = Frame::new(2, 2);
    f.timestamp = ts;
    f
}

#[test]
fn test_queue_capacity() {
    let mut queue = Queue::new(5, 2);
    assert_eq!(queue.remaining_capacity(), 5);
    assert_eq!(queue.get_max_size(), 5);

    let frame = Frame::new(640, 480);
    assert!(queue.push(frame.clone()).is_ok());
    assert_eq!(queue.get_size(), 1);
    assert_eq!(queue.remaining_capacity(), 4);
}

#[test]
fn test_batch_processing() {
    let mut queue = Queue::new(10, 3);

    for _ in 0..5 {
        let frame = Frame::new(640, 480);
        let _ = queue.push(frame);
    }

    let batch = queue.process_batch(&clock());
    assert_eq!(batch.len(), 3);

    let stats = queue.get_metrics();
    assert_eq!(stats.frames_processed, 3);
    assert_eq!(queue.get_frames_processed(), 3);
}

#[test]
fn test_queue_overflow() {
    let mut queue = Queue::new(2, 1);

    let frame1 = Frame::new(640, 480);
    let frame2 = Frame::new(640, 480);
    let frame3 = Frame::new(640, 480);

    assert!(queue.push(frame1).is_ok());
    assert!(queue.push(frame2).is_ok());
    assert!(queue.push(frame3).is_err());
    assert!(queue.is_full());

    let stats = queue.get_metrics();
    assert_eq!(stats.frames_dropped, 1);
    assert_eq!(queue.get_frames_dropped(), 1);
}

#[test]
fn test_queue_metrics() {
    let mut queue = Queue::new(5, 2);
    assert_eq!(queue.get_metrics().queue_utilization, 0);

    let frame = Frame::new(640, 480);
    let _ = queue.push(frame);

    let metrics = queue.get_metrics();
    assert!(metrics.queue_utilization > 0);
    assert_eq!(metrics.frames_processed, 0);
    assert_eq!(metrics.frames_dropped, 0);
}

#[test]
fn overflow_then_single_batch() {
    let mut queue = Queue::new(2, 1);
    assert!(queue.push(stamped(1)).is_ok());
    assert!(queue.push(stamped(2)).is_ok());
    assert!(queue.push(stamped(3)).is_err());
    assert_eq!(queue.get_frames_dropped(), 1);
    let batch = queue.process_batch(&clock());
    assert_eq!(batch.len(), 1);
    assert_eq!(queue.get_frames_processed(), 1);
    assert_eq!(queue.get_size(), 1);
}

#[test]
fn batches_of_two_over_five_frames() {
    let mut queue = Queue::new(5, 2);
    for i in 0..5 {
        assert!(queue.push(stamped(i)).is_ok());
    }
    assert_eq!(queue.process_batch(&clock()).len(), 2);
    assert_eq!(queue.process_batch(&clock()).len(), 2);
    assert_eq!(queue.process_batch(&clock()).len(), 1);
    assert_eq!(queue.get_frames_processed(), 5);
}

#[test]
fn input_never_exceeds_capacity() {
    let mut queue = Queue::new(3, 2);
    for i in 0..10u64 {
        let before = queue.get_size();
        let dropped = queue.get_frames_dropped();
        let accepted = queue.push(stamped(i)).is_ok();
        assert!(queue.get_size() <= 3);
        if !accepted {
            assert_eq!(queue.get_frames_dropped(), dropped + 1);
            assert_eq!(queue.get_size(), before);
        }
    }
    assert_eq!(queue.get_frames_dropped(), 7);
}

#[test]
fn batch_stops_early_only_when_input_runs_out() {
    let mut queue = Queue::new(10, 4);
    for i in 0..6 {
        let _ = queue.push(stamped(i));
    }
    let first = queue.process_batch(&clock());
    assert_eq!(first.len(), 4);
    assert_eq!(queue.get_size(), 2);
    let second = queue.process_batch(&clock());
    assert_eq!(second.len(), 2);
    assert_eq!(queue.get_size(), 0);
    assert!(queue.process_batch(&clock()).is_empty());
    let stamps: Vec<u64> = first.iter().chain(second.iter()).map(|f| f.timestamp).collect();
    assert_eq!(stamps, vec![0, 1, 2, 3, 4, 5]);
}

#[test]
fn frames_leave_in_admission_order() {
    let mut queue = Queue::new(4, 3);
    for i in 10..14 {
        assert!(queue.push(stamped(i)).is_ok());
    }
    assert!(queue.push(stamped(99)).is_err());
    queue.process_batch(&clock());
    assert_eq!(queue.take_output().map(|f| f.timestamp), Some(10));
    let _ = queue.push(stamped(14));
    queue.process_batch(&clock());
    queue.process_batch(&clock());
    let mut out = Vec::new();
    while let Some(f) = queue.take_output() {
        out.push(f.timestamp);
    }
    assert_eq!(out, vec![11, 12, 13, 14]);
    assert!(queue.is_empty());
}

#[test]
fn clear_resets_stages_and_metrics() {
    let mut queue = Queue::new(2, 1);
    let _ = queue.push(stamped(1));
    let _ = queue.push(stamped(2));
    let _ = queue.push(stamped(3));
    queue.process_next(&clock());
    queue.clear();
    let stats = queue.get_metrics();
    assert_eq!(stats.frames_processed, 0);
    assert_eq!(stats.frames_dropped, 0);
    assert_eq!(stats.queue_utilization, 0);
    assert_eq!(stats.average_processing_time, 0);
    assert_eq!(queue.get_queue_sizes(), (0, 0, 0));
    assert!(queue.is_empty());
    assert_eq!(queue.get_max_size(), 2);
    assert_eq!(queue.get_batch_size(), 1);
}

#[test]
fn round_trip_keeps_bytes_and_flags() {
    let mut queue = Queue::new(4, 2);
    let mut f = Frame::new(1, 2);
    f.set_data(vec![1, 2, 3, 4, 5, 6, 7, 8]);
    f.timestamp = 42;
    f.is_keyframe = true;
    assert!(queue.push(f).is_ok());
    let batch = queue.process_batch(&clock());
    assert_eq!(batch[0].data, vec![1, 2, 3, 4, 5, 6, 7, 8]);
    let out = queue.take_output().unwrap();
    assert_eq!(out.data, vec![1, 2, 3, 4, 5, 6, 7, 8]);
    assert_eq!(out.timestamp, 42);
    assert!(out.is_keyframe);
    assert_eq!((out.width, out.height), (1, 2));
}

#[test]
fn advance_on_empty_input() {
    let mut queue = Queue::new(3, 2);
    assert!(queue.process_next(&clock()).is_none());
    assert_eq!(queue.get_frames_processed(), 0);
    assert!(queue.take_output().is_none());
    assert!(queue.process_batch(&clock()).is_empty());
}

#[test]
fn queue_of_no_capacity_rejects_everything() {
    let mut queue = Queue::new(0, 1);
    assert!(queue.is_full());
    assert!(queue.push(stamped(0)).is_err());
    assert_eq!(queue.get_frames_dropped(), 1);
    assert_eq!(queue.get_metrics().queue_utilization, 0);
    assert_eq!(queue.remaining_capacity(), 0);
}

#[test]
fn utilization_in_parts_per_million() {
    let mut queue = Queue::new(5, 2);
    let _ = queue.push(stamped(0));
    assert_eq!(queue.get_metrics().queue_utilization, 66666);
    let _ = queue.push(stamped(1));
    let _ = queue.push(stamped(2));
    queue.process_batch(&clock());
    // frames only move between stages: the total is unchanged
    assert_eq!(queue.get_metrics().queue_utilization, 200000);
    queue.take_output();
    assert_eq!(queue.get_metrics().queue_utilization, 133333);
}

#[test]
fn stats_snapshot_matches_sizes() {
    let mut queue = Queue::new(5, 2);
    for i in 0..3 {
        let _ = queue.push(stamped(i));
    }
    queue.process_batch(&clock());
    let stats = queue.get_metrics();
    assert_eq!(stats.input_queue_size, 1);
    assert_eq!(stats.processing_queue_size, 0);
    assert_eq!(stats.output_queue_size, 2);
    assert_eq!(stats.max_size, 5);
    assert_eq!(stats.batch_size, 2);
    assert_eq!(stats.last_process_time, queue.get_processing_time());
}

#[test]
fn rejected_frame_goes_back_to_the_caller() {
    let mut queue = Queue::new(1, 1);
    assert!(queue.push(stamped(1)).is_ok());
    match queue.push(stamped(2)) {
        Err(f) => assert_eq!(f.timestamp, 2),
        Ok(()) => panic!("a full queue admitted a frame"),
    }
    // reject newest: the older frame is still the one that comes out
    queue.process_batch(&clock());
    assert_eq!(queue.take_output().map(|f| f.timestamp), Some(1));
}

#[test]
fn processing_times_come_from_the_clock() {
    let mut queue = Queue::new(5, 3);
    for i in 0..3 {
        let _ = queue.push(stamped(i));
    }
    let c = StepClock { now: Cell::new(0), step: 25 };
    queue.process_batch(&c);
    let stats = queue.get_metrics();
    assert_eq!(stats.last_process_time, 25);
    assert_eq!(stats.average_processing_time, 25);
    // a clock that goes backwards records zero
    let _ = queue.push(stamped(9));
    let odd = BackClock { now: Cell::new(500) };
    queue.process_next(&odd);
    assert_eq!(queue.get_processing_time(), 0);
    assert_eq!(queue.get_metrics().average_processing_time, 18);
}

struct BackClock {
    now: Cell<u64>,
}

impl Clock for BackClock {
    fn now_micros(&self) -> u64 {
        let t = self.now.get();
        self.now.set(t - 100);
        t
    }
}
