use std::cell::Cell;

use imf_decoder::error::DecoderError;
use imf_decoder::queue::Clock;
use imf_decoder::frame::Frame;
use imf_decoder::player::{Player, PlayerCommand, PlayerError, PlayerStatus};
use imf_decoder::prefetch::{PrefetchAction, PrefetchLoop};
use imf_decoder::session::{DecodeMessage, DecoderStatus, DecoderWorker};

const FRAME_BYTES: usize = 1920 * 1080 * 4;

struct StepClock {
    now: Cell<u64>,
    step: u64,
}

impl Clock for StepClock {
    fn now_micros(&self) -> u64 {
        let t = self.now.get();
        self.now.set(t + self.step);
        t
    }
}

fn clock() -> StepClock {
    StepClock { now: Cell::new(1000), step: 10 }
}

fn open_worker() -> DecoderWorker {
    let mut w = DecoderWorker::new();
    w.initialize(true).unwrap();
    w.mark_ready().unwrap();
    w.start().unwrap();
    w
}

#[test]
fn pause_from_idle_is_refused() {
    let mut w = DecoderWorker::new();
    assert_eq!(w.status(), DecoderStatus::Idle);
    assert_eq!(
        w.pause(),
        Err(DecoderError::InvalidStateTransition { from: DecoderStatus::Idle })
    );
    assert_eq!(w.status(), DecoderStatus::Idle);
}

#[test]
fn start_twice_fails_the_second_time() {
    let mut w = DecoderWorker::new();
    w.initialize(true).unwrap();
    w.mark_ready().unwrap();
    assert_eq!(w.start(), Ok(()));
    assert_eq!(w.status(), DecoderStatus::Open);
    assert_eq!(
        w.start(),
        Err(DecoderError::InvalidStateTransition { from: DecoderStatus::Open })
    );
    assert_eq!(w.status(), DecoderStatus::Open);
}

#[test]
fn full_lifecycle_emits_notifications() {
    let mut w = DecoderWorker::new();
    w.initialize(true).unwrap();
    w.mark_ready().unwrap();
    w.start().unwrap();
    assert!(w.is_running());
    w.pause().unwrap();
    assert!(!w.is_running());
    w.resume().unwrap();
    w.close().unwrap();
    assert_eq!(w.status(), DecoderStatus::Closed);
    assert!(!w.is_running());
    assert_eq!(
        w.take_messages(),
        vec![
            DecodeMessage::DecoderCreated,
            DecodeMessage::DecoderInit,
            DecodeMessage::DecoderInited,
            DecodeMessage::DecoderReady,
            DecodeMessage::DecoderStarted,
            DecodeMessage::DecoderPaused,
            DecodeMessage::DecoderStarted,
            DecodeMessage::DecoderClosed,
        ]
    );
    assert!(w.take_messages().is_empty());
    for r in [w.start(), w.pause(), w.resume(), w.close(), w.mark_ready()] {
        assert_eq!(r, Err(DecoderError::InvalidStateTransition { from: DecoderStatus::Closed }));
    }
}

#[test]
fn failed_backend_setup_reports_an_error() {
    let mut w = DecoderWorker::new();
    assert_eq!(w.initialize(false), Err(DecoderError::InitializationFailed));
    assert_eq!(w.status(), DecoderStatus::Initializing);
    assert_eq!(
        w.take_messages(),
        vec![
            DecodeMessage::DecoderCreated,
            DecodeMessage::DecoderInit,
            DecodeMessage::DecoderOpenError
        ]
    );
    assert_eq!(
        w.initialize(true),
        Err(DecoderError::InvalidStateTransition { from: DecoderStatus::Initializing })
    );
}

#[test]
fn frames_are_gated_on_open() {
    let mut w = DecoderWorker::new();
    assert_eq!(
        w.push_frame(Frame::new(1920, 1080)),
        Err(DecoderError::SessionNotOpen { status: DecoderStatus::Idle })
    );
    assert_eq!(
        w.process_frame(vec![], &clock()).err(),
        Some(DecoderError::SessionNotOpen { status: DecoderStatus::Idle })
    );
    let mut w = open_worker();
    assert_eq!(w.push_frame(Frame::new(1920, 1080)), Ok(true));
}

#[test]
fn process_frame_pushes_and_advances() {
    let mut w = open_worker();
    w.take_messages();
    let batch = w.process_frame(vec![vec![7u8; FRAME_BYTES], vec![8u8; FRAME_BYTES]], &clock()).unwrap();
    assert_eq!(batch.len(), 2);
    assert_eq!(batch[0].data[0], 7);
    assert_eq!(batch[1].data[0], 8);
    assert_eq!(w.take_messages(), vec![DecodeMessage::DecodedVideoFrame]);
    assert_eq!(w.take_output().unwrap().data[0], 7);
    assert_eq!(w.take_output().unwrap().data[0], 8);
    assert!(w.take_output().is_none());
}

#[test]
fn process_frame_rejects_malformed_buffers() {
    let mut w = open_worker();
    let r = w.process_frame(vec![vec![0u8; FRAME_BYTES], vec![0u8; 5]], &clock());
    assert_eq!(
        r.err(),
        Some(DecoderError::MalformedFrameInput { width: 1920, height: 1080, actual: 5 })
    );
    assert_eq!(w.decoder().get_status(false, false).input_queue_size, 0);
}

#[test]
fn close_empties_the_queue() {
    let mut w = open_worker();
    w.push_frame(Frame::new(1920, 1080)).unwrap();
    w.close().unwrap();
    let report = w.decoder().get_status(false, false);
    assert!(report.is_empty);
    assert_eq!(report.frames_dropped, 0);
}

#[test]
fn prefetch_requests_chunks_in_order() {
    let mut w = DecoderWorker::new();
    let mut p = PrefetchLoop::new(0, 100);
    assert_eq!(p.next_action(&w), PrefetchAction::Stop);
    w.initialize(true).unwrap();
    w.mark_ready().unwrap();
    w.start().unwrap();
    assert_eq!(p.next_action(&w), PrefetchAction::Fetch { start: 0, end: 99 });
    // tokens arrive in any order; indices outside the chunk are ignored
    let tokens = vec![
        (2usize, vec![2u8; FRAME_BYTES]),
        (0usize, vec![0u8; FRAME_BYTES]),
        (150usize, vec![9u8; FRAME_BYTES]),
        (1usize, vec![1u8; FRAME_BYTES]),
    ];
    assert_eq!(p.on_chunk(&mut w, tokens, 1000), Ok(3));
    assert_eq!(p.next_start(), 100);
    assert!(!p.is_done());
    assert_eq!(p.next_action(&w), PrefetchAction::Fetch { start: 100, end: 199 });
    let mut w2 = w;
    let batch = w2.process_frame(vec![], &clock()).unwrap();
    let stamps: Vec<u64> = batch.iter().map(|f| f.timestamp).collect();
    assert_eq!(stamps, vec![0, 1, 2]);
    assert_eq!(batch[2].data[0], 2);
}

#[test]
fn prefetch_stops_when_paused_or_finished() {
    let mut w = open_worker();
    let mut p = PrefetchLoop::new(0, 10);
    assert_eq!(p.on_chunk(&mut w, vec![], 15), Ok(0));
    assert_eq!(p.next_start(), 10);
    assert!(!p.is_done());
    w.pause().unwrap();
    assert_eq!(p.next_action(&w), PrefetchAction::Stop);
    assert_eq!(p.on_chunk(&mut w, vec![(10usize, vec![0u8; FRAME_BYTES])], 15), Ok(0));
    assert!(p.is_done());
    assert_eq!(w.decoder().get_status(false, false).input_queue_size, 0);

    let mut w = open_worker();
    let mut p = PrefetchLoop::new(10, 10);
    assert_eq!(p.on_chunk(&mut w, vec![], 15), Ok(0));
    assert!(p.is_done());
    assert_eq!(p.next_action(&w), PrefetchAction::Stop);
}

#[test]
fn prefetch_failure_ends_the_loop() {
    let w = open_worker();
    let mut p = PrefetchLoop::new(0, 100);
    assert_eq!(p.on_failure(), DecoderError::NetworkFailure);
    assert!(p.is_done());
    assert_eq!(p.next_action(&w), PrefetchAction::Stop);
}

#[test]
fn prefetch_rejects_malformed_tokens() {
    let mut w = open_worker();
    let mut p = PrefetchLoop::new(0, 100);
    let r = p.on_chunk(&mut w, vec![(0usize, vec![0u8; FRAME_BYTES]), (1usize, vec![1u8; 3])], 1000);
    assert_eq!(r, Err(DecoderError::MalformedFrameInput { width: 1920, height: 1080, actual: 3 }));
    assert!(p.is_done());
    assert_eq!(w.decoder().get_status(false, false).input_queue_size, 0);
}

#[test]
fn prefetch_chunk_at_end_of_index_range() {
    let w = open_worker();
    let p = PrefetchLoop::new(usize::MAX - 1, 100);
    assert_eq!(
        p.next_action(&w),
        PrefetchAction::Fetch { start: usize::MAX - 1, end: usize::MAX }
    );
}

#[test]
fn player_commands_follow_its_state() {
    let mut p = Player::new(640, 480);
    assert_eq!(p.status, PlayerStatus::Idle);
    assert_eq!(p.start(), Err(PlayerError::NotReady));
    assert_eq!(p.pause(), Err(PlayerError::NotPlaying));
    assert_eq!(p.initialize(), PlayerCommand::Initialize);
    assert_eq!(p.start(), Ok(PlayerCommand::Start));
    assert_eq!(p.status, PlayerStatus::Playing);
    assert_eq!(p.start(), Err(PlayerError::NotReady));
    assert_eq!(p.pause(), Ok(PlayerCommand::Pause));
    assert_eq!(p.status, PlayerStatus::Pause);
    assert_eq!((p.width, p.height), (640, 480));
}
