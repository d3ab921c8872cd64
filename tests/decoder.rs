use std::cell::Cell;

use imf_decoder::decoder::{IMFDecoder, RenderAction};
use imf_decoder::queue::Clock;
use imf_decoder::error::DecoderError;
use imf_decoder::frame::Frame;
use imf_decoder::tensor::{element_count, reshape_fits, shape_matches, validate_reference};
use imf_decoder::utils::{Memory, Metrics};

struct StepClock {
    now: Cell<u64>,
    step: u64,
}

impl Clock for StepClock {
    fn now_micros(&self) -> u64 {
        let t = self.now.get();
        self.now.set(t + self.step);
        t
    }
}

fn clock() -> StepClock {
    StepClock { now: Cell::new(1000), step: 10 }
}

fn reference_shapes() -> Vec<Vec<usize>> {
    vec![
        vec![1, 128, 64, 64],
        vec![1, 256, 32, 32],
        vec![1, 512, 16, 16],
        vec![1, 512, 8, 8],
    ]
}

#[test]
fn reference_data_is_validated() {
    assert_eq!(validate_reference(&reference_shapes(), 32), Ok(()));
    let mut bad = reference_shapes();
    bad[2] = vec![1, 512, 16, 15];
    assert_eq!(
        validate_reference(&bad, 32),
        Err(DecoderError::ShapeValidationFailure { feature: 2 })
    );
    assert_eq!(
        validate_reference(&reference_shapes(), 31),
        Err(DecoderError::TokenLengthMismatch { actual: 31 })
    );
    // fewer features are compared pairwise only
    assert_eq!(validate_reference(&vec![vec![1, 128, 64, 64]], 32), Ok(()));
    assert!(shape_matches(3, &vec![1, 512, 8, 8]));
    assert!(!shape_matches(3, &vec![1, 512, 8]));
}

#[test]
fn decoder_keeps_reference_only_when_valid() {
    let mut d = IMFDecoder::new(4, 4);
    assert_eq!(d.get_reference_status(), None);
    assert!(d.set_reference_data(&reference_shapes(), 5).is_err());
    assert_eq!(d.get_reference_status(), None);
    assert_eq!(d.set_reference_data(&reference_shapes(), 32), Ok(()));
    assert_eq!(d.get_reference_status(), Some(4));
}

#[test]
fn element_counts() {
    assert_eq!(element_count(&vec![1, 128, 64, 64]), Some(524288));
    assert_eq!(element_count(&vec![]), Some(1));
    assert_eq!(element_count(&vec![usize::MAX, 2]), None);
    assert_eq!(element_count(&vec![usize::MAX, 2, 0]), Some(0));
    assert!(reshape_fits(&vec![2, 3], 6));
    assert!(!reshape_fits(&vec![2, 3], 5));
}

#[test]
fn target_fps_is_clamped() {
    let mut d = IMFDecoder::new(8, 8);
    assert_eq!(d.get_target_fps(), 30);
    assert_eq!(d.frame_interval(), 33333);
    d.set_target_fps(0);
    assert_eq!(d.get_target_fps(), 1);
    assert_eq!(d.frame_interval(), 1000000);
    d.set_target_fps(100);
    assert_eq!(d.get_target_fps(), 60);
    assert_eq!(d.frame_interval(), 16666);
}

#[test]
fn pacing_delay_between_frames() {
    let d = IMFDecoder::new(8, 8);
    assert_eq!(d.next_frame_delay(0, 5000), 33333);
    assert_eq!(d.next_frame_delay(1000, 11000), 23333);
    assert_eq!(d.next_frame_delay(1000, 50000), 0);
}

#[test]
fn playback_goes_back_and_forth() {
    let mut d = IMFDecoder::new(8, 8);
    assert_eq!(d.render_frame(), RenderAction::Idle);
    d.set_loaded_frames(3);
    let mut shown = Vec::new();
    for _ in 0..6 {
        match d.render_frame() {
            RenderAction::DrawFrame(i) => shown.push(i),
            other => panic!("unexpected {:?}", other),
        }
    }
    assert_eq!(shown, vec![0, 1, 2, 1, 0, 1]);
    assert_eq!(d.frame_count(), 7);
    d.enable_debug_mode();
    assert_eq!(d.render_frame(), RenderAction::DebugPattern);
    d.disable_debug_mode();
    d.play_backward();
    assert_eq!(d.get_playback_direction(), -1);
    d.play_forward();
    assert_eq!(d.get_playback_direction(), 1);
}

#[test]
fn player_loop_flags() {
    let mut d = IMFDecoder::new(8, 8);
    assert!(d.start_player_loop());
    assert!(!d.start_player_loop());
    assert!(d.is_playing());
    d.stop_player_loop();
    assert!(!d.is_playing());
    d.set_debug_mode(true);
    assert!(d.debug_mode() && d.is_debug_mode());
    d.set_diagnostic_mode(true);
    assert!(d.diagnostic_mode());
    let caps = d.get_capabilities();
    assert_eq!(caps.version, "1.0.0");
    assert_eq!(caps.dimensions, "8x8");
    assert_eq!(caps.features, vec!["WebGPU", "Tensor Processing", "Frame Queue"]);
    assert_eq!(
        caps.methods,
        vec![
            "test",
            "start_player_loop",
            "stop_player_loop",
            "set_reference_data",
            "process_tokens",
            "process_batch"
        ]
    );
    assert_eq!(caps.frame_count, 0);
    assert_eq!(IMFDecoder::new(1920, 1080).get_capabilities().dimensions, "1920x1080");
    assert_eq!(IMFDecoder::new(0, 7).get_capabilities().dimensions, "0x7");
    assert_eq!((caps.max_queue_size, caps.batch_size, caps.target_fps), (60, 4, 60));
    assert!(caps.diagnostic_mode);
}

#[test]
fn tokens_become_frames() {
    let mut d = IMFDecoder::new(2, 1);
    assert_eq!(d.process_tokens(vec![vec![1; 8], vec![2; 8], vec![3; 8]]), Ok(3));
    let batch = d.process_batch(&clock());
    assert_eq!(batch.len(), 3);
    assert_eq!(batch[1].data, vec![2; 8]);
    let report = d.get_status(true, false);
    assert!(report.initialized && !report.running);
    assert_eq!(report.frames_processed, 3);
    assert_eq!(report.output_queue_size, 3);
    assert_eq!(
        d.process_tokens(vec![vec![1; 8], vec![1; 7]]),
        Err(DecoderError::MalformedFrameInput { width: 2, height: 1, actual: 7 })
    );
    assert_eq!(d.get_status(true, false).input_queue_size, 0);
}

#[test]
fn frame_construction() {
    let f = Frame::new(3, 2);
    assert_eq!(f.data.len(), 24);
    assert!(f.data.iter().all(|b| *b == 0));
    assert_eq!(f.timestamp, 0);
    assert!(!f.is_keyframe);
    match Frame::from_data(2, 2, vec![0; 15], 7, true) {
        Err(e) => assert_eq!(e, DecoderError::MalformedFrameInput { width: 2, height: 2, actual: 15 }),
        Ok(_) => panic!("accepted a short buffer"),
    }
    let g = Frame::from_data(2, 2, vec![5; 16], 7, true).ok().unwrap();
    assert_eq!((g.timestamp, g.is_keyframe, g.data[0]), (7, true, 5));
}

#[test]
fn memory_accounting() {
    let mut m = Memory::new();
    m.allocate(100);
    m.allocate(50);
    assert_eq!((m.allocated(), m.peak()), (150, 150));
    m.deallocate(120);
    assert_eq!((m.allocated(), m.peak()), (30, 150));
    m.allocate(20);
    assert_eq!((m.allocated(), m.peak()), (50, 150));
    m.deallocate(80);
    assert_eq!((m.allocated(), m.peak()), (0, 150));
}

#[test]
fn metrics_windows_and_fps() {
    let mut m = Metrics::new();
    assert_eq!(m.get_average_fps(), 0);
    m.record_frame_time(1000);
    m.record_frame_time(3000);
    assert_eq!(m.get_average_fps(), 500);
    for _ in 0..100 {
        m.record_frame_time(20000);
    }
    // only the last sixty samples count
    assert_eq!(m.get_average_fps(), 50);
    m.record_queue_size(3);
    m.record_processing_time(7);
    let mut z = Metrics::new();
    z.record_frame_time(0);
    assert_eq!(z.get_average_fps(), u64::MAX);
}

#[test]
fn new_surface_size_keeps_the_settings() {
    let mut d = IMFDecoder::new(8, 8);
    d.set_target_fps(50);
    d.enable_debug_mode();
    d.set_loaded_frames(5);
    assert_eq!(d.process_tokens(vec![vec![0; 256]]), Ok(1));
    d.set_dimensions(640, 480);
    assert_eq!((d.width(), d.height()), (640, 480));
    assert_eq!(d.get_target_fps(), 50);
    assert!(d.is_debug_mode());
    assert_eq!(d.get_status(false, false).input_queue_size, 1);
    assert_eq!(d.get_capabilities().dimensions, "640x480");
}
