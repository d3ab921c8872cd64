use vstd::prelude::*;

use crate::error::DecoderError;
use crate::frame::{frame_len, Frame};
use crate::queue::{batch_post, pushed_all, Clock, Queue, QueueModel};
use crate::text::{decimal, push_decimal};
use crate::tensor::{reference_error, validate_reference};

verus! {

/// Input capacity of a decoder's frame queue.
pub const DECODER_QUEUE_SIZE: usize = 10000;

/// Frames a decoder advances per batch.
pub const DECODER_BATCH_SIZE: usize = 4;

/// Frame rate a decoder starts with.
pub const DEFAULT_TARGET_FPS: u32 = 30;

/// Lowest frame rate a decoder accepts.
pub const MIN_TARGET_FPS: u32 = 1;

/// Highest frame rate a decoder accepts.
pub const MAX_TARGET_FPS: u32 = 60;

/// Frames kept for playback before the oldest are let go.
pub const MAX_FRAMES: u64 = 300;

/// Queue size advertised in the capabilities record.
pub const ADVERTISED_QUEUE_SIZE: usize = 60;

/// Batch size advertised in the capabilities record.
pub const ADVERTISED_BATCH_SIZE: usize = 4;

/// Frame rate advertised in the capabilities record.
pub const ADVERTISED_FPS: u32 = 60;

/// Time between frames at `fps` frames per second, in microseconds.
pub open spec fn interval_of(fps: u32) -> u64 {
    (1000000int / (fps as int)) as u64
}

/// `fps` held within `MIN_TARGET_FPS..=MAX_TARGET_FPS`.
pub open spec fn clamp_fps(fps: u32) -> u32 {
    if fps < MIN_TARGET_FPS {
        MIN_TARGET_FPS
    } else if fps > MAX_TARGET_FPS {
        MAX_TARGET_FPS
    } else {
        fps
    }
}

/// How long to wait before the next frame: what remains of `interval` since the last frame,
/// zero when it has passed or when no frame was shown yet (`last == 0`).
pub open spec fn pacing_delay(last: u64, now: u64, interval: u64) -> u64 {
    let elapsed: int = if last > 0 && now >= last {
        now - last
    } else {
        0
    };
    if elapsed < interval {
        (interval - elapsed) as u64
    } else {
        0
    }
}

/// Where playback goes after showing frame `cur` of `len` in direction `dir`: forward until
/// the last frame, then back from the one before it; backward until the first, then forward
/// from the second.
pub open spec fn next_position(cur: usize, dir: i32, len: usize) -> (usize, i32) {
    if dir > 0 {
        if cur + 1 >= len {
            (if len >= 2 {
                (len - 2) as usize
            } else {
                0usize
            }, -1i32)
        } else {
            ((cur + 1) as usize, dir)
        }
    } else if cur == 0 {
        (1usize, 1i32)
    } else {
        ((cur - 1) as usize, dir)
    }
}

/// The frame a decoder builds from one token's pixel bytes.
pub open spec fn token_frame(width: u32, height: u32, data: Vec<u8>) -> Frame {
    Frame {
        width: width as usize,
        height: height as usize,
        data,
        timestamp: 0,
        is_keyframe: false,
    }
}

/// Whether a token's pixel bytes fill a `width` x `height` frame.
pub open spec fn token_fits(width: u32, height: u32, data: Seq<u8>) -> bool {
    data.len() == frame_len(width as nat, height as nat)
}

/// `e` reports the first of `buffers` that does not fill a `width` x `height` frame.
pub open spec fn malformed_error(width: u32, height: u32, buffers: Seq<Vec<u8>>, e: DecoderError) -> bool {
    exists|i: int|
        0 <= i < buffers.len() && !token_fits(width, height, buffers[i]@) && (forall|j: int|
            0 <= j < i ==> token_fits(width, height, #[trigger] buffers[j]@)) && e == (
        DecoderError::MalformedFrameInput {
            width: width as usize,
            height: height as usize,
            actual: buffers[i]@.len() as usize,
        })
}

/// `post` is `pre` after pushing the frames of `buffers` and advancing one batch that
/// returned `batch`.
pub open spec fn tokens_then_batch(
    pre: DecoderModel,
    buffers: Seq<Vec<u8>>,
    post: DecoderModel,
    batch: Seq<Frame>,
) -> bool {
    let mid = pushed_all(
        pre.queue,
        buffers.map_values(|b: Vec<u8>| token_frame(pre.width, pre.height, b)),
    );
    &&& batch_post(mid, post.queue, batch)
    &&& post == (DecoderModel { queue: post.queue, ..pre })
}

/// A new decoder: empty queue, no reference data, not playing, 30 fps, forward.
pub open spec fn fresh_decoder(width: u32, height: u32) -> DecoderModel {
    DecoderModel {
        width,
        height,
        queue: QueueModel::empty(DECODER_QUEUE_SIZE as nat, DECODER_BATCH_SIZE as nat),
        reference_features: None,
        diagnostic_mode: false,
        debug_mode: false,
        frame_count: 0,
        max_frames: MAX_FRAMES,
        is_playing: false,
        loaded_frames: 0,
        current_frame: 0,
        target_fps: DEFAULT_TARGET_FPS,
        frame_interval: interval_of(DEFAULT_TARGET_FPS),
        playback_direction: 1,
    }
}

/// What one render tick does.
#[derive(Clone, Copy, Debug, PartialEq, Eq, Structural)]
pub enum RenderAction {
    /// Draw the generated test pattern.
    DebugPattern,
    /// Draw the loaded frame at this index.
    DrawFrame(usize),
    /// Nothing to draw.
    Idle,
}

/// A plain record of a decoder's state and its queue's metrics.
pub struct DecoderReport {
    pub initialized: bool,
    pub running: bool,
    pub frame_count: u64,
    pub input_queue_size: usize,
    pub processing_queue_size: usize,
    pub output_queue_size: usize,
    pub max_size: usize,
    pub batch_size: usize,
    pub is_full: bool,
    pub is_empty: bool,
    pub frames_processed: usize,
    pub frames_dropped: usize,
    /// Microseconds.
    pub processing_time: u64,
    /// Microseconds.
    pub average_processing_time: u64,
    /// Parts per million.
    pub queue_utilization: u64,
    pub diagnostic_mode: bool,
}

/// Version reported in the capabilities record.
pub open spec fn capability_version() -> Seq<char> {
    "1.0.0"@
}

/// The features named in the capabilities record.
pub open spec fn capability_features() -> Seq<Seq<char>> {
    seq!["WebGPU"@, "Tensor Processing"@, "Frame Queue"@]
}

/// The host-callable methods named in the capabilities record.
pub open spec fn capability_methods() -> Seq<Seq<char>> {
    seq![
        "test"@,
        "start_player_loop"@,
        "stop_player_loop"@,
        "set_reference_data"@,
        "process_tokens"@,
        "process_batch"@,
    ]
}

/// `width` x `height` written as `"<width>x<height>"`.
pub open spec fn dimensions_text(width: u32, height: u32) -> Seq<char> {
    decimal(width as nat).push('x') + decimal(height as nat)
}

/// A plain record of what a decoder offers.
pub struct Capabilities {
    pub version: String,
    pub dimensions: String,
    pub features: Vec<String>,
    pub methods: Vec<String>,
    pub max_queue_size: usize,
    pub batch_size: usize,
    pub target_fps: u32,
    pub diagnostic_mode: bool,
    pub frame_count: u64,
}

fn strings_of(names: &[&str]) -> (r: Vec<String>)
    ensures
        r@.map_values(|s: String| s@) == names@.map_values(|n: &str| n@),
{
    let mut out: Vec<String> = Vec::new();
    let mut i: usize = 0;
    while i < names.len()
        invariant
            i <= names@.len(),
            out@.map_values(|s: String| s@) == names@.take(i as int).map_values(|n: &str| n@),
        decreases names@.len() - i,
    {
        let ghost prev = out@;
        let name: &str = names[i];
        let owned = name.to_owned();
        out.push(owned);
        proof {
            assert(name == names@[i as int]);
            assert(out@ == prev.push(owned));
            assert(names@.take(i as int + 1) =~= names@.take(i as int).push(name));
            assert(out@.map_values(|s: String| s@) =~= prev.map_values(|s: String| s@).push(
                owned@,
            ));
            assert(names@.take(i as int + 1).map_values(|n: &str| n@) =~= names@.take(
                i as int,
            ).map_values(|n: &str| n@).push(name@));
        }
        i = i + 1;
    }
    assert(names@.take(i as int) =~= names@);
    out
}

/// A decoder: its frame queue, playback position and settings.
pub struct IMFDecoder {
    width: u32,
    height: u32,
    frame_queue: Queue,
    reference_features: Option<usize>,
    diagnostic_mode: bool,
    debug_mode: bool,
    frame_count: u64,
    max_frames: u64,
    is_playing: bool,
    loaded_frames: usize,
    current_frame: usize,
    target_fps: u32,
    frame_interval: u64,
    playback_direction: i32,
}

/// What an `IMFDecoder` holds.
pub struct DecoderModel {
    pub width: u32,
    pub height: u32,
    pub queue: QueueModel,
    /// Number of features of the reference data, once it is set.
    pub reference_features: Option<usize>,
    pub diagnostic_mode: bool,
    pub debug_mode: bool,
    /// Render ticks so far.
    pub frame_count: u64,
    pub max_frames: u64,
    pub is_playing: bool,
    /// Number of frames loaded for playback.
    pub loaded_frames: usize,
    pub current_frame: usize,
    pub target_fps: u32,
    /// Microseconds between frames.
    pub frame_interval: u64,
    /// `1` forward, `-1` backward.
    pub playback_direction: i32,
}

impl DecoderModel {
    /// The queue's invariant, a frame rate within bounds with its interval, and a direction.
    pub open spec fn wf(self) -> bool {
        &&& self.queue.wf()
        &&& MIN_TARGET_FPS <= self.target_fps <= MAX_TARGET_FPS
        &&& self.frame_interval == interval_of(self.target_fps)
        &&& (self.playback_direction == 1 || self.playback_direction == -1)
    }
}

impl View for IMFDecoder {
    type V = DecoderModel;

    closed spec fn view(&self) -> DecoderModel {
        DecoderModel {
            width: self.width,
            height: self.height,
            queue: self.frame_queue@,
            reference_features: self.reference_features,
            diagnostic_mode: self.diagnostic_mode,
            debug_mode: self.debug_mode,
            frame_count: self.frame_count,
            max_frames: self.max_frames,
            is_playing: self.is_playing,
            loaded_frames: self.loaded_frames,
            current_frame: self.current_frame,
            target_fps: self.target_fps,
            frame_interval: self.frame_interval,
            playback_direction: self.playback_direction,
        }
    }
}

fn interval_for(fps: u32) -> (r: u64)
    requires
        fps >= 1,
    ensures
        r == interval_of(fps),
{
    1000000u64 / (fps as u64)
}

impl IMFDecoder {
    pub open spec fn wf(&self) -> bool {
        self@.wf()
    }

    /// A decoder for `width` x `height` frames: empty queue, not playing, 30 fps, forward.
    pub fn new(width: u32, height: u32) -> (r: IMFDecoder)
        ensures
            r.wf(),
            r@ == fresh_decoder(width, height),
    {
        IMFDecoder {
            width,
            height,
            frame_queue: Queue::new(DECODER_QUEUE_SIZE, DECODER_BATCH_SIZE),
            reference_features: None,
            diagnostic_mode: false,
            debug_mode: false,
            frame_count: 0,
            max_frames: MAX_FRAMES,
            is_playing: false,
            loaded_frames: 0,
            current_frame: 0,
            target_fps: DEFAULT_TARGET_FPS,
            frame_interval: interval_for(DEFAULT_TARGET_FPS),
            playback_direction: 1,
        }
    }

    pub fn width(&self) -> (r: u32)
        ensures
            r == self@.width,
    {
        self.width
    }

    pub fn height(&self) -> (r: u32)
        ensures
            r == self@.height,
    {
        self.height
    }

    /// Takes the size of a newly attached drawing surface; nothing else changes. Frames already
    /// queued keep the size they were made with.
    pub fn set_dimensions(&mut self, width: u32, height: u32)
        requires
            old(self).wf(),
        ensures
            final(self).wf(),
            final(self)@ == (DecoderModel { width, height, ..old(self)@ }),
    {
        self.width = width;
        self.height = height;
    }

    pub fn debug_mode(&self) -> (r: bool)
        ensures
            r == self@.debug_mode,
    {
        self.debug_mode
    }

    pub fn set_debug_mode(&mut self, value: bool)
        requires
            old(self).wf(),
        ensures
            final(self).wf(),
            final(self)@ == (DecoderModel { debug_mode: value, ..old(self)@ }),
    {
        self.debug_mode = value;
    }

    pub fn is_debug_mode(&self) -> (r: bool)
        ensures
            r == self@.debug_mode,
    {
        self.debug_mode
    }

    pub fn enable_debug_mode(&mut self)
        requires
            old(self).wf(),
        ensures
            final(self).wf(),
            final(self)@ == (DecoderModel { debug_mode: true, ..old(self)@ }),
    {
        self.debug_mode = true;
    }

    pub fn disable_debug_mode(&mut self)
        requires
            old(self).wf(),
        ensures
            final(self).wf(),
            final(self)@ == (DecoderModel { debug_mode: false, ..old(self)@ }),
    {
        self.debug_mode = false;
    }

    pub fn diagnostic_mode(&self) -> (r: bool)
        ensures
            r == self@.diagnostic_mode,
    {
        self.diagnostic_mode
    }

    pub fn set_diagnostic_mode(&mut self, value: bool)
        requires
            old(self).wf(),
        ensures
            final(self).wf(),
            final(self)@ == (DecoderModel { diagnostic_mode: value, ..old(self)@ }),
    {
        self.diagnostic_mode = value;
    }

    /// Starts playback; true when it was stopped, so that the first frame is to be scheduled.
    pub fn start_player_loop(&mut self) -> (scheduled: bool)
        requires
            old(self).wf(),
        ensures
            final(self).wf(),
            scheduled == !old(self)@.is_playing,
            final(self)@ == (DecoderModel { is_playing: true, ..old(self)@ }),
    {
        if !self.is_playing {
            self.is_playing = true;
            true
        } else {
            false
        }
    }

    /// Stops playback.
    pub fn stop_player_loop(&mut self)
        requires
            old(self).wf(),
        ensures
            final(self).wf(),
            final(self)@ == (DecoderModel { is_playing: false, ..old(self)@ }),
    {
        self.is_playing = false;
    }

    pub fn is_playing(&self) -> (r: bool)
        ensures
            r == self@.is_playing,
    {
        self.is_playing
    }

    /// Sets the frame rate, held within `MIN_TARGET_FPS..=MAX_TARGET_FPS`, and its interval.
    pub fn set_target_fps(&mut self, fps: u32)
        requires
            old(self).wf(),
        ensures
            final(self).wf(),
            final(self)@ == (DecoderModel {
                target_fps: clamp_fps(fps),
                frame_interval: interval_of(clamp_fps(fps)),
                ..old(self)@
            }),
    {
        let f: u32 = if fps < MIN_TARGET_FPS {
            MIN_TARGET_FPS
        } else if fps > MAX_TARGET_FPS {
            MAX_TARGET_FPS
        } else {
            fps
        };
        self.target_fps = f;
        self.frame_interval = interval_for(f);
    }

    pub fn get_target_fps(&self) -> (r: u32)
        ensures
            r == self@.target_fps,
    {
        self.target_fps
    }

    /// Microseconds between frames at the target frame rate.
    pub fn frame_interval(&self) -> (r: u64)
        ensures
            r == self@.frame_interval,
    {
        self.frame_interval
    }

    /// How long to wait before the next frame, given when the last one was shown and the
    /// time now (both in microseconds, `last_frame_time == 0` for none yet).
    pub fn next_frame_delay(&self, last_frame_time: u64, now: u64) -> (r: u64)
        ensures
            r == pacing_delay(last_frame_time, now, self@.frame_interval),
    {
        let elapsed: u64 = if last_frame_time > 0 && now >= last_frame_time {
            now - last_frame_time
        } else {
            0
        };
        if elapsed < self.frame_interval {
            self.frame_interval - elapsed
        } else {
            0
        }
    }

    /// Takes note that `count` frames were loaded for playback, and rewinds to the first.
    pub fn set_loaded_frames(&mut self, count: usize)
        requires
            old(self).wf(),
        ensures
            final(self).wf(),
            final(self)@ == (DecoderModel { loaded_frames: count, current_frame: 0, ..old(self)@ }),
    {
        self.loaded_frames = count;
        self.current_frame = 0;
    }

    pub fn current_frame(&self) -> (r: usize)
        ensures
            r == self@.current_frame,
    {
        self.current_frame
    }

    pub fn frame_count(&self) -> (r: u64)
        ensures
            r == self@.frame_count,
    {
        self.frame_count
    }

    /// One render tick: the test pattern in debug mode, else the current loaded frame (and
    /// playback moves on, see `next_position`); the tick count goes up by one, held at
    /// `u64::MAX`.
    pub fn render_frame(&mut self) -> (r: RenderAction)
        requires
            old(self).wf(),
        ensures
            final(self).wf(),
            final(self)@.frame_count == if old(self)@.frame_count < u64::MAX {
                (old(self)@.frame_count + 1) as u64
            } else {
                old(self)@.frame_count
            },
            old(self)@.debug_mode ==> r == RenderAction::DebugPattern && final(self)@ == (
            DecoderModel { frame_count: final(self)@.frame_count, ..old(self)@ }),
            !old(self)@.debug_mode && old(self)@.current_frame < old(self)@.loaded_frames ==> {
                let (next, dir) = next_position(
                    old(self)@.current_frame,
                    old(self)@.playback_direction,
                    old(self)@.loaded_frames,
                );
                &&& r == RenderAction::DrawFrame(old(self)@.current_frame)
                &&& final(self)@ == (DecoderModel {
                    frame_count: final(self)@.frame_count,
                    current_frame: next,
                    playback_direction: dir,
                    ..old(self)@
                })
            },
            !old(self)@.debug_mode && old(self)@.current_frame >= old(self)@.loaded_frames ==> r
                == RenderAction::Idle && final(self)@ == (DecoderModel {
                frame_count: final(self)@.frame_count,
                ..old(self)@
            }),
    {
        let action = if self.debug_mode {
            RenderAction::DebugPattern
        } else if self.current_frame < self.loaded_frames {
            let cur = self.current_frame;
            let len = self.loaded_frames;
            if self.playback_direction > 0 {
                if cur + 1 >= len {
                    self.playback_direction = -1;
                    self.current_frame = if len >= 2 {
                        len - 2
                    } else {
                        0
                    };
                } else {
                    self.current_frame = cur + 1;
                }
            } else if cur == 0 {
                self.playback_direction = 1;
                self.current_frame = 1;
            } else {
                self.current_frame = cur - 1;
            }
            RenderAction::DrawFrame(cur)
        } else {
            RenderAction::Idle
        };
        if self.frame_count < u64::MAX {
            self.frame_count = self.frame_count + 1;
        }
        action
    }

    pub fn play_forward(&mut self)
        requires
            old(self).wf(),
        ensures
            final(self).wf(),
            final(self)@ == (DecoderModel { playback_direction: 1, ..old(self)@ }),
    {
        self.playback_direction = 1;
    }

    pub fn play_backward(&mut self)
        requires
            old(self).wf(),
        ensures
            final(self).wf(),
            final(self)@ == (DecoderModel { playback_direction: -1i32, ..old(self)@ }),
    {
        self.playback_direction = -1;
    }

    pub fn get_playback_direction(&self) -> (r: i32)
        ensures
            r == self@.playback_direction,
    {
        self.playback_direction
    }

    /// Validates reference data, given its feature shapes and token length, and keeps note of
    /// it when valid; on an error nothing changes.
    pub fn set_reference_data(&mut self, shapes: &Vec<Vec<usize>>, token_len: usize) -> (r: Result<
        (),
        DecoderError,
    >)
        requires
            old(self).wf(),
        ensures
            final(self).wf(),
            match reference_error(shapes@.map_values(|v: Vec<usize>| v@), token_len as nat) {
                Some(e) => r == Err::<(), DecoderError>(e) && final(self)@ == old(self)@,
                None => r is Ok && final(self)@ == (DecoderModel {
                    reference_features: Some(shapes@.len() as usize),
                    ..old(self)@
                }),
            },
    {
        let r = validate_reference(shapes, token_len);
        if r.is_ok() {
            self.reference_features = Some(shapes.len());
        }
        r
    }

    /// The number of features of the reference data, once it is set.
    pub fn get_reference_status(&self) -> (r: Option<usize>)
        ensures
            r == self@.reference_features,
    {
        self.reference_features
    }

    /// Turns each token's pixel bytes into a frame of the decoder's size and pushes them in
    /// order; the first buffer of the wrong length rejects the whole call with nothing pushed.
    /// Returns the number of tokens.
    pub fn process_tokens(&mut self, buffers: Vec<Vec<u8>>) -> (r: Result<usize, DecoderError>)
        requires
            old(self).wf(),
        ensures
            final(self).wf(),
            match r {
                Ok(n) => {
                    &&& n == buffers@.len()
                    &&& forall|i: int|
                        0 <= i < buffers@.len() ==> token_fits(
                            old(self)@.width,
                            old(self)@.height,
                            #[trigger] buffers@[i]@,
                        )
                    &&& final(self)@ == (DecoderModel {
                        queue: pushed_all(
                            old(self)@.queue,
                            buffers@.map_values(
                                |b: Vec<u8>| token_frame(old(self)@.width, old(self)@.height, b),
                            ),
                        ),
                        ..old(self)@
                    })
                },
                Err(e) => {
                    &&& final(self)@ == old(self)@
                    &&& malformed_error(old(self)@.width, old(self)@.height, buffers@, e)
                },
            },
    {
        let w: usize = self.width as usize;
        let h: usize = self.height as usize;
        let expected: Option<usize> = match w.checked_mul(h) {
            Some(a) => a.checked_mul(4),
            None => None,
        };
        let n: usize = buffers.len();
        let mut i: usize = 0;
        while i < n
            invariant
                n == buffers@.len(),
                i <= n,
                self.wf(),
                self@ == old(self)@,
                w == self@.width,
                h == self@.height,
                match expected {
                    Some(len) => len == frame_len(w as nat, h as nat),
                    None => frame_len(w as nat, h as nat) > usize::MAX,
                },
                forall|j: int| 0 <= j < i ==> token_fits(self@.width, self@.height, #[trigger] buffers@[j]@),
            decreases n - i,
        {
            let actual: usize = buffers[i].len();
            let fits = match expected {
                Some(len) => actual == len,
                None => false,
            };
            if !fits {
                proof {
                    assert(!token_fits(self@.width, self@.height, buffers@[i as int]@));
                }
                return Err(
                    DecoderError::MalformedFrameInput { width: w, height: h, actual },
                );
            }
            i = i + 1;
        }
        let ghost q0 = self@.queue;
        let ghost bufs = buffers@;
        let ghost frames = bufs.map_values(|b: Vec<u8>| token_frame(self@.width, self@.height, b));
        let ghost pre = self@;
        let mut rest = buffers;
        let mut k: usize = 0;
        assert(frames.take(0) =~= Seq::<Frame>::empty());
        assert(rest@ =~= bufs.skip(0));
        while k < n
            invariant
                k <= n,
                n == bufs.len(),
                frames.len() == bufs.len(),
                w == pre.width,
                h == pre.height,
                frames == bufs.map_values(|b: Vec<u8>| token_frame(pre.width, pre.height, b)),
                rest@ == bufs.skip(k as int),
                self.wf(),
                self@ == (DecoderModel { queue: pushed_all(q0, frames.take(k as int)), ..pre }),
            decreases n - k,
        {
            let data = rest.remove(0);
            let frame = Frame { width: w, height: h, data, timestamp: 0, is_keyframe: false };
            proof {
                assert(data == bufs[k as int]);
                assert(frame == frames[k as int]);
                assert(frames.take(k as int + 1).drop_last() =~= frames.take(k as int));
                assert(rest@ =~= bufs.skip(k as int + 1));
            }
            let _ = self.frame_queue.push(frame);
            k = k + 1;
        }
        assert(frames.take(n as int) =~= frames);
        Ok(n)
    }

    /// Pushes one frame into the queue; see `Queue::push`.
    pub fn push_frame(&mut self, frame: Frame) -> (r: Result<(), Frame>)
        requires
            old(self).wf(),
        ensures
            final(self).wf(),
            r is Ok == old(self)@.queue.accepts(),
            r matches Err(f) ==> f == frame,
            final(self)@ == (DecoderModel { queue: old(self)@.queue.pushed(frame), ..old(self)@ }),
    {
        self.frame_queue.push(frame)
    }

    /// Advances one batch of the queue, timed by `clock`, and returns copies of the frames it
    /// moved.
    pub fn process_batch<C: Clock>(&mut self, clock: &C) -> (r: Vec<Frame>)
        requires
            old(self).wf(),
        ensures
            final(self).wf(),
            batch_post(old(self)@.queue, final(self)@.queue, r@),
            final(self)@ == (DecoderModel { queue: final(self)@.queue, ..old(self)@ }),
    {
        self.frame_queue.process_batch(clock)
    }

    /// Hands over the oldest finished frame.
    pub fn take_output(&mut self) -> (r: Option<Frame>)
        requires
            old(self).wf(),
        ensures
            final(self).wf(),
            crate::queue::take_post(old(self)@.queue, final(self)@.queue, r),
            final(self)@ == (DecoderModel { queue: final(self)@.queue, ..old(self)@ }),
    {
        self.frame_queue.take_output()
    }

    /// Empties the queue and zeroes its metrics.
    pub fn clear_queue(&mut self)
        requires
            old(self).wf(),
        ensures
            final(self).wf(),
            final(self)@ == (DecoderModel { queue: old(self)@.queue.cleared(), ..old(self)@ }),
    {
        self.frame_queue.clear();
    }

    /// A status record; `initialized` and `running` come from the host (a drawing surface is
    /// attached; a frame callback is pending).
    pub fn get_status(&self, initialized: bool, running: bool) -> (r: DecoderReport)
        requires
            self.wf(),
        ensures
            r.initialized == initialized,
            r.running == running,
            r.frame_count == self@.frame_count,
            r.input_queue_size == self@.queue.input.len(),
            r.processing_queue_size == self@.queue.processing.len(),
            r.output_queue_size == self@.queue.output.len(),
            r.max_size == self@.queue.max_size,
            r.batch_size == self@.queue.batch_size,
            r.is_full == (self@.queue.input.len() >= self@.queue.max_size),
            r.is_empty == (self@.queue.total() == 0),
            r.frames_processed == self@.queue.frames_processed,
            r.frames_dropped == self@.queue.frames_dropped,
            r.processing_time == self@.queue.last_process_time,
            r.average_processing_time == crate::queue::average(self@.queue.processing_times),
            r.queue_utilization == self@.queue.queue_utilization,
            r.diagnostic_mode == self@.diagnostic_mode,
    {
        let (input_size, processing_size, output_size) = self.frame_queue.get_queue_sizes();
        let stats = self.frame_queue.get_metrics();
        DecoderReport {
            initialized,
            running,
            frame_count: self.frame_count,
            input_queue_size: input_size,
            processing_queue_size: processing_size,
            output_queue_size: output_size,
            max_size: self.frame_queue.get_max_size(),
            batch_size: self.frame_queue.get_batch_size(),
            is_full: self.frame_queue.is_full(),
            is_empty: self.frame_queue.is_empty(),
            frames_processed: self.frame_queue.get_frames_processed(),
            frames_dropped: self.frame_queue.get_frames_dropped(),
            processing_time: self.frame_queue.get_processing_time(),
            average_processing_time: stats.average_processing_time,
            queue_utilization: stats.queue_utilization,
            diagnostic_mode: self.diagnostic_mode,
        }
    }

    /// The capabilities record.
    pub fn get_capabilities(&self) -> (r: Capabilities)
        ensures
            r.version@ == capability_version(),
            r.dimensions@ == dimensions_text(self@.width, self@.height),
            r.features@.map_values(|s: String| s@) == capability_features(),
            r.methods@.map_values(|s: String| s@) == capability_methods(),
            r.max_queue_size == ADVERTISED_QUEUE_SIZE,
            r.batch_size == ADVERTISED_BATCH_SIZE,
            r.target_fps == ADVERTISED_FPS,
            r.diagnostic_mode == self@.diagnostic_mode,
            r.frame_count == self@.frame_count,
    {
        let mut dimensions = String::new();
        push_decimal(&mut dimensions, self.width);
        dimensions.append("x");
        proof {
            reveal_strlit("x");
        }
        push_decimal(&mut dimensions, self.height);
        assert(dimensions@ =~= dimensions_text(self@.width, self@.height));
        let features = strings_of(&["WebGPU", "Tensor Processing", "Frame Queue"]);
        let methods = strings_of(
            &[
                "test",
                "start_player_loop",
                "stop_player_loop",
                "set_reference_data",
                "process_tokens",
                "process_batch",
            ],
        );
        Capabilities {
            version: "1.0.0".to_owned(),
            dimensions,
            features,
            methods,
            max_queue_size: ADVERTISED_QUEUE_SIZE,
            batch_size: ADVERTISED_BATCH_SIZE,
            target_fps: ADVERTISED_FPS,
            diagnostic_mode: self.diagnostic_mode,
            frame_count: self.frame_count,
        }
    }
}

} // verus!
