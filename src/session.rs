use vstd::prelude::*;

use crate::decoder::{fresh_decoder, malformed_error, token_fits, tokens_then_batch, DecoderModel, IMFDecoder};
use crate::error::DecoderError;
use crate::frame::Frame;
use crate::queue::{take_post, Clock};

verus! {

/// Width of the frames a worker's decoder produces.
pub const WORKER_WIDTH: u32 = 1920;

/// Height of the frames a worker's decoder produces.
pub const WORKER_HEIGHT: u32 = 1080;

/// Lifecycle states of a decode session.
#[derive(Clone, Copy, Debug, PartialEq, Eq, Structural)]
pub enum DecoderStatus {
    Idle,
    Initializing,
    Inited,
    Ready,
    Open,
    Pause,
    Closed,
}

/// Notifications a session emits to its host.
#[derive(Clone, Copy, Debug, PartialEq, Eq, Structural)]
pub enum DecodeMessage {
    DecoderCreated,
    DecoderInit,
    DecoderInited,
    WasmLoaded,
    DecoderReady,
    DecoderOpenError,
    DecoderStart,
    DecoderStarted,
    DecoderPause,
    DecoderPaused,
    DecoderClose,
    DecoderClosed,
    DecodeVideoBuffer,
    DecodedVideoFrame,
}

/// The lifecycle calls that move a session between states.
#[derive(Clone, Copy, Debug, PartialEq, Eq, Structural)]
pub enum LifecycleOp {
    /// The rendering backend is attached.
    MarkReady,
    Start,
    Pause,
    Resume,
    Close,
}

/// The state a lifecycle call leads to from `s`, or `None` where it is not permitted.
pub open spec fn next_status(s: DecoderStatus, op: LifecycleOp) -> Option<DecoderStatus> {
    match (s, op) {
        (DecoderStatus::Inited, LifecycleOp::MarkReady) => Some(DecoderStatus::Ready),
        (DecoderStatus::Ready, LifecycleOp::Start) => Some(DecoderStatus::Open),
        (DecoderStatus::Open, LifecycleOp::Pause) => Some(DecoderStatus::Pause),
        (DecoderStatus::Pause, LifecycleOp::Resume) => Some(DecoderStatus::Open),
        (DecoderStatus::Open, LifecycleOp::Close) => Some(DecoderStatus::Closed),
        (DecoderStatus::Pause, LifecycleOp::Close) => Some(DecoderStatus::Closed),
        _ => None,
    }
}

/// The notification an accepted lifecycle call emits.
pub open spec fn notification(op: LifecycleOp) -> DecodeMessage {
    match op {
        LifecycleOp::MarkReady => DecodeMessage::DecoderReady,
        LifecycleOp::Start => DecodeMessage::DecoderStarted,
        LifecycleOp::Pause => DecodeMessage::DecoderPaused,
        LifecycleOp::Resume => DecodeMessage::DecoderStarted,
        LifecycleOp::Close => DecodeMessage::DecoderClosed,
    }
}

/// Whether the prefetch loop may run after an accepted lifecycle call.
pub open spec fn running_after(op: LifecycleOp, running: bool) -> bool {
    match op {
        LifecycleOp::MarkReady => running,
        LifecycleOp::Start => true,
        LifecycleOp::Resume => true,
        LifecycleOp::Pause => false,
        LifecycleOp::Close => false,
    }
}

/// What a `DecoderWorker` holds.
pub struct SessionModel {
    pub status: DecoderStatus,
    pub decoder: DecoderModel,
    /// Notifications not yet handed to the host, oldest first.
    pub messages: Seq<DecodeMessage>,
    /// The prefetch loop's running flag.
    pub running: bool,
}

impl SessionModel {
    /// The decoder's invariant, and a running flag only while open.
    pub open spec fn wf(self) -> bool {
        &&& self.decoder.wf()
        &&& self.running ==> self.status == DecoderStatus::Open
    }
}

/// What a lifecycle call does: where `next_status` permits it, the new state, its
/// notification, the running flag, and for `Close` an emptied queue; elsewhere an
/// `InvalidStateTransition` error and no change at all.
pub open spec fn lifecycle_post(
    pre: SessionModel,
    post: SessionModel,
    op: LifecycleOp,
    r: Result<(), DecoderError>,
) -> bool {
    match next_status(pre.status, op) {
        Some(s) => {
            &&& r is Ok
            &&& post == (SessionModel {
                status: s,
                decoder: if op == LifecycleOp::Close {
                    DecoderModel { queue: pre.decoder.queue.cleared(), ..pre.decoder }
                } else {
                    pre.decoder
                },
                messages: pre.messages.push(notification(op)),
                running: running_after(op, pre.running),
            })
        },
        None => {
            &&& r == Err::<(), DecoderError>(DecoderError::InvalidStateTransition { from: pre.status })
            &&& post == pre
        },
    }
}

/// A decode session: the lifecycle state that gates a decoder's queue, and the
/// notifications for the host.
pub struct DecoderWorker {
    status: DecoderStatus,
    decoder: IMFDecoder,
    messages: Vec<DecodeMessage>,
    running: bool,
}

impl View for DecoderWorker {
    type V = SessionModel;

    closed spec fn view(&self) -> SessionModel {
        SessionModel {
            status: self.status,
            decoder: self.decoder@,
            messages: self.messages@,
            running: self.running,
        }
    }
}

impl DecoderWorker {
    pub open spec fn wf(&self) -> bool {
        self@.wf()
    }

    /// An idle session with a fresh decoder; announces itself.
    pub fn new() -> (r: DecoderWorker)
        ensures
            r.wf(),
            r@.status == DecoderStatus::Idle,
            r@.decoder == fresh_decoder(WORKER_WIDTH, WORKER_HEIGHT),
            r@.messages == seq![DecodeMessage::DecoderCreated],
            !r@.running,
    {
        let decoder = IMFDecoder::new(WORKER_WIDTH, WORKER_HEIGHT);
        let mut messages: Vec<DecodeMessage> = Vec::new();
        messages.push(DecodeMessage::DecoderCreated);
        DecoderWorker { status: DecoderStatus::Idle, decoder, messages, running: false }
    }

    pub fn status(&self) -> (r: DecoderStatus)
        ensures
            r == self@.status,
    {
        self.status
    }

    /// Whether the prefetch loop may issue its next request.
    pub fn is_running(&self) -> (r: bool)
        ensures
            r == self@.running,
    {
        self.running
    }

    pub fn decoder(&self) -> (r: &IMFDecoder)
        ensures
            r@ == self@.decoder,
    {
        &self.decoder
    }

    /// One-time setup, from `Idle` only: moves to `Initializing`, then, where the backend
    /// setup (`backend_ready`) succeeded, to `Inited`; where it failed the session stays in
    /// `Initializing` and reports `InitializationFailed`.
    pub fn initialize(&mut self, backend_ready: bool) -> (r: Result<(), DecoderError>)
        requires
            old(self).wf(),
        ensures
            final(self).wf(),
            old(self)@.status != DecoderStatus::Idle ==> r == Err::<(), DecoderError>(
                DecoderError::InvalidStateTransition { from: old(self)@.status },
            ) && final(self)@ == old(self)@,
            old(self)@.status == DecoderStatus::Idle && backend_ready ==> r is Ok && final(self)@
                == (SessionModel {
                status: DecoderStatus::Inited,
                messages: old(self)@.messages.push(DecodeMessage::DecoderInit).push(
                    DecodeMessage::DecoderInited,
                ),
                ..old(self)@
            }),
            old(self)@.status == DecoderStatus::Idle && !backend_ready ==> r == Err::<
                (),
                DecoderError,
            >(DecoderError::InitializationFailed) && final(self)@ == (SessionModel {
                status: DecoderStatus::Initializing,
                messages: old(self)@.messages.push(DecodeMessage::DecoderInit).push(
                    DecodeMessage::DecoderOpenError,
                ),
                ..old(self)@
            }),
    {
        if self.status != DecoderStatus::Idle {
            return Err(DecoderError::InvalidStateTransition { from: self.status });
        }
        self.status = DecoderStatus::Initializing;
        self.messages.push(DecodeMessage::DecoderInit);
        if backend_ready {
            self.status = DecoderStatus::Inited;
            self.messages.push(DecodeMessage::DecoderInited);
            Ok(())
        } else {
            self.messages.push(DecodeMessage::DecoderOpenError);
            Err(DecoderError::InitializationFailed)
        }
    }

    fn transition(&mut self, op: LifecycleOp) -> (r: Result<(), DecoderError>)
        requires
            old(self).wf(),
        ensures
            final(self).wf(),
            lifecycle_post(old(self)@, final(self)@, op, r),
    {
        let next = match (self.status, op) {
            (DecoderStatus::Inited, LifecycleOp::MarkReady) => Some(DecoderStatus::Ready),
            (DecoderStatus::Ready, LifecycleOp::Start) => Some(DecoderStatus::Open),
            (DecoderStatus::Open, LifecycleOp::Pause) => Some(DecoderStatus::Pause),
            (DecoderStatus::Pause, LifecycleOp::Resume) => Some(DecoderStatus::Open),
            (DecoderStatus::Open, LifecycleOp::Close) => Some(DecoderStatus::Closed),
            (DecoderStatus::Pause, LifecycleOp::Close) => Some(DecoderStatus::Closed),
            _ => None,
        };
        match next {
            None => Err(DecoderError::InvalidStateTransition { from: self.status }),
            Some(s) => {
                self.status = s;
                match op {
                    LifecycleOp::MarkReady => {
                        self.messages.push(DecodeMessage::DecoderReady);
                    },
                    LifecycleOp::Start => {
                        self.running = true;
                        self.messages.push(DecodeMessage::DecoderStarted);
                    },
                    LifecycleOp::Resume => {
                        self.running = true;
                        self.messages.push(DecodeMessage::DecoderStarted);
                    },
                    LifecycleOp::Pause => {
                        self.running = false;
                        self.messages.push(DecodeMessage::DecoderPaused);
                    },
                    LifecycleOp::Close => {
                        self.running = false;
                        self.decoder.clear_queue();
                        self.messages.push(DecodeMessage::DecoderClosed);
                    },
                }
                Ok(())
            },
        }
    }

    /// The rendering backend is attached: `Inited` to `Ready`.
    pub fn mark_ready(&mut self) -> (r: Result<(), DecoderError>)
        requires
            old(self).wf(),
        ensures
            final(self).wf(),
            lifecycle_post(old(self)@, final(self)@, LifecycleOp::MarkReady, r),
    {
        self.transition(LifecycleOp::MarkReady)
    }

    /// `Ready` to `Open`; the prefetch loop may run.
    pub fn start(&mut self) -> (r: Result<(), DecoderError>)
        requires
            old(self).wf(),
        ensures
            final(self).wf(),
            lifecycle_post(old(self)@, final(self)@, LifecycleOp::Start, r),
    {
        self.transition(LifecycleOp::Start)
    }

    /// `Open` to `Pause`; the prefetch loop stops.
    pub fn pause(&mut self) -> (r: Result<(), DecoderError>)
        requires
            old(self).wf(),
        ensures
            final(self).wf(),
            lifecycle_post(old(self)@, final(self)@, LifecycleOp::Pause, r),
    {
        self.transition(LifecycleOp::Pause)
    }

    /// `Pause` back to `Open`; the prefetch loop may run again.
    pub fn resume(&mut self) -> (r: Result<(), DecoderError>)
        requires
            old(self).wf(),
        ensures
            final(self).wf(),
            lifecycle_post(old(self)@, final(self)@, LifecycleOp::Resume, r),
    {
        self.transition(LifecycleOp::Resume)
    }

    /// `Open` or `Pause` to `Closed`, for good: the prefetch loop stops and the queue is
    /// emptied.
    pub fn close(&mut self) -> (r: Result<(), DecoderError>)
        requires
            old(self).wf(),
        ensures
            final(self).wf(),
            lifecycle_post(old(self)@, final(self)@, LifecycleOp::Close, r),
    {
        self.transition(LifecycleOp::Close)
    }

    /// The prefetch loop ended on its own (a failed request, or no more frames).
    pub fn stop_prefetch(&mut self)
        requires
            old(self).wf(),
        ensures
            final(self).wf(),
            final(self)@ == (SessionModel { running: false, ..old(self)@ }),
    {
        self.running = false;
    }

    /// Pushes a frame into the queue while the session is open; see `Queue::push`. This is the
    /// prefetch loop's path, whose policy is to discard and count: a rejected frame is dropped.
    pub fn push_frame(&mut self, frame: Frame) -> (r: Result<bool, DecoderError>)
        requires
            old(self).wf(),
        ensures
            final(self).wf(),
            old(self)@.status != DecoderStatus::Open ==> r == Err::<bool, DecoderError>(
                DecoderError::SessionNotOpen { status: old(self)@.status },
            ) && final(self)@ == old(self)@,
            old(self)@.status == DecoderStatus::Open ==> r == Ok::<bool, DecoderError>(
                old(self)@.decoder.queue.accepts(),
            ) && final(self)@ == (SessionModel {
                decoder: DecoderModel {
                    queue: old(self)@.decoder.queue.pushed(frame),
                    ..old(self)@.decoder
                },
                ..old(self)@
            }),
    {
        if self.status != DecoderStatus::Open {
            return Err(DecoderError::SessionNotOpen { status: self.status });
        }
        Ok(self.decoder.push_frame(frame).is_ok())
    }

    /// While open: turns the tokens' pixel bytes into frames, pushes them, advances one batch
    /// (timed by `clock`) and announces a decoded frame. Returns copies of the frames the batch
    /// moved.
    pub fn process_frame<C: Clock>(&mut self, buffers: Vec<Vec<u8>>, clock: &C) -> (r: Result<
        Vec<Frame>,
        DecoderError,
    >)
        requires
            old(self).wf(),
        ensures
            final(self).wf(),
            match r {
                Ok(batch) => {
                    &&& old(self)@.status == DecoderStatus::Open
                    &&& forall|i: int|
                        0 <= i < buffers@.len() ==> token_fits(
                            old(self)@.decoder.width,
                            old(self)@.decoder.height,
                            #[trigger] buffers@[i]@,
                        )
                    &&& tokens_then_batch(
                        old(self)@.decoder,
                        buffers@,
                        final(self)@.decoder,
                        batch@,
                    )
                    &&& final(self)@ == (SessionModel {
                        decoder: final(self)@.decoder,
                        messages: old(self)@.messages.push(DecodeMessage::DecodedVideoFrame),
                        ..old(self)@
                    })
                },
                Err(e) => {
                    &&& final(self)@ == old(self)@
                    &&& if old(self)@.status != DecoderStatus::Open {
                        e == DecoderError::SessionNotOpen { status: old(self)@.status }
                    } else {
                        malformed_error(
                            old(self)@.decoder.width,
                            old(self)@.decoder.height,
                            buffers@,
                            e,
                        )
                    }
                },
            },
    {
        if self.status != DecoderStatus::Open {
            return Err(DecoderError::SessionNotOpen { status: self.status });
        }
        match self.decoder.process_tokens(buffers) {
            Err(e) => Err(e),
            Ok(_) => {
                let batch = self.decoder.process_batch(clock);
                self.messages.push(DecodeMessage::DecodedVideoFrame);
                Ok(batch)
            },
        }
    }

    /// Hands over the oldest finished frame, in any state.
    pub fn take_output(&mut self) -> (r: Option<Frame>)
        requires
            old(self).wf(),
        ensures
            final(self).wf(),
            take_post(old(self)@.decoder.queue, final(self)@.decoder.queue, r),
            final(self)@ == (SessionModel {
                decoder: DecoderModel { queue: final(self)@.decoder.queue, ..old(self)@.decoder },
                ..old(self)@
            }),
    {
        self.decoder.take_output()
    }

    /// Hands the pending notifications to the host, oldest first.
    pub fn take_messages(&mut self) -> (r: Vec<DecodeMessage>)
        requires
            old(self).wf(),
        ensures
            final(self).wf(),
            r@ == old(self)@.messages,
            final(self)@ == (SessionModel { messages: Seq::empty(), ..old(self)@ }),
    {
        let mut out: Vec<DecodeMessage> = Vec::new();
        std::mem::swap(&mut out, &mut self.messages);
        out
    }
}

/// Starting twice: from `Ready` the first `start` opens the session, and the second, made
/// from `Open`, fails with `InvalidStateTransition` and leaves the session open and unchanged.
pub proof fn start_twice(s0: SessionModel, s1: SessionModel, s2: SessionModel, r1: Result<
    (),
    DecoderError,
>, r2: Result<(), DecoderError>)
    requires
        s0.status == DecoderStatus::Ready,
        lifecycle_post(s0, s1, LifecycleOp::Start, r1),
        lifecycle_post(s1, s2, LifecycleOp::Start, r2),
    ensures
        r1 is Ok,
        s1.status == DecoderStatus::Open,
        r2 == Err::<(), DecoderError>(DecoderError::InvalidStateTransition { from: DecoderStatus::Open }),
        s2 == s1,
{
}

/// `Closed` is terminal: no lifecycle call leaves it.
pub proof fn closed_is_terminal(op: LifecycleOp)
    ensures
        next_status(DecoderStatus::Closed, op) is None,
{
}

} // verus!
