use vstd::prelude::*;

use std::collections::VecDeque;
use crate::frame::Frame;
use crate::utils::window::{push_window, sum_of, total_of, windowed};

verus! {

/// Number of processing-time samples kept in the rolling window.
pub const PROCESSING_WINDOW: usize = 100;

/// Number of stages a frame passes through: input, processing, output.
pub const STAGE_COUNT: usize = 3;

/// Utilization is reported in parts per million.
pub const UTILIZATION_SCALE: u64 = 1000000;

/// A source of time readings, in microseconds, supplied by the host. Nothing is assumed of
/// the readings: they need not even increase.
pub trait Clock {
    fn now_micros(&self) -> u64;
}

/// `n + 1`, held at `usize::MAX`.
pub open spec fn saturating_inc(n: nat) -> nat {
    if n < usize::MAX {
        n + 1
    } else {
        n
    }
}

/// `n + k`, held at `usize::MAX`.
pub open spec fn saturating_add(n: nat, k: nat) -> nat {
    if n + k <= usize::MAX {
        n + k
    } else {
        usize::MAX as nat
    }
}

/// Frames across all stages over the capacity of all stages, in parts per million,
/// held at `u64::MAX`; zero for a queue of no capacity.
pub open spec fn utilization(total: nat, max_size: nat) -> nat {
    if max_size == 0 {
        0
    } else {
        let r = total * (UTILIZATION_SCALE as nat) / (max_size * (STAGE_COUNT as nat));
        if r > u64::MAX {
            u64::MAX as nat
        } else {
            r
        }
    }
}

/// Appends a sample to the processing-time window.
pub open spec fn window_push(times: Seq<u64>, t: u64) -> Seq<u64> {
    windowed(times, t, PROCESSING_WINDOW as nat)
}

/// Appends several samples in order.
pub open spec fn window_push_all(times: Seq<u64>, ts: Seq<u64>) -> Seq<u64>
    decreases ts.len(),
{
    if ts.len() == 0 {
        times
    } else {
        window_push(window_push_all(times, ts.drop_last()), ts.last())
    }
}

/// Mean of the samples, rounded down; zero when there are none.
pub open spec fn average(s: Seq<u64>) -> nat {
    if s.len() == 0 {
        0
    } else {
        sum_of(s) / s.len()
    }
}

/// The state of a queue: its three stages, oldest frame first, and its metrics.
pub struct QueueModel {
    pub input: Seq<Frame>,
    pub processing: Seq<Frame>,
    pub output: Seq<Frame>,
    pub max_size: nat,
    pub batch_size: nat,
    pub frames_processed: nat,
    pub frames_dropped: nat,
    /// Recent processing times in microseconds, oldest first.
    pub processing_times: Seq<u64>,
    pub last_process_time: u64,
    /// Parts per million, see `utilization`.
    pub queue_utilization: nat,
}

impl QueueModel {
    pub open spec fn total(self) -> nat {
        self.input.len() + self.processing.len() + self.output.len()
    }

    /// Every frame held, in the order in which it will leave: output, processing, input.
    pub open spec fn pipeline(self) -> Seq<Frame> {
        self.output + self.processing + self.input
    }

    pub open spec fn wf(self) -> bool {
        &&& self.input.len() <= self.max_size
        &&& self.processing.len() == 0
        &&& self.output.len() <= usize::MAX
        &&& self.max_size <= usize::MAX
        &&& self.batch_size <= usize::MAX
        &&& self.frames_processed <= usize::MAX
        &&& self.frames_dropped <= usize::MAX
        &&& self.processing_times.len() <= PROCESSING_WINDOW
        &&& self.queue_utilization == utilization(self.total(), self.max_size)
    }

    /// An empty queue with zeroed metrics.
    pub open spec fn empty(max_size: nat, batch_size: nat) -> QueueModel {
        QueueModel {
            input: Seq::empty(),
            processing: Seq::empty(),
            output: Seq::empty(),
            max_size,
            batch_size,
            frames_processed: 0,
            frames_dropped: 0,
            processing_times: Seq::empty(),
            last_process_time: 0,
            queue_utilization: 0,
        }
    }

    pub open spec fn with_utilization(self) -> QueueModel {
        QueueModel { queue_utilization: utilization(self.total(), self.max_size), ..self }
    }

    pub open spec fn accepts(self) -> bool {
        self.input.len() < self.max_size
    }

    /// After `push(f)`: admitted while input has room, else rejected and counted.
    pub open spec fn pushed(self, f: Frame) -> QueueModel {
        if self.accepts() {
            QueueModel { input: self.input.push(f), ..self }.with_utilization()
        } else {
            QueueModel { frames_dropped: saturating_inc(self.frames_dropped), ..self }
        }
    }

    /// The head of input, if any, moved through processing into output.
    pub open spec fn advanced_frames(self) -> QueueModel {
        if self.input.len() == 0 {
            self
        } else {
            QueueModel {
                input: self.input.drop_first(),
                output: self.output.push(self.input[0]),
                frames_processed: saturating_inc(self.frames_processed),
                ..self
            }
        }
    }

    /// The first `k` frames of input moved into output.
    pub open spec fn batch_frames(self, k: nat) -> QueueModel {
        QueueModel {
            input: self.input.skip(k as int),
            output: self.output + self.input.take(k as int),
            frames_processed: saturating_add(self.frames_processed, k),
            ..self
        }
    }

    /// How many frames one batch moves: `batch_size`, or fewer when input runs out.
    pub open spec fn batch_count(self) -> nat {
        if self.batch_size <= self.input.len() {
            self.batch_size
        } else {
            self.input.len()
        }
    }

    /// One processing time recorded.
    pub open spec fn timed(self, t: u64) -> QueueModel {
        QueueModel {
            processing_times: window_push(self.processing_times, t),
            last_process_time: t,
            ..self
        }
    }

    /// Several processing times recorded in order.
    pub open spec fn timed_all(self, ts: Seq<u64>) -> QueueModel {
        if ts.len() == 0 {
            self
        } else {
            QueueModel {
                processing_times: window_push_all(self.processing_times, ts),
                last_process_time: ts.last(),
                ..self
            }
        }
    }

    /// After `take_output`: the oldest output frame removed.
    pub open spec fn taken(self) -> QueueModel {
        if self.output.len() == 0 {
            self
        } else {
            QueueModel { output: self.output.drop_first(), ..self }.with_utilization()
        }
    }

    /// After `clear`: all stages empty, metrics zeroed, sizes kept.
    pub open spec fn cleared(self) -> QueueModel {
        QueueModel::empty(self.max_size, self.batch_size)
    }
}

/// The queue after pushing `fs` in order.
pub open spec fn pushed_all(q: QueueModel, fs: Seq<Frame>) -> QueueModel
    decreases fs.len(),
{
    if fs.len() == 0 {
        q
    } else {
        pushed_all(q, fs.drop_last()).pushed(fs.last())
    }
}

/// What `process_next` does: one frame moved to output, one processing time recorded,
/// and a copy of the moved frame returned.
pub open spec fn advance_post(pre: QueueModel, post: QueueModel, r: Option<Frame>) -> bool {
    &&& post == pre.advanced_frames().timed(post.last_process_time)
    &&& match r {
        None => pre.input.len() == 0,
        Some(f) => pre.input.len() > 0 && f@ == pre.input[0]@,
    }
}

/// What `process_batch` does: `batch_count` frames moved to output, one processing time
/// recorded for each, and copies of the moved frames returned in order.
pub open spec fn batch_post(pre: QueueModel, post: QueueModel, r: Seq<Frame>) -> bool {
    &&& r.len() == pre.batch_count()
    &&& forall|i: int| 0 <= i < r.len() ==> (#[trigger] r[i])@ == pre.input[i]@
    &&& exists|ts: Seq<u64>|
        ts.len() == r.len() && post == #[trigger] pre.batch_frames(r.len() as nat).timed_all(ts)
}

/// What `take_output` does: the oldest output frame handed over.
pub open spec fn take_post(pre: QueueModel, post: QueueModel, r: Option<Frame>) -> bool {
    &&& post == pre.taken()
    &&& match r {
        None => pre.output.len() == 0,
        Some(f) => pre.output.len() > 0 && f == pre.output[0],
    }
}

/// Counters and rolling samples kept by a queue.
pub struct QueueMetrics {
    pub frames_processed: usize,
    pub frames_dropped: usize,
    /// Recent processing times in microseconds, oldest first.
    pub processing_times: Vec<u64>,
    /// Parts per million of the capacity of all stages.
    pub queue_utilization: u64,
    pub last_process_time: u64,
}

impl Default for QueueMetrics {
    /// All counters zero and no samples.
    fn default() -> (r: QueueMetrics)
        ensures
            r.frames_processed == 0,
            r.frames_dropped == 0,
            r.processing_times@.len() == 0,
            r.queue_utilization == 0,
            r.last_process_time == 0,
    {
        QueueMetrics {
            frames_processed: 0,
            frames_dropped: 0,
            processing_times: Vec::new(),
            queue_utilization: 0,
            last_process_time: 0,
        }
    }
}

/// A bounded three-stage FIFO of frames: input (bounded by `max_size`), processing, output.
pub struct Queue {
    input_queue: VecDeque<Frame>,
    processing_queue: VecDeque<Frame>,
    output_queue: VecDeque<Frame>,
    max_size: usize,
    batch_size: usize,
    metrics: QueueMetrics,
}

/// A snapshot of a queue's metrics and stage sizes.
pub struct QueueStats {
    pub frames_processed: usize,
    pub frames_dropped: usize,
    /// Mean of the recent processing times, in microseconds.
    pub average_processing_time: u64,
    /// Parts per million of the capacity of all stages.
    pub queue_utilization: u64,
    pub input_queue_size: usize,
    pub processing_queue_size: usize,
    pub output_queue_size: usize,
    pub last_process_time: u64,
    pub max_size: usize,
    pub batch_size: usize,
}

impl View for Queue {
    type V = QueueModel;

    closed spec fn view(&self) -> QueueModel {
        QueueModel {
            input: self.input_queue@,
            processing: self.processing_queue@,
            output: self.output_queue@,
            max_size: self.max_size as nat,
            batch_size: self.batch_size as nat,
            frames_processed: self.metrics.frames_processed as nat,
            frames_dropped: self.metrics.frames_dropped as nat,
            processing_times: self.metrics.processing_times@,
            last_process_time: self.metrics.last_process_time,
            queue_utilization: self.metrics.queue_utilization as nat,
        }
    }
}

/// Microseconds between two readings; zero when the clock went backwards.
fn elapsed_between(start: u64, end: u64) -> u64 {
    if end >= start {
        end - start
    } else {
        0
    }
}

fn utilization_of(total: u128, max_size: usize) -> (r: u64)
    requires
        total <= 3 * usize::MAX,
    ensures
        r == utilization(total as nat, max_size as nat),
{
    if max_size == 0 {
        0
    } else {
        proof {
            assert(total * 1000000 <= 3 * usize::MAX * 1000000) by (nonlinear_arith)
                requires
                    total <= 3 * usize::MAX,
            ;
        }
        let den: u128 = max_size as u128 * STAGE_COUNT as u128;
        let r: u128 = total * UTILIZATION_SCALE as u128 / den;
        if r > u64::MAX as u128 {
            u64::MAX
        } else {
            r as u64
        }
    }
}

proof fn lemma_window_push_all_step(times: Seq<u64>, ts: Seq<u64>, t: u64)
    ensures
        window_push_all(times, ts.push(t)) == window_push(window_push_all(times, ts), t),
{
    assert(ts.push(t).drop_last() =~= ts);
}

proof fn lemma_batch_step(m: QueueModel, k: nat, ts: Seq<u64>, t: u64)
    requires
        k < m.input.len(),
        ts.len() == k,
    ensures
        m.batch_frames(k).timed_all(ts).advanced_frames().timed(t) == m.batch_frames(k + 1)
            .timed_all(ts.push(t)),
        m.batch_frames(k).timed_all(ts).input.len() > 0,
        m.batch_frames(k).timed_all(ts).input[0] == m.input[k as int],
{
    let a = m.batch_frames(k);
    let b = m.batch_frames(k + 1);
    assert(a.input.drop_first() =~= b.input);
    assert(a.output.push(a.input[0]) =~= b.output);
    lemma_window_push_all_step(m.processing_times, ts, t);
    assert(ts.push(t).last() == t);
    assert(ts.push(t).len() > 0);
}

impl Queue {
    /// The queue's invariant: input within capacity, processing drained between calls,
    /// a bounded window of samples, and utilization matching the stage sizes.
    pub open spec fn wf(&self) -> bool {
        self@.wf()
    }

    pub fn new(max_size: usize, batch_size: usize) -> (r: Queue)
        ensures
            r.wf(),
            r@ == QueueModel::empty(max_size as nat, batch_size as nat),
    {
        let q = Queue {
            input_queue: VecDeque::with_capacity(max_size),
            processing_queue: VecDeque::with_capacity(batch_size),
            output_queue: VecDeque::with_capacity(max_size),
            max_size,
            batch_size,
            metrics: QueueMetrics::default(),
        };
        assert(q@.input =~= Seq::<Frame>::empty());
        assert(q@.output =~= Seq::<Frame>::empty());
        assert(q@.processing =~= Seq::<Frame>::empty());
        assert(q@.processing_times =~= Seq::<u64>::empty());
        q
    }

    fn update_metrics(&mut self)
        requires
            old(self)@.total() <= 3 * usize::MAX,
        ensures
            final(self)@ == old(self)@.with_utilization(),
            final(self).input_queue@ == old(self).input_queue@,
            final(self).processing_queue@ == old(self).processing_queue@,
            final(self).output_queue@ == old(self).output_queue@,
    {
        let total: u128 = self.input_queue.len() as u128 + self.processing_queue.len() as u128
            + self.output_queue.len() as u128;
        self.metrics.queue_utilization = utilization_of(total, self.max_size);
    }

    /// Admits `frame` into input while input holds fewer than `max_size` frames. Otherwise
    /// rejects it, counts the drop, and hands the frame back to the caller; an admitted
    /// frame is never evicted to make room.
    pub fn push(&mut self, frame: Frame) -> (r: Result<(), Frame>)
        requires
            old(self).wf(),
        ensures
            final(self).wf(),
            r is Ok == old(self)@.accepts(),
            r matches Err(f) ==> f == frame,
            final(self)@ == old(self)@.pushed(frame),
    {
        if self.input_queue.len() < self.max_size {
            self.input_queue.push_back(frame);
            self.update_metrics();
            Ok(())
        } else {
            if self.metrics.frames_dropped < usize::MAX {
                self.metrics.frames_dropped = self.metrics.frames_dropped + 1;
            }
            Err(frame)
        }
    }

    fn record_processing_time(&mut self, t: u64)
        requires
            old(self).metrics.processing_times@.len() <= PROCESSING_WINDOW,
        ensures
            final(self)@ == old(self)@.timed(t),
            final(self).input_queue@ == old(self).input_queue@,
            final(self).processing_queue@ == old(self).processing_queue@,
            final(self).output_queue@ == old(self).output_queue@,
    {
        push_window(&mut self.metrics.processing_times, t, PROCESSING_WINDOW);
        self.metrics.last_process_time = t;
    }

    /// Moves the head of processing into output and returns a copy of it.
    fn process_frame(&mut self) -> (r: Option<Frame>)
        ensures
            final(self).input_queue@ == old(self).input_queue@,
            final(self).max_size == old(self).max_size,
            final(self).batch_size == old(self).batch_size,
            final(self).metrics == old(self).metrics,
            match r {
                None => {
                    &&& old(self).processing_queue@.len() == 0
                    &&& final(self).processing_queue@ == old(self).processing_queue@
                    &&& final(self).output_queue@ == old(self).output_queue@
                },
                Some(f) => {
                    &&& old(self).processing_queue@.len() > 0
                    &&& f@ == old(self).processing_queue@[0]@
                    &&& final(self).processing_queue@ == old(self).processing_queue@.drop_first()
                    &&& final(self).output_queue@ == old(self).output_queue@.push(
                        old(self).processing_queue@[0],
                    )
                },
            },
    {
        match self.processing_queue.pop_front() {
            Some(frame) => {
                let copy = frame.clone();
                self.output_queue.push_back(frame);
                Some(copy)
            },
            None => None,
        }
    }

    /// Moves the head of input through processing into output, records how long that took by
    /// `clock`, and returns a copy of the frame now in output; `None` when input is empty.
    pub fn process_next<C: Clock>(&mut self, clock: &C) -> (r: Option<Frame>)
        requires
            old(self).wf(),
        ensures
            final(self).wf(),
            advance_post(old(self)@, final(self)@, r),
    {
        let ghost pre = self@;
        let start = clock.now_micros();
        let result = match self.input_queue.pop_front() {
            Some(frame) => {
                self.processing_queue.push_back(frame);
                self.process_frame()
            },
            None => None,
        };
        let elapsed = elapsed_between(start, clock.now_micros());
        self.record_processing_time(elapsed);
        if result.is_some() {
            if self.metrics.frames_processed < usize::MAX {
                self.metrics.frames_processed = self.metrics.frames_processed + 1;
            }
        }
        proof {
            assert(self@.processing =~= pre.processing);
            if pre.input.len() > 0 {
                assert(self@.input =~= pre.input.drop_first());
            }
        }
        self.update_metrics();
        assert(self@ == pre.advanced_frames().timed(elapsed));
        proof {
            // output grew by one: its length still fits in usize, as vstd states of `len`
            assert(self.output_queue.len() == self.output_queue@.len());
        }
        result
    }

    /// Advances up to `batch_size` frames, stopping early when input runs out, timing each by
    /// `clock`, and returns copies of them in the order they were admitted.
    pub fn process_batch<C: Clock>(&mut self, clock: &C) -> (r: Vec<Frame>)
        requires
            old(self).wf(),
        ensures
            final(self).wf(),
            batch_post(old(self)@, final(self)@, r@),
            r@.len() <= old(self)@.batch_size,
            r@.len() < old(self)@.batch_size ==> final(self)@.input.len() == 0,
    {
        let ghost pre = self@;
        let ghost mut ts: Seq<u64> = Seq::empty();
        let mut batch: Vec<Frame> = Vec::with_capacity(self.batch_size);
        assert(pre.batch_frames(0).input =~= pre.input);
        assert(pre.batch_frames(0).output =~= pre.output);
        assert(pre.batch_frames(0).timed_all(ts) == pre);
        while batch.len() < self.batch_size && self.input_queue.len() > 0
            invariant
                self.wf(),
                batch@.len() <= pre.batch_size,
                batch@.len() <= pre.input.len(),
                ts.len() == batch@.len(),
                self@ == pre.batch_frames(batch@.len() as nat).timed_all(ts),
                self.batch_size == pre.batch_size,
                forall|i: int| 0 <= i < batch@.len() ==> (#[trigger] batch@[i])@ == pre.input[i]@,
            decreases self@.input.len(),
        {
            let ghost k = batch@.len() as nat;
            let ghost cur = self@;
            proof {
                assert(self@.input.len() == self.input_queue@.len());
                assert(cur.input =~= pre.input.skip(k as int));
            }
            let r = self.process_next(clock);
            proof {
                lemma_batch_step(pre, k, ts, self@.last_process_time);
                ts = ts.push(self@.last_process_time);
            }
            match r {
                Some(frame) => {
                    batch.push(frame);
                },
                None => {},
            }
        }
        proof {
            assert(self@.input.len() == self.input_queue@.len());
            assert(self@.input =~= pre.input.skip(batch@.len() as int));
        }
        batch
    }

    /// Hands over the oldest frame of output; `None` when output is empty.
    pub fn take_output(&mut self) -> (r: Option<Frame>)
        requires
            old(self).wf(),
        ensures
            final(self).wf(),
            take_post(old(self)@, final(self)@, r),
    {
        let r = self.output_queue.pop_front();
        if r.is_some() {
            self.update_metrics();
        }
        r
    }

    /// A snapshot of the metrics and stage sizes.
    pub fn get_metrics(&self) -> (s: QueueStats)
        requires
            self.wf(),
        ensures
            s.frames_processed == self@.frames_processed,
            s.frames_dropped == self@.frames_dropped,
            s.average_processing_time == average(self@.processing_times),
            s.queue_utilization == self@.queue_utilization,
            s.input_queue_size == self@.input.len(),
            s.processing_queue_size == self@.processing.len(),
            s.output_queue_size == self@.output.len(),
            s.last_process_time == self@.last_process_time,
            s.max_size == self@.max_size,
            s.batch_size == self@.batch_size,
    {
        QueueStats {
            frames_processed: self.metrics.frames_processed,
            frames_dropped: self.metrics.frames_dropped,
            average_processing_time: self.get_average_processing_time(),
            queue_utilization: self.metrics.queue_utilization,
            input_queue_size: self.input_queue.len(),
            processing_queue_size: self.processing_queue.len(),
            output_queue_size: self.output_queue.len(),
            last_process_time: self.metrics.last_process_time,
            max_size: self.max_size,
            batch_size: self.batch_size,
        }
    }

    /// Number of frames in input.
    pub fn get_size(&self) -> (r: usize)
        ensures
            r == self@.input.len(),
    {
        self.input_queue.len()
    }

    pub fn get_max_size(&self) -> (r: usize)
        ensures
            r == self@.max_size,
    {
        self.max_size
    }

    pub fn get_batch_size(&self) -> (r: usize)
        ensures
            r == self@.batch_size,
    {
        self.batch_size
    }

    /// Sizes of input, processing and output.
    pub fn get_queue_sizes(&self) -> (r: (usize, usize, usize))
        ensures
            r.0 == self@.input.len(),
            r.1 == self@.processing.len(),
            r.2 == self@.output.len(),
    {
        (self.input_queue.len(), self.processing_queue.len(), self.output_queue.len())
    }

    pub fn get_frames_processed(&self) -> (r: usize)
        ensures
            r == self@.frames_processed,
    {
        self.metrics.frames_processed
    }

    pub fn get_frames_dropped(&self) -> (r: usize)
        ensures
            r == self@.frames_dropped,
    {
        self.metrics.frames_dropped
    }

    /// The most recent processing time, in microseconds.
    pub fn get_processing_time(&self) -> (r: u64)
        ensures
            r == self@.last_process_time,
    {
        self.metrics.last_process_time
    }

    fn get_average_processing_time(&self) -> (r: u64)
        requires
            self.wf(),
        ensures
            r == average(self@.processing_times),
    {
        let n: usize = self.metrics.processing_times.len();
        if n == 0 {
            return 0;
        }
        let sum: u128 = total_of(&self.metrics.processing_times);
        proof {
            assert((sum as int) / (n as int) <= u64::MAX) by (nonlinear_arith)
                requires
                    sum <= n * u64::MAX,
                    n > 0,
            ;
        }
        (sum / n as u128) as u64
    }

    /// True when all three stages are empty.
    pub fn is_empty(&self) -> (r: bool)
        ensures
            r == (self@.total() == 0),
    {
        self.input_queue.len() == 0 && self.processing_queue.len() == 0
            && self.output_queue.len() == 0
    }

    /// True when input holds `max_size` frames or more.
    pub fn is_full(&self) -> (r: bool)
        ensures
            r == (self@.input.len() >= self@.max_size),
    {
        self.input_queue.len() >= self.max_size
    }

    /// Room left in input.
    pub fn remaining_capacity(&self) -> (r: usize)
        requires
            self.wf(),
        ensures
            r == self@.max_size - self@.input.len(),
    {
        self.max_size - self.input_queue.len()
    }

    /// Empties all three stages and zeroes the metrics; discarded frames are not counted as drops.
    pub fn clear(&mut self)
        ensures
            final(self).wf(),
            final(self)@ == old(self)@.cleared(),
    {
        self.input_queue.clear();
        self.processing_queue.clear();
        self.output_queue.clear();
        self.metrics = QueueMetrics::default();
        assert(self@.processing_times =~= Seq::<u64>::empty());
    }
}

/// One public queue operation and what it returned.
pub enum QueueEvent {
    Pushed(Frame),
    Advanced(Option<Frame>),
    Batched(Seq<Frame>),
    Taken(Option<Frame>),
}

/// `post` is what the operation `e` leaves of `pre`, as the operations' contracts state it.
pub open spec fn queue_step(pre: QueueModel, post: QueueModel, e: QueueEvent) -> bool {
    match e {
        QueueEvent::Pushed(f) => post == pre.pushed(f),
        QueueEvent::Advanced(r) => advance_post(pre, post, r),
        QueueEvent::Batched(rs) => batch_post(pre, post, rs),
        QueueEvent::Taken(r) => take_post(pre, post, r),
    }
}

/// `states` is a run of the queue driven by `events`.
pub open spec fn is_run(states: Seq<QueueModel>, events: Seq<QueueEvent>) -> bool {
    &&& states.len() == events.len() + 1
    &&& forall|i: int| 0 <= i < states.len() ==> (#[trigger] states[i]).wf()
    &&& forall|i: int| 0 <= i < events.len() ==> queue_step(states[i], states[i + 1], #[trigger] events[i])
}

/// The frames admitted by the first `n` events, in order.
pub open spec fn admitted_upto(states: Seq<QueueModel>, events: Seq<QueueEvent>, n: nat) -> Seq<Frame>
    decreases n,
{
    if n == 0 {
        Seq::empty()
    } else {
        let prev = admitted_upto(states, events, (n - 1) as nat);
        match events[n - 1] {
            QueueEvent::Pushed(f) => if states[n - 1].accepts() {
                prev.push(f)
            } else {
                prev
            },
            _ => prev,
        }
    }
}

/// The frames handed over by `take_output` in the first `n` events, in order.
pub open spec fn taken_upto(events: Seq<QueueEvent>, n: nat) -> Seq<Frame>
    decreases n,
{
    if n == 0 {
        Seq::empty()
    } else {
        let prev = taken_upto(events, (n - 1) as nat);
        match events[n - 1] {
            QueueEvent::Taken(Some(f)) => prev.push(f),
            _ => prev,
        }
    }
}

/// A push never takes input past `max_size`; a rejected push counts one drop (unless the
/// counter is already at `usize::MAX`) and leaves every stage as it was.
pub proof fn push_within_capacity(pre: QueueModel, f: Frame)
    requires
        pre.wf(),
    ensures
        pre.pushed(f).wf(),
        pre.pushed(f).input.len() <= pre.pushed(f).max_size,
        !pre.accepts() ==> pre.pushed(f).pipeline() == pre.pipeline() && pre.pushed(f).input
            == pre.input,
        !pre.accepts() && pre.frames_dropped < usize::MAX ==> pre.pushed(f).frames_dropped
            == pre.frames_dropped + 1,
{
}

/// Over any sequence of pushes input stays within `max_size`, every frame is either admitted
/// or counted as a drop (while the counter stays below `usize::MAX`), and the admitted
/// frames are a prefix of the sequence, appended to input in order.
pub proof fn pushes_within_capacity(q: QueueModel, fs: Seq<Frame>)
    requires
        q.wf(),
    ensures
        pushed_all(q, fs).wf(),
        pushed_all(q, fs).input.len() <= pushed_all(q, fs).max_size,
        pushed_all(q, fs).input.len() >= q.input.len(),
        pushed_all(q, fs).input.len() - q.input.len() <= fs.len(),
        pushed_all(q, fs).input.len() - q.input.len() < fs.len() ==> !pushed_all(q, fs).accepts(),
        pushed_all(q, fs).input == q.input + fs.take(
            pushed_all(q, fs).input.len() - q.input.len(),
        ),
        q.frames_dropped + fs.len() <= usize::MAX ==> pushed_all(q, fs).frames_dropped
            == q.frames_dropped + fs.len() - (pushed_all(q, fs).input.len() - q.input.len()),
    decreases fs.len(),
{
    if fs.len() > 0 {
        let prev = pushed_all(q, fs.drop_last());
        pushes_within_capacity(q, fs.drop_last());
        push_within_capacity(prev, fs.last());
        let k = prev.input.len() - q.input.len();
        assert(fs.drop_last().take(k) =~= fs.take(k));
        if prev.accepts() {
            // nothing is admitted after a rejection, since input then stays full
            assert(k == fs.len() - 1);
            assert(fs.take(k + 1) =~= fs.take(k).push(fs.last()));
        }
    }
}

proof fn lemma_step_pipeline(pre: QueueModel, post: QueueModel, e: QueueEvent)
    requires
        pre.wf(),
        post.wf(),
        queue_step(pre, post, e),
    ensures
        match e {
            QueueEvent::Pushed(f) => if pre.accepts() {
                post.pipeline() == pre.pipeline().push(f)
            } else {
                post.pipeline() == pre.pipeline()
            },
            QueueEvent::Taken(Some(f)) => pre.pipeline() == seq![f] + post.pipeline(),
            _ => post.pipeline() == pre.pipeline(),
        },
{
    match e {
        QueueEvent::Pushed(f) => {
            if pre.accepts() {
                assert(post.pipeline() =~= pre.pipeline().push(f));
            }
        },
        QueueEvent::Advanced(r) => {
            if pre.input.len() > 0 {
                assert(post.pipeline() =~= pre.pipeline());
            }
        },
        QueueEvent::Batched(rs) => {
            let ts = choose|ts: Seq<u64>|
                ts.len() == rs.len() && post == #[trigger] pre.batch_frames(
                    rs.len() as nat,
                ).timed_all(ts);
            let k = rs.len() as int;
            assert(pre.input.take(k) + pre.input.skip(k) =~= pre.input);
            assert(post.pipeline() =~= pre.pipeline());
        },
        QueueEvent::Taken(r) => {
            match r {
                Some(f) => {
                    assert(pre.output =~= seq![f] + post.output);
                    assert(pre.pipeline() =~= seq![f] + post.pipeline());
                },
                None => {},
            }
        },
    }
}

proof fn lemma_fifo_upto(states: Seq<QueueModel>, events: Seq<QueueEvent>, n: nat)
    requires
        is_run(states, events),
        n <= events.len(),
    ensures
        states[0].pipeline() + admitted_upto(states, events, n) == taken_upto(events, n)
            + states[n as int].pipeline(),
    decreases n,
{
    if n == 0 {
        assert(states[0].pipeline() + Seq::<Frame>::empty() =~= Seq::<Frame>::empty()
            + states[0].pipeline());
    } else {
        let m = (n - 1) as nat;
        lemma_fifo_upto(states, events, m);
        let pre = states[m as int];
        let post = states[n as int];
        let e = events[m as int];
        assert(pre.wf() && post.wf());
        assert(queue_step(pre, post, e));
        lemma_step_pipeline(pre, post, e);
        let p0 = states[0].pipeline();
        let a = admitted_upto(states, events, m);
        let t = taken_upto(events, m);
        match e {
            QueueEvent::Pushed(f) => {
                if pre.accepts() {
                    assert(p0 + a.push(f) =~= (p0 + a).push(f));
                    assert(t + pre.pipeline().push(f) =~= (t + pre.pipeline()).push(f));
                }
            },
            QueueEvent::Taken(r) => {
                match r {
                    Some(f) => {
                        assert(t + pre.pipeline() =~= t.push(f) + post.pipeline());
                    },
                    None => {},
                }
            },
            _ => {},
        }
    }
}

/// End-to-end FIFO: over any run that starts with an empty queue and has no `clear`, the
/// frames handed over by `take_output` are the admitted frames, in the order of admission.
pub proof fn fifo_end_to_end(states: Seq<QueueModel>, events: Seq<QueueEvent>)
    requires
        is_run(states, events),
        states[0].total() == 0,
    ensures
        taken_upto(events, events.len()).len() <= admitted_upto(states, events, events.len()).len(),
        forall|i: int|
            0 <= i < taken_upto(events, events.len()).len() ==> #[trigger] taken_upto(
                events,
                events.len(),
            )[i] == admitted_upto(states, events, events.len())[i],
        admitted_upto(states, events, events.len()) == taken_upto(events, events.len())
            + states.last().pipeline(),
{
    let n = events.len();
    lemma_fifo_upto(states, events, n);
    assert(states[0].pipeline() =~= Seq::<Frame>::empty());
    assert(states[0].pipeline() + admitted_upto(states, events, n) =~= admitted_upto(
        states,
        events,
        n,
    ));
    let t = taken_upto(events, n);
    let a = admitted_upto(states, events, n);
    assert forall|i: int| 0 <= i < t.len() implies #[trigger] t[i] == a[i] by {
        assert(a[i] == (t + states[n as int].pipeline())[i]);
    }
}

/// Round trip: every frame handed over by `take_output` has the bytes, timestamp and
/// keyframe flag of the frame admitted in its place.
pub proof fn round_trip_identical(states: Seq<QueueModel>, events: Seq<QueueEvent>)
    requires
        is_run(states, events),
        states[0].total() == 0,
    ensures
        forall|i: int|
            0 <= i < taken_upto(events, events.len()).len() ==> {
                let out = #[trigger] taken_upto(events, events.len())[i];
                let inp = admitted_upto(states, events, events.len())[i];
                &&& out.data@ == inp.data@
                &&& out.timestamp == inp.timestamp
                &&& out.is_keyframe == inp.is_keyframe
                &&& out.width == inp.width
                &&& out.height == inp.height
            },
{
    fifo_end_to_end(states, events);
}

} // verus!
