use vstd::prelude::*;

use crate::utils::window::{push_window, sum_of, total_of, windowed};

verus! {

/// Number of samples each rolling window of `Metrics` keeps.
pub const METRICS_WINDOW: usize = 60;

/// Frames per second for the given frame times (microseconds), rounded down:
/// zero with no samples, `u64::MAX` when the samples add up to no time at all.
pub open spec fn fps_of(frame_times: Seq<u64>) -> nat {
    if frame_times.len() == 0 {
        0
    } else if sum_of(frame_times) == 0 {
        u64::MAX as nat
    } else {
        1000000 * frame_times.len() / sum_of(frame_times)
    }
}

/// Rolling windows of frame times, queue sizes and processing times.
pub struct Metrics {
    frame_times: Vec<u64>,
    queue_sizes: Vec<usize>,
    processing_times: Vec<u64>,
    window_size: usize,
}

/// What a `Metrics` holds, oldest sample first.
pub struct MetricsView {
    pub frame_times: Seq<u64>,
    pub queue_sizes: Seq<usize>,
    pub processing_times: Seq<u64>,
    pub window_size: nat,
}

impl View for Metrics {
    type V = MetricsView;

    closed spec fn view(&self) -> MetricsView {
        MetricsView {
            frame_times: self.frame_times@,
            queue_sizes: self.queue_sizes@,
            processing_times: self.processing_times@,
            window_size: self.window_size as nat,
        }
    }
}

impl Metrics {
    /// Each window within its size, and the size the one all windows share.
    pub open spec fn wf(&self) -> bool {
        &&& self@.window_size == METRICS_WINDOW
        &&& self@.frame_times.len() <= self@.window_size
        &&& self@.queue_sizes.len() <= self@.window_size
        &&& self@.processing_times.len() <= self@.window_size
    }

    /// Empty windows of `METRICS_WINDOW` samples.
    pub fn new() -> (r: Metrics)
        ensures
            r.wf(),
            r@.frame_times.len() == 0,
            r@.queue_sizes.len() == 0,
            r@.processing_times.len() == 0,
    {
        Metrics {
            frame_times: Vec::new(),
            queue_sizes: Vec::new(),
            processing_times: Vec::new(),
            window_size: METRICS_WINDOW,
        }
    }

    /// Records the time one frame took, in microseconds.
    pub fn record_frame_time(&mut self, time: u64)
        requires
            old(self).wf(),
        ensures
            final(self).wf(),
            final(self)@ == (MetricsView {
                frame_times: windowed(old(self)@.frame_times, time, METRICS_WINDOW as nat),
                ..old(self)@
            }),
    {
        push_window(&mut self.frame_times, time, self.window_size);
    }

    /// Records a queue occupancy.
    pub fn record_queue_size(&mut self, size: usize)
        requires
            old(self).wf(),
        ensures
            final(self).wf(),
            final(self)@ == (MetricsView {
                queue_sizes: windowed(old(self)@.queue_sizes, size, METRICS_WINDOW as nat),
                ..old(self)@
            }),
    {
        push_window(&mut self.queue_sizes, size, self.window_size);
    }

    /// Records the time one processing step took, in microseconds.
    pub fn record_processing_time(&mut self, time: u64)
        requires
            old(self).wf(),
        ensures
            final(self).wf(),
            final(self)@ == (MetricsView {
                processing_times: windowed(
                    old(self)@.processing_times,
                    time,
                    METRICS_WINDOW as nat,
                ),
                ..old(self)@
            }),
    {
        push_window(&mut self.processing_times, time, self.window_size);
    }

    /// Frames per second over the recorded frame times, see `fps_of`.
    pub fn get_average_fps(&self) -> (r: u64)
        requires
            self.wf(),
        ensures
            r == fps_of(self@.frame_times),
    {
        let n: usize = self.frame_times.len();
        if n == 0 {
            return 0;
        }
        let sum: u128 = total_of(&self.frame_times);
        if sum == 0 {
            return u64::MAX;
        }
        proof {
            assert((1000000 * (n as int)) / (sum as int) <= 1000000 * (n as int)) by (nonlinear_arith)
                requires
                    sum >= 1,
                    n >= 1,
            ;
        }
        (1000000 * n as u128 / sum) as u64
    }
}

} // verus!
