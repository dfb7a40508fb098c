//! Sample collection for canary deployments: a rolling window of request
//! latencies with success and error counts.
//!
//! Latencies are kept in whole microseconds; the statistics computed from
//! them (percentiles, rates) are the caller's.

use vstd::prelude::*;
use std::collections::VecDeque;
use std::time::Instant;
use crate::time::instant_now;

verus! {

/// The window after adding `latency` to `window` with room for `cap`
/// samples: the oldest sample leaves when the window is full.
pub open spec fn window_after_push(window: Seq<u64>, cap: nat, latency: u64) -> Seq<u64> {
    let kept = if window.len() >= cap && window.len() > 0 {
        window.subrange(1, window.len() as int)
    } else {
        window
    };
    kept.push(latency)
}

/// Collector for deployment metrics with rolling windows.
#[derive(Debug)]
pub struct MetricsCollector {
    latencies: VecDeque<u64>,
    success_count: u64,
    error_count: u64,
    window_start: Instant,
    max_samples: usize,
}

impl MetricsCollector {
    /// The latencies in the window, oldest first.
    pub closed spec fn samples(&self) -> Seq<u64> {
        self.latencies@
    }

    /// Successful requests recorded since the window started.
    pub closed spec fn successes(&self) -> u64 {
        self.success_count
    }

    /// Failed requests recorded since the window started.
    pub closed spec fn errors(&self) -> u64 {
        self.error_count
    }

    /// When the current window started.
    pub closed spec fn spec_window_start(&self) -> Instant {
        self.window_start
    }

    /// The size of the window.
    pub closed spec fn capacity(&self) -> usize {
        self.max_samples
    }

    /// The window never holds more than its size (or one sample, for a
    /// window of size zero).
    pub open spec fn wf(&self) -> bool {
        self.samples().len() <= self.capacity() || self.samples().len() <= 1
    }

    /// Create a new metrics collector with specified window size.
    pub fn new(max_samples: usize) -> (r: Self)
        ensures
            r.samples() == Seq::<u64>::empty(),
            r.successes() == 0,
            r.errors() == 0,
            r.capacity() == max_samples,
            r.wf(),
    {
        MetricsCollector {
            latencies: VecDeque::with_capacity(max_samples),
            success_count: 0,
            error_count: 0,
            window_start: instant_now(),
            max_samples,
        }
    }

    fn push_latency(&mut self, latency_us: u64)
        requires
            old(self).wf(),
        ensures
            final(self).samples() == window_after_push(old(self).samples(), old(self).capacity() as nat, latency_us),
            final(self).successes() == old(self).successes(),
            final(self).errors() == old(self).errors(),
            final(self).capacity() == old(self).capacity(),
            final(self).wf(),
    {
        if self.latencies.len() >= self.max_samples {
            let _ = self.latencies.pop_front();
        }
        self.latencies.push_back(latency_us);
    }

    /// Record a successful request with its latency in microseconds.
    pub fn record_success(&mut self, latency_us: u64)
        requires
            old(self).wf(),
            old(self).successes() < u64::MAX,
        ensures
            final(self).successes() == old(self).successes() + 1,
            final(self).errors() == old(self).errors(),
            final(self).samples() == window_after_push(old(self).samples(), old(self).capacity() as nat, latency_us),
            final(self).capacity() == old(self).capacity(),
            final(self).wf(),
    {
        self.success_count = self.success_count + 1;
        self.push_latency(latency_us);
    }

    /// Record a failed request with its latency in microseconds.
    pub fn record_error(&mut self, latency_us: u64)
        requires
            old(self).wf(),
            old(self).errors() < u64::MAX,
        ensures
            final(self).errors() == old(self).errors() + 1,
            final(self).successes() == old(self).successes(),
            final(self).samples() == window_after_push(old(self).samples(), old(self).capacity() as nat, latency_us),
            final(self).capacity() == old(self).capacity(),
            final(self).wf(),
    {
        self.error_count = self.error_count + 1;
        self.push_latency(latency_us);
    }

    /// Get current sample count.
    pub fn sample_count(&self) -> (r: usize)
        ensures
            r == self.samples().len(),
    {
        self.latencies.len()
    }

    /// Successful requests recorded since the window started.
    pub fn success_count(&self) -> (r: u64)
        ensures
            r == self.successes(),
    {
        self.success_count
    }

    /// Failed requests recorded since the window started.
    pub fn error_count(&self) -> (r: u64)
        ensures
            r == self.errors(),
    {
        self.error_count
    }

    /// The latencies in the window, oldest first.
    pub fn latencies(&self) -> (r: &VecDeque<u64>)
        ensures
            r@ == self.samples(),
    {
        &self.latencies
    }

    /// When the current window started.
    pub fn window_start(&self) -> (r: Instant)
        ensures
            r == self.spec_window_start(),
    {
        self.window_start
    }

    /// Reset the collector for a new window.
    pub fn reset(&mut self)
        ensures
            final(self).samples() == Seq::<u64>::empty(),
            final(self).successes() == 0,
            final(self).errors() == 0,
            final(self).capacity() == old(self).capacity(),
            final(self).wf(),
    {
        self.latencies.clear();
        self.success_count = 0;
        self.error_count = 0;
        self.window_start = instant_now();
    }
}

/// The window keeps the most recent samples: after a push, the newest
/// sample is last and the rest are the latest of the earlier window.
pub proof fn lemma_window_keeps_latest(window: Seq<u64>, cap: nat, latency: u64)
    requires
        window.len() <= cap || window.len() <= 1,
    ensures
        window_after_push(window, cap, latency).last() == latency,
        window_after_push(window, cap, latency).len() <= cap || window_after_push(window, cap, latency).len() <= 1,
        window_after_push(window, cap, latency).drop_last() =~= window.subrange(
            window.len() - window_after_push(window, cap, latency).drop_last().len(),
            window.len() as int,
        ),
{
    let w = window_after_push(window, cap, latency);
    assert(w.drop_last() =~= (if window.len() >= cap && window.len() > 0 {
        window.subrange(1, window.len() as int)
    } else {
        window
    }));
}

} // verus!
