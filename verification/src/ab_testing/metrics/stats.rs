//! Per-variant statistics counters.
//!
//! Each counter wraps around on overflow, as the atomic counters of a
//! shared collector do.

use vstd::prelude::*;

verus! {

/// Statistics for a single variant.
#[derive(Debug, Default, Clone, Copy)]
pub struct VariantStats {
    /// Total requests.
    pub requests: u64,
    /// Successful completions.
    pub successes: u64,
    /// Failed requests.
    pub failures: u64,
    /// Total latency in microseconds (for averaging).
    pub total_latency_us: u64,
    /// Total tokens generated.
    pub total_tokens: u64,
}

/// `a + b` modulo 2^64.
pub open spec fn wrap_add(a: u64, b: u64) -> u64 {
    ((a + b) % 0x1_0000_0000_0000_0000) as u64
}

/// Counters of a variant that has seen nothing yet.
pub open spec fn fresh_stats() -> VariantStats {
    VariantStats { requests: 0, successes: 0, failures: 0, total_latency_us: 0, total_tokens: 0 }
}

/// The counters after one more request.
pub open spec fn after_request(s: VariantStats) -> VariantStats {
    VariantStats { requests: wrap_add(s.requests, 1), ..s }
}

/// The counters after one more success of `latency_us` microseconds that
/// generated `tokens` tokens.
pub open spec fn after_success(s: VariantStats, latency_us: u64, tokens: u64) -> VariantStats {
    VariantStats {
        successes: wrap_add(s.successes, 1),
        total_latency_us: wrap_add(s.total_latency_us, latency_us),
        total_tokens: wrap_add(s.total_tokens, tokens),
        ..s
    }
}

/// The counters after one more failure.
pub open spec fn after_failure(s: VariantStats) -> VariantStats {
    VariantStats { failures: wrap_add(s.failures, 1), ..s }
}

impl VariantStats {
    /// Create new stats with every counter at zero.
    pub fn new() -> (r: Self)
        ensures
            r == fresh_stats(),
            r.requests == 0,
            r.successes == 0,
            r.failures == 0,
            r.total_latency_us == 0,
            r.total_tokens == 0,
    {
        VariantStats { requests: 0, successes: 0, failures: 0, total_latency_us: 0, total_tokens: 0 }
    }

    /// Record a request start.
    pub fn record_request(&mut self)
        ensures
            *final(self) == after_request(*old(self)),
            final(self).requests == wrap_add(old(self).requests, 1),
            final(self).successes == old(self).successes,
            final(self).failures == old(self).failures,
            final(self).total_latency_us == old(self).total_latency_us,
            final(self).total_tokens == old(self).total_tokens,
    {
        self.requests = self.requests.wrapping_add(1);
    }

    /// Record a successful completion that took `latency_us` microseconds
    /// and generated `tokens` tokens.
    pub fn record_success(&mut self, latency_us: u64, tokens: u64)
        ensures
            final(self).requests == old(self).requests,
            *final(self) == after_success(*old(self), latency_us, tokens),
            final(self).successes == wrap_add(old(self).successes, 1),
            final(self).failures == old(self).failures,
            final(self).total_latency_us == wrap_add(old(self).total_latency_us, latency_us),
            final(self).total_tokens == wrap_add(old(self).total_tokens, tokens),
    {
        self.successes = self.successes.wrapping_add(1);
        self.total_latency_us = self.total_latency_us.wrapping_add(latency_us);
        self.total_tokens = self.total_tokens.wrapping_add(tokens);
    }

    /// Record a failure.
    pub fn record_failure(&mut self)
        ensures
            final(self).requests == old(self).requests,
            final(self).successes == old(self).successes,
            *final(self) == after_failure(*old(self)),
            final(self).failures == wrap_add(old(self).failures, 1),
            final(self).total_latency_us == old(self).total_latency_us,
            final(self).total_tokens == old(self).total_tokens,
    {
        self.failures = self.failures.wrapping_add(1);
    }

    /// Whole milliseconds of latency per success (the microsecond total
    /// divided by the successes, then by 1000); 0 before any success.
    pub fn avg_latency_ms_whole(&self) -> (r: u64)
        ensures
            r == (if self.successes > 0 {
                self.total_latency_us / self.successes / 1000
            } else {
                0
            }),
    {
        if self.successes > 0 {
            self.total_latency_us / self.successes / 1000
        } else {
            0
        }
    }

    /// Whole tokens per success; 0 before any success.
    pub fn avg_tokens_whole(&self) -> (r: u64)
        ensures
            r == (if self.successes > 0 { self.total_tokens / self.successes } else { 0 }),
    {
        if self.successes > 0 {
            self.total_tokens / self.successes
        } else {
            0
        }
    }
}

} // verus!
