//! Resource limit enforcement.
//!
//! Tracks and enforces the memory taken per inference call, the memory
//! taken by all calls together, and the number of concurrent calls.  A
//! successful [`ResourceLimits::try_acquire`] hands out a
//! [`ResourceGuard`]; giving the guard back with
//! [`ResourceLimits::release`] returns what it held.

use vstd::prelude::*;
use crate::engine::error::InferenceError;

verus! {

/// Configuration for resource limits.
#[derive(Debug, Clone, Copy)]
pub struct ResourceLimitsConfig {
    /// Maximum memory per inference call (bytes).
    pub max_memory_per_call: usize,
    /// Maximum total memory across all calls (bytes).
    pub max_total_memory: usize,
    /// Maximum concurrent inference requests.
    pub max_concurrent: usize,
}

impl Default for ResourceLimitsConfig {
    /// 1 GiB per call, 2 GiB in total, 2 concurrent calls.
    fn default() -> (r: Self)
        ensures
            r.max_memory_per_call == 1024 * 1024 * 1024,
            r.max_total_memory == 2 * 1024 * 1024 * 1024,
            r.max_concurrent == 2,
    {
        ResourceLimitsConfig {
            max_memory_per_call: 1024 * 1024 * 1024,
            max_total_memory: 2 * 1024 * 1024 * 1024,
            max_concurrent: 2,
        }
    }
}

/// Resource limit tracker and enforcer.
///
/// The tracker is owned by one caller and changed through `&mut self`;
/// callers that share it between threads put it behind a lock. It is not
/// `Clone`: a copy would keep gauges of its own.
pub struct ResourceLimits {
    config: ResourceLimitsConfig,
    current_memory: usize,
    current_concurrent: usize,
}

/// Resources held by one admitted inference call.
///
/// The guard does not give anything back when it is dropped: the call's
/// memory and concurrency slot stay taken until the guard is handed to
/// [`ResourceLimits::release`], which every admitted call must do once it
/// ends.
#[derive(Debug)]
pub struct ResourceGuard {
    memory_bytes: usize,
}

impl ResourceGuard {
    /// Bytes held by this guard.
    pub closed spec fn spec_memory_bytes(&self) -> usize {
        self.memory_bytes
    }

    /// Bytes held by this guard.
    pub fn memory_bytes(&self) -> (r: usize)
        ensures
            r == self.spec_memory_bytes(),
    {
        self.memory_bytes
    }
}

/// What a [`ResourceLimits`] holds: its configuration and its two gauges.
pub ghost struct LimitsView {
    pub config: ResourceLimitsConfig,
    pub current_memory: nat,
    pub current_concurrent: nat,
}

/// Outcome of an admission request, on the abstract state.
pub open spec fn spec_try_acquire(s: LimitsView, bytes: nat) -> (LimitsView, Result<nat, InferenceError>) {
    if bytes > s.config.max_memory_per_call {
        (s, Err(InferenceError::MemoryExceeded { used: bytes as usize, limit: s.config.max_memory_per_call }))
    } else if s.current_memory + bytes > s.config.max_total_memory {
        (s, Err(InferenceError::MemoryExceeded {
            used: saturate((s.current_memory + bytes) as int),
            limit: s.config.max_total_memory,
        }))
    } else if s.current_concurrent >= s.config.max_concurrent {
        (s, Err(InferenceError::QueueFull {
            current: saturate((s.current_concurrent + 1) as int),
            max: s.config.max_concurrent,
        }))
    } else {
        (LimitsView {
            current_memory: s.current_memory + bytes,
            current_concurrent: s.current_concurrent + 1,
            ..s
        }, Ok(bytes))
    }
}

/// The state after giving back a guard of `bytes`: both gauges drop, and
/// stop at zero.
pub open spec fn spec_release(s: LimitsView, bytes: nat) -> LimitsView {
    LimitsView {
        current_memory: if s.current_memory >= bytes { (s.current_memory - bytes) as nat } else { 0 },
        current_concurrent: if s.current_concurrent >= 1 { (s.current_concurrent - 1) as nat } else { 0 },
        ..s
    }
}

/// `n` clamped to the largest `usize`.
pub open spec fn saturate(n: int) -> usize {
    if n > usize::MAX { usize::MAX } else { n as usize }
}

impl View for ResourceLimits {
    type V = LimitsView;

    closed spec fn view(&self) -> LimitsView {
        LimitsView {
            config: self.config,
            current_memory: self.current_memory as nat,
            current_concurrent: self.current_concurrent as nat,
        }
    }
}

impl ResourceLimits {
    /// The gauges never exceed the configured totals.
    pub open spec fn wf(&self) -> bool {
        &&& self@.current_memory <= self@.config.max_total_memory
        &&& self@.current_concurrent <= self@.config.max_concurrent
    }

    /// Create a tracker with nothing in use.
    pub fn new(config: ResourceLimitsConfig) -> (r: Self)
        ensures
            r.wf(),
            r@ == (LimitsView { config, current_memory: 0, current_concurrent: 0 }),
    {
        ResourceLimits { config, current_memory: 0, current_concurrent: 0 }
    }

    /// Try to admit an inference call that needs `memory_bytes`.
    ///
    /// Refused, with nothing changed, when the call alone exceeds the
    /// per-call cap, when the total would exceed the memory cap, or when
    /// all concurrency slots are taken (checked in that order).
    pub fn try_acquire(&mut self, memory_bytes: usize) -> (r: Result<ResourceGuard, InferenceError>)
        requires
            old(self).wf(),
        ensures
            final(self).wf(),
            (final(self)@, match r { Ok(g) => Ok(g.spec_memory_bytes() as nat), Err(e) => Err(e) })
                == spec_try_acquire(old(self)@, memory_bytes as nat),
    {
        if memory_bytes > self.config.max_memory_per_call {
            return Err(InferenceError::MemoryExceeded {
                used: memory_bytes,
                limit: self.config.max_memory_per_call,
            });
        }
        let total = self.current_memory.checked_add(memory_bytes);
        match total {
            None => {
                return Err(InferenceError::MemoryExceeded {
                    used: usize::MAX,
                    limit: self.config.max_total_memory,
                });
            },
            Some(t) => {
                if t > self.config.max_total_memory {
                    return Err(InferenceError::MemoryExceeded {
                        used: t,
                        limit: self.config.max_total_memory,
                    });
                }
            },
        }
        if self.current_concurrent >= self.config.max_concurrent {
            return Err(InferenceError::QueueFull {
                current: self.current_concurrent.saturating_add(1),
                max: self.config.max_concurrent,
            });
        }
        self.current_memory = self.current_memory + memory_bytes;
        self.current_concurrent = self.current_concurrent + 1;
        Ok(ResourceGuard { memory_bytes })
    }

    /// Give back the resources held by `guard`: its bytes and one
    /// concurrency slot. This is the only way a guard's resources return;
    /// dropping a guard returns nothing.
    pub fn release(&mut self, guard: ResourceGuard)
        requires
            old(self).wf(),
        ensures
            final(self).wf(),
            final(self)@ == spec_release(old(self)@, guard.spec_memory_bytes() as nat),
    {
        self.current_memory = self.current_memory.saturating_sub(guard.memory_bytes);
        self.current_concurrent = self.current_concurrent.saturating_sub(1);
    }

    /// Current memory usage in bytes.
    pub fn current_memory(&self) -> (r: usize)
        ensures
            r == self@.current_memory,
    {
        self.current_memory
    }

    /// Current number of concurrent requests.
    pub fn current_concurrent(&self) -> (r: usize)
        ensures
            r == self@.current_concurrent,
    {
        self.current_concurrent
    }

    /// Maximum memory allowed per inference call (bytes).
    pub fn max_memory_per_call(&self) -> (r: usize)
        ensures
            r == self@.config.max_memory_per_call,
    {
        self.config.max_memory_per_call
    }
}

/// Releasing the guard of an admitted call restores the tracker exactly as
/// it was before the call was admitted.
pub proof fn lemma_release_undoes_acquire(s: LimitsView, bytes: nat)
    requires
        spec_try_acquire(s, bytes).1 is Ok,
    ensures
        spec_try_acquire(s, bytes).1 == Ok::<nat, InferenceError>(bytes),
        spec_release(spec_try_acquire(s, bytes).0, bytes) == s,
{
}

/// A refused admission changes nothing.
pub proof fn lemma_refusal_changes_nothing(s: LimitsView, bytes: nat)
    requires
        spec_try_acquire(s, bytes).1 is Err,
    ensures
        spec_try_acquire(s, bytes).0 == s,
{
}

/// Admission never lets the gauges pass the configured caps.
pub proof fn lemma_admission_respects_caps(s: LimitsView, bytes: nat)
    requires
        s.current_memory <= s.config.max_total_memory,
        s.current_concurrent <= s.config.max_concurrent,
    ensures
        spec_try_acquire(s, bytes).0.current_memory <= s.config.max_total_memory,
        spec_try_acquire(s, bytes).0.current_concurrent <= s.config.max_concurrent,
        spec_try_acquire(s, bytes).1 is Ok ==> bytes <= s.config.max_memory_per_call,
{
}

} // verus!
