//! Alert levels of a canary analysis and the decision they lead to.

use vstd::prelude::*;

verus! {

/// Alert severity levels.
#[derive(Debug, Clone, Copy, PartialEq, Eq, Structural)]
pub enum AlertLevel {
    /// No alert (the level named `None` in the analysis reports).
    NoAlert,
    Warning,
    Critical,
    AutoRollback,
}

impl AlertLevel {
    /// Severity rank: NoAlert < Warning < Critical < AutoRollback.
    pub open spec fn rank(&self) -> nat {
        match self {
            AlertLevel::NoAlert => 0,
            AlertLevel::Warning => 1,
            AlertLevel::Critical => 2,
            AlertLevel::AutoRollback => 3,
        }
    }

    /// Check if this level requires immediate action.
    pub fn requires_action(&self) -> (r: bool)
        ensures
            r <==> (*self == AlertLevel::Critical || *self == AlertLevel::AutoRollback),
    {
        match self {
            AlertLevel::Critical => true,
            AlertLevel::AutoRollback => true,
            _ => false,
        }
    }

    /// Check if this level triggers automatic rollback.
    pub fn triggers_rollback(&self) -> (r: bool)
        ensures
            r <==> *self == AlertLevel::AutoRollback,
    {
        match self {
            AlertLevel::AutoRollback => true,
            _ => false,
        }
    }

    fn rank_of(&self) -> (r: u8)
        ensures
            r == self.rank(),
    {
        match self {
            AlertLevel::NoAlert => 0,
            AlertLevel::Warning => 1,
            AlertLevel::Critical => 2,
            AlertLevel::AutoRollback => 3,
        }
    }
}

/// The most severe of the levels; `NoAlert` when there are none.
pub fn max_level(levels: &[AlertLevel]) -> (r: AlertLevel)
    ensures
        forall|i: int| 0 <= i < levels@.len() ==> (#[trigger] levels@[i]).rank() <= r.rank(),
        levels@.len() == 0 ==> r == AlertLevel::NoAlert,
        levels@.len() > 0 ==> exists|i: int| 0 <= i < levels@.len() && #[trigger] levels@[i] == r,
{
    if levels.len() == 0 {
        return AlertLevel::NoAlert;
    }
    let mut best = levels[0];
    let mut i: usize = 1;
    while i < levels.len()
        invariant
            1 <= i <= levels@.len(),
            forall|j: int| 0 <= j < i ==> (#[trigger] levels@[j]).rank() <= best.rank(),
            exists|j: int| 0 <= j < i && #[trigger] levels@[j] == best,
        decreases levels@.len() - i,
    {
        if levels[i].rank_of() >= best.rank_of() {
            best = levels[i];
        }
        i = i + 1;
    }
    best
}

/// Result of threshold analysis.
#[derive(Debug)]
pub struct ThresholdResult {
    pub alert_level: AlertLevel,
    pub error_rate_level: AlertLevel,
    pub latency_level: AlertLevel,
    pub throughput_level: AlertLevel,
    pub reason: String,
}

impl Clone for ThresholdResult {
    fn clone(&self) -> (r: Self)
        ensures
            r == *self,
    {
        ThresholdResult {
            alert_level: self.alert_level,
            error_rate_level: self.error_rate_level,
            latency_level: self.latency_level,
            throughput_level: self.throughput_level,
            reason: self.reason.clone(),
        }
    }
}

impl ThresholdResult {
    /// Promote when no metric raises an alert.
    pub fn should_promote(&self) -> (r: bool)
        ensures
            r <==> self.alert_level == AlertLevel::NoAlert,
    {
        self.alert_level == AlertLevel::NoAlert
    }

    /// Roll back when the alert calls for it.
    pub fn should_rollback(&self) -> (r: bool)
        ensures
            r <==> self.alert_level == AlertLevel::AutoRollback,
    {
        self.alert_level.triggers_rollback()
    }

    /// Keep observing otherwise.
    pub fn should_continue(&self) -> (r: bool)
        ensures
            r <==> (self.alert_level == AlertLevel::Warning || self.alert_level
                == AlertLevel::Critical),
    {
        !self.should_promote() && !self.should_rollback()
    }
}

/// Every analysis result calls for exactly one of promote, roll back and
/// continue.
pub proof fn lemma_exactly_one_outcome(level: AlertLevel)
    ensures
        (level == AlertLevel::NoAlert) as int + (level == AlertLevel::AutoRollback) as int + (level
            == AlertLevel::Warning || level == AlertLevel::Critical) as int == 1,
{
}

} // verus!
