//! Canary deployment controller: phases, decisions and the state machine
//! that steps the canary's traffic weight.
//!
//! The statistical comparison of the canary against the stable version is
//! made by the caller, which hands the controller its [`ThresholdResult`]
//! and whether the deployment has run out of time; the controller decides.

use vstd::prelude::*;
use std::time::{Duration, Instant};
use crate::deployment::metrics::{MetricsCollector, window_after_push};
use crate::deployment::thresholds::{AlertLevel, ThresholdResult};
use crate::time::{duration_from_secs, duration_of_secs, instant_elapsed, instant_now};

verus! {

/// Canary deployment phases.
#[derive(Debug, Clone, Copy, PartialEq, Eq, Structural)]
pub enum CanaryPhase {
    Initializing,
    Progressing { weight: u8 },
    Analyzing,
    Promoting,
    RollingBack,
    Complete,
    Failed,
}

impl CanaryPhase {
    /// Whether the deployment is over.
    pub open spec fn spec_is_terminal(&self) -> bool {
        self is Complete || self is Failed
    }

    /// The deployment is over once complete or failed.
    pub fn is_terminal(&self) -> (r: bool)
        ensures
            r == self.spec_is_terminal(),
    {
        match self {
            CanaryPhase::Complete => true,
            CanaryPhase::Failed => true,
            _ => false,
        }
    }

    /// The canary receives traffic while progressing or being analysed.
    pub fn allows_traffic(&self) -> (r: bool)
        ensures
            r <==> (self is Progressing || self is Analyzing),
    {
        match self {
            CanaryPhase::Progressing { .. } => true,
            CanaryPhase::Analyzing => true,
            _ => false,
        }
    }
}

/// Decision from canary analysis.
#[derive(Debug, Clone)]
pub enum CanaryDecision {
    InsufficientData,
    Continue,
    AdvanceWeight(u8),
    Promote,
    Rollback(String),
    Complete,
    Timeout,
}

impl CanaryDecision {
    /// Whether the decision ends the analysis.
    pub open spec fn spec_is_terminal(&self) -> bool {
        self is Promote || self is Rollback || self is Complete || self is Timeout
    }

    /// Promote, roll back, complete and time out end the analysis.
    pub fn is_terminal(&self) -> (r: bool)
        ensures
            r == self.spec_is_terminal(),
    {
        match self {
            CanaryDecision::Promote => true,
            CanaryDecision::Rollback(_) => true,
            CanaryDecision::Complete => true,
            CanaryDecision::Timeout => true,
            _ => false,
        }
    }
}

/// Canary deployment state.
#[derive(Debug, Clone)]
pub struct CanaryState {
    pub phase: CanaryPhase,
    pub traffic_weight: u8,
    pub analysis_cycles: u32,
    pub last_result: Option<ThresholdResult>,
    pub started_at: Instant,
    pub phase_changed_at: Instant,
}

impl Default for CanaryState {
    /// A deployment that is initializing, with no traffic yet.
    fn default() -> (r: Self)
        ensures
            r.phase == CanaryPhase::Initializing,
            r.traffic_weight == 0,
            r.analysis_cycles == 0,
            r.last_result is None,
    {
        CanaryState {
            phase: CanaryPhase::Initializing,
            traffic_weight: 0,
            analysis_cycles: 0,
            last_result: None,
            started_at: instant_now(),
            phase_changed_at: instant_now(),
        }
    }
}

impl CanaryState {
    /// Time since the phase last changed (read from the clock).
    pub fn time_in_phase(&self) -> Duration {
        instant_elapsed(&self.phase_changed_at)
    }

    /// Time since the deployment started (read from the clock).
    pub fn total_duration(&self) -> Duration {
        instant_elapsed(&self.started_at)
    }
}

/// Configuration for the canary controller. The float thresholds of the
/// analysis are applied by the caller; the controller needs the sample
/// size they ask for.
#[derive(Debug, Clone)]
pub struct CanaryConfig {
    /// Traffic weights the canary steps through, in order.
    pub weight_steps: Vec<u8>,
    pub step_duration: Duration,
    pub max_duration: Duration,
    pub max_cycles: u32,
    /// Minimum sample size, on both sides, before an analysis counts.
    pub min_sample_size: usize,
}

impl Default for CanaryConfig {
    /// Steps of 5, 10, 25, 50 and 100 percent, five minutes a step, one
    /// hour at most, 12 analysis cycles, 1000 samples per side.
    fn default() -> (r: Self)
        ensures
            r.weight_steps@ == seq![5u8, 10u8, 25u8, 50u8, 100u8],
            r.step_duration == duration_of_secs(300),
            r.max_duration == duration_of_secs(3600),
            r.max_cycles == 12,
            r.min_sample_size == 1000,
    {
        CanaryConfig {
            weight_steps: vec![5, 10, 25, 50, 100],
            step_duration: duration_from_secs(300),
            max_duration: duration_from_secs(3600),
            max_cycles: 12,
            min_sample_size: 1000,
        }
    }
}

/// Number of samples each side's window holds.
pub const CANARY_WINDOW: usize = 10000;

/// Canary deployment controller.
#[derive(Debug)]
pub struct CanaryController {
    config: CanaryConfig,
    state: CanaryState,
    canary_metrics: MetricsCollector,
    stable_metrics: MetricsCollector,
    current_step: usize,
}

impl CanaryController {
    /// The configuration.
    pub closed spec fn spec_config(&self) -> CanaryConfig {
        self.config
    }

    /// The phase.
    pub closed spec fn spec_phase(&self) -> CanaryPhase {
        self.state.phase
    }

    /// The canary's share of traffic.
    pub closed spec fn spec_weight(&self) -> u8 {
        self.state.traffic_weight
    }

    /// Analyses performed.
    pub closed spec fn spec_cycles(&self) -> u32 {
        self.state.analysis_cycles
    }

    /// Index of the next weight step.
    pub closed spec fn spec_step(&self) -> usize {
        self.current_step
    }

    /// The canary's window.
    pub closed spec fn spec_canary(&self) -> MetricsCollector {
        self.canary_metrics
    }

    /// The stable version's window.
    pub closed spec fn spec_stable(&self) -> MetricsCollector {
        self.stable_metrics
    }

    /// Samples in the canary's window.
    pub open spec fn canary_samples(&self) -> nat {
        self.spec_canary().samples().len()
    }

    /// Samples in the stable version's window.
    pub open spec fn stable_samples(&self) -> nat {
        self.spec_stable().samples().len()
    }

    /// The result of the last counted analysis.
    pub closed spec fn spec_last_result(&self) -> Option<ThresholdResult> {
        self.state.last_result
    }

    /// The controller's invariant: the next step within bounds, and
    /// well-formed windows.
    pub closed spec fn wf(&self) -> bool {
        &&& self.current_step <= self.config.weight_steps@.len()
        &&& self.canary_metrics.wf()
        &&& self.stable_metrics.wf()
    }

    /// A controller for a configuration, not yet started.
    pub fn new(config: CanaryConfig) -> (r: Self)
        ensures
            r.wf(),
            r.spec_config() == config,
            r.spec_phase() == CanaryPhase::Initializing,
            r.spec_weight() == 0,
            r.spec_cycles() == 0,
            r.spec_step() == 0,
            r.canary_samples() == 0,
            r.stable_samples() == 0,
            r.spec_last_result() is None,
    {
        CanaryController {
            config,
            state: CanaryState::default(),
            canary_metrics: MetricsCollector::new(CANARY_WINDOW),
            stable_metrics: MetricsCollector::new(CANARY_WINDOW),
            current_step: 0,
        }
    }

    /// The state of the deployment.
    pub fn state(&self) -> (r: &CanaryState)
        ensures
            r.phase == self.spec_phase(),
            r.traffic_weight == self.spec_weight(),
            r.analysis_cycles == self.spec_cycles(),
            r.last_result == self.spec_last_result(),
    {
        &self.state
    }

    /// The configuration.
    pub fn config(&self) -> (r: &CanaryConfig)
        ensures
            *r == self.spec_config(),
    {
        &self.config
    }

    /// Whether an analysis now would be counted: the deployment is not
    /// finished, has not run out of time, and both windows hold enough
    /// samples.
    pub fn analysis_counts(&self, timed_out: bool) -> (r: bool)
        ensures
            r == (!self.spec_phase().spec_is_terminal() && !timed_out
                && self.spec_has_sufficient_samples()),
    {
        !self.state.phase.is_terminal() && !timed_out && self.has_sufficient_samples()
    }

    /// The canary's share of traffic.
    pub fn traffic_weight(&self) -> (r: u8)
        ensures
            r == self.spec_weight(),
    {
        self.state.traffic_weight
    }

    /// The canary's samples.
    pub fn canary_metrics(&self) -> (r: &MetricsCollector)
        ensures
            *r == self.spec_canary(),
    {
        &self.canary_metrics
    }

    /// The stable version's samples.
    pub fn stable_metrics(&self) -> (r: &MetricsCollector)
        ensures
            *r == self.spec_stable(),
    {
        &self.stable_metrics
    }

    /// Record a request served by the canary.
    pub fn record_canary(&mut self, latency_us: u64, success: bool)
        requires
            old(self).wf(),
            success ==> old(self).spec_canary().successes() < u64::MAX,
            !success ==> old(self).spec_canary().errors() < u64::MAX,
        ensures
            final(self).wf(),
            final(self).spec_phase() == old(self).spec_phase(),
            final(self).spec_weight() == old(self).spec_weight(),
            final(self).spec_step() == old(self).spec_step(),
            final(self).spec_cycles() == old(self).spec_cycles(),
            final(self).spec_config() == old(self).spec_config(),
            final(self).spec_stable() == old(self).spec_stable(),
            final(self).spec_canary().samples() == window_after_push(
                old(self).spec_canary().samples(),
                old(self).spec_canary().capacity() as nat,
                latency_us,
            ),
            final(self).spec_canary().capacity() == old(self).spec_canary().capacity(),
            final(self).spec_canary().successes() == old(self).spec_canary().successes() + (if success { 1int } else { 0int }),
            final(self).spec_canary().errors() == old(self).spec_canary().errors() + (if success { 0int } else { 1int }),
    {
        if success {
            self.canary_metrics.record_success(latency_us);
        } else {
            self.canary_metrics.record_error(latency_us);
        }
    }

    /// Record a request served by the stable version.
    pub fn record_stable(&mut self, latency_us: u64, success: bool)
        requires
            old(self).wf(),
            success ==> old(self).spec_stable().successes() < u64::MAX,
            !success ==> old(self).spec_stable().errors() < u64::MAX,
        ensures
            final(self).wf(),
            final(self).spec_phase() == old(self).spec_phase(),
            final(self).spec_weight() == old(self).spec_weight(),
            final(self).spec_step() == old(self).spec_step(),
            final(self).spec_cycles() == old(self).spec_cycles(),
            final(self).spec_config() == old(self).spec_config(),
            final(self).spec_canary() == old(self).spec_canary(),
            final(self).spec_stable().samples() == window_after_push(
                old(self).spec_stable().samples(),
                old(self).spec_stable().capacity() as nat,
                latency_us,
            ),
            final(self).spec_stable().capacity() == old(self).spec_stable().capacity(),
            final(self).spec_stable().successes() == old(self).spec_stable().successes() + (if success { 1int } else { 0int }),
            final(self).spec_stable().errors() == old(self).spec_stable().errors() + (if success { 0int } else { 1int }),
    {
        if success {
            self.stable_metrics.record_success(latency_us);
        } else {
            self.stable_metrics.record_error(latency_us);
        }
    }

    fn transition_to(&mut self, phase: CanaryPhase)
        ensures
            final(self).state.phase == phase,
            final(self).state.traffic_weight == old(self).state.traffic_weight,
            final(self).state.analysis_cycles == old(self).state.analysis_cycles,
            final(self).state.last_result == old(self).state.last_result,
            final(self).config == old(self).config,
            final(self).current_step == old(self).current_step,
            final(self).canary_metrics == old(self).canary_metrics,
            final(self).stable_metrics == old(self).stable_metrics,
    {
        self.state.phase = phase;
        self.state.phase_changed_at = instant_now();
    }

    fn can_advance_weight(&self) -> (r: bool)
        requires
            self.wf(),
            self.config.weight_steps@.len() > 0,
        ensures
            r <==> self.current_step + 1 < self.config.weight_steps@.len(),
    {
        self.current_step < self.config.weight_steps.len() - 1
    }

    fn advance_weight(&mut self)
        requires
            old(self).wf(),
        ensures
            final(self).wf(),
            final(self).state.phase == old(self).state.phase,
            final(self).state.analysis_cycles == old(self).state.analysis_cycles,
            final(self).state.last_result == old(self).state.last_result,
            final(self).config == old(self).config,
            old(self).current_step < old(self).config.weight_steps@.len() ==> {
                &&& final(self).state.traffic_weight == old(self).config.weight_steps@[old(
                    self,
                ).current_step as int]
                &&& final(self).current_step == old(self).current_step + 1
                &&& final(self).canary_metrics.samples().len() == 0
                &&& final(self).stable_metrics.samples().len() == 0
            },
            old(self).current_step >= old(self).config.weight_steps@.len() ==> {
                &&& final(self).state.traffic_weight == old(self).state.traffic_weight
                &&& final(self).current_step == old(self).current_step
                &&& final(self).canary_metrics == old(self).canary_metrics
                &&& final(self).stable_metrics == old(self).stable_metrics
            },
    {
        if self.current_step < self.config.weight_steps.len() {
            self.state.traffic_weight = self.config.weight_steps[self.current_step];
            self.current_step = self.current_step + 1;
            self.canary_metrics.reset();
            self.stable_metrics.reset();
        }
    }

    /// Start the deployment: progress to the first weight step.
    pub fn start(&mut self)
        requires
            old(self).wf(),
        ensures
            final(self).wf(),
            final(self).spec_phase() == (CanaryPhase::Progressing { weight: 0 }),
            old(self).spec_step() < old(self).spec_config().weight_steps@.len() ==> {
                &&& final(self).spec_weight() == old(self).spec_config().weight_steps@[old(
                    self,
                ).spec_step() as int]
                &&& final(self).spec_step() == old(self).spec_step() + 1
            },
            final(self).spec_config() == old(self).spec_config(),
            final(self).spec_cycles() == old(self).spec_cycles(),
    {
        self.transition_to(CanaryPhase::Progressing { weight: 0 });
        self.advance_weight();
    }

    /// Whether both windows hold enough samples for an analysis.
    pub open spec fn spec_has_sufficient_samples(&self) -> bool {
        self.canary_samples() >= self.spec_config().min_sample_size && self.stable_samples()
            >= self.spec_config().min_sample_size
    }

    fn has_sufficient_samples(&self) -> (r: bool)
        ensures
            r == self.spec_has_sufficient_samples(),
    {
        let min = self.config.min_sample_size;
        self.canary_metrics.sample_count() >= min && self.stable_metrics.sample_count() >= min
    }

    /// One analysis of the deployment. `timed_out` tells whether the
    /// deployment has run longer than its maximum duration; `result` is
    /// the threshold analysis of the current windows, which counts only
    /// when both windows hold enough samples.
    ///
    /// A finished deployment stays as it is (`Complete`); one that ran out
    /// of time fails (`Timeout`); without enough samples nothing changes
    /// (`InsufficientData`); otherwise the cycle is counted and the result
    /// decides: roll back on an automatic-rollback alert, advance the
    /// weight or promote when no alert was raised, and once the cycles are
    /// used up promote on a warning and roll back on anything worse. A
    /// counted result is kept as the last result.
    ///
    /// A promoting result needs at least one weight step to decide between
    /// advancing and promoting.
    pub fn analyze(&mut self, timed_out: bool, result: ThresholdResult) -> (d: CanaryDecision)
        requires
            old(self).wf(),
            old(self).spec_cycles() < u32::MAX,
            !old(self).spec_phase().spec_is_terminal() && !timed_out
                && old(self).spec_has_sufficient_samples() && result.alert_level == AlertLevel::NoAlert
                ==> old(self).spec_config().weight_steps@.len() > 0,
        ensures
            final(self).wf(),
            final(self).spec_config() == old(self).spec_config(),
            old(self).spec_phase().spec_is_terminal() ==> {
                &&& d is Complete
                &&& final(self).spec_last_result() == old(self).spec_last_result()
                &&& final(self).spec_phase() == old(self).spec_phase()
                &&& final(self).spec_weight() == old(self).spec_weight()
                &&& final(self).spec_cycles() == old(self).spec_cycles()
                &&& final(self).spec_step() == old(self).spec_step()
            },
            !old(self).spec_phase().spec_is_terminal() && timed_out ==> {
                &&& d is Timeout
                &&& final(self).spec_last_result() == old(self).spec_last_result()
                &&& final(self).spec_phase() == CanaryPhase::Failed
                &&& final(self).spec_weight() == old(self).spec_weight()
                &&& final(self).spec_cycles() == old(self).spec_cycles()
            },
            !old(self).spec_phase().spec_is_terminal() && !timed_out
                && !old(self).spec_has_sufficient_samples() ==> {
                &&& d is InsufficientData
                &&& final(self).spec_last_result() == old(self).spec_last_result()
                &&& final(self).spec_phase() == old(self).spec_phase()
                &&& final(self).spec_weight() == old(self).spec_weight()
                &&& final(self).spec_cycles() == old(self).spec_cycles()
                &&& final(self).spec_step() == old(self).spec_step()
            },
            !old(self).spec_phase().spec_is_terminal() && !timed_out
                && old(self).spec_has_sufficient_samples() ==> {
                &&& final(self).spec_cycles() == old(self).spec_cycles() + 1
                &&& final(self).spec_last_result() == Some(result)
                &&& decided(old(self), result, final(self), d)
            },
            !old(self).spec_phase().spec_is_terminal() && !timed_out
                && old(self).spec_has_sufficient_samples() && result.alert_level == AlertLevel::Warning
                && old(self).spec_cycles() + 1 < old(self).spec_config().max_cycles ==> {
                &&& d is Continue
                &&& final(self).spec_phase() == old(self).spec_phase()
                &&& final(self).spec_weight() == old(self).spec_weight()
                &&& final(self).spec_step() == old(self).spec_step()
            },
            d is Promote ==> (result.alert_level == AlertLevel::NoAlert && old(self).spec_step() + 1
                >= old(self).spec_config().weight_steps@.len()) || (result.alert_level
                == AlertLevel::Warning && old(self).spec_cycles() + 1 >= old(self).spec_config().max_cycles),
    {
        if self.state.phase.is_terminal() {
            return CanaryDecision::Complete;
        }
        if timed_out {
            self.transition_to(CanaryPhase::Failed);
            return CanaryDecision::Timeout;
        }
        if !self.has_sufficient_samples() {
            return CanaryDecision::InsufficientData;
        }
        self.state.last_result = Some(result.clone());
        self.state.analysis_cycles = self.state.analysis_cycles + 1;
        let ghost pre = *old(self);
        let ghost res = result;
        let d = self.make_decision(result);
        proof {
            lemma_decision_by_alert_level(&pre, res, &*self, d);
        }
        d
    }

    fn make_decision(&mut self, result: ThresholdResult) -> (d: CanaryDecision)
        requires
            old(self).wf(),
            result.alert_level == AlertLevel::NoAlert ==> old(self).config.weight_steps@.len() > 0,
        ensures
            final(self).wf(),
            final(self).state.last_result == old(self).state.last_result,
            final(self).config == old(self).config,
            final(self).state.analysis_cycles == old(self).state.analysis_cycles,
            decided(old(self), result, final(self), d),
    {
        if result.should_rollback() {
            self.transition_to(CanaryPhase::RollingBack);
            return CanaryDecision::Rollback(result.reason);
        }
        if result.should_promote() {
            if self.can_advance_weight() {
                self.advance_weight();
                return CanaryDecision::AdvanceWeight(self.state.traffic_weight);
            }
            self.transition_to(CanaryPhase::Promoting);
            return CanaryDecision::Promote;
        }
        if self.state.analysis_cycles >= self.config.max_cycles {
            if result.alert_level == AlertLevel::Warning {
                self.transition_to(CanaryPhase::Promoting);
                return CanaryDecision::Promote;
            }
            self.transition_to(CanaryPhase::RollingBack);
            return CanaryDecision::Rollback("Max cycles reached".to_owned());
        }
        CanaryDecision::Continue
    }

    /// Mark the deployment complete, with all traffic on the canary.
    pub fn complete(&mut self)
        ensures
            final(self).spec_phase() == CanaryPhase::Complete,
            final(self).spec_weight() == 100,
            final(self).spec_config() == old(self).spec_config(),
            final(self).spec_step() == old(self).spec_step(),
            old(self).wf() ==> final(self).wf(),
    {
        self.transition_to(CanaryPhase::Complete);
        self.state.traffic_weight = 100;
    }

    /// Mark the deployment failed, with no traffic on the canary.
    pub fn fail(&mut self)
        ensures
            final(self).spec_phase() == CanaryPhase::Failed,
            final(self).spec_weight() == 0,
            final(self).spec_config() == old(self).spec_config(),
            final(self).spec_step() == old(self).spec_step(),
            old(self).wf() ==> final(self).wf(),
    {
        self.transition_to(CanaryPhase::Failed);
        self.state.traffic_weight = 0;
    }
}

/// What an analysis with result `result` does, the cycle counted, from
/// controller `pre` to controller `post` with decision `d`.
pub open spec fn decided(
    pre: &CanaryController,
    result: ThresholdResult,
    post: &CanaryController,
    d: CanaryDecision,
) -> bool {
    let steps = pre.spec_config().weight_steps@;
    if result.alert_level == AlertLevel::AutoRollback {
        &&& d == CanaryDecision::Rollback(result.reason)
        &&& post.spec_phase() == CanaryPhase::RollingBack
        &&& post.spec_weight() == pre.spec_weight()
        &&& post.spec_step() == pre.spec_step()
    } else if result.alert_level == AlertLevel::NoAlert {
        if pre.spec_step() + 1 < steps.len() {
            &&& d == CanaryDecision::AdvanceWeight(steps[pre.spec_step() as int])
            &&& post.spec_weight() == steps[pre.spec_step() as int]
            &&& post.spec_step() == pre.spec_step() + 1
            &&& post.spec_phase() == pre.spec_phase()
            &&& post.canary_samples() == 0
            &&& post.stable_samples() == 0
        } else {
            &&& d is Promote
            &&& post.spec_phase() == CanaryPhase::Promoting
            &&& post.spec_weight() == pre.spec_weight()
            &&& post.spec_step() == pre.spec_step()
        }
    } else if post.spec_cycles() >= pre.spec_config().max_cycles {
        if result.alert_level == AlertLevel::Warning {
            &&& d is Promote
            &&& post.spec_phase() == CanaryPhase::Promoting
            &&& post.spec_weight() == pre.spec_weight()
            &&& post.spec_step() == pre.spec_step()
        } else {
            &&& d matches CanaryDecision::Rollback(reason)
            &&& reason@ == "Max cycles reached"@
            &&& post.spec_phase() == CanaryPhase::RollingBack
            &&& post.spec_weight() == pre.spec_weight()
            &&& post.spec_step() == pre.spec_step()
        }
    } else {
        &&& d is Continue
        &&& post.spec_phase() == pre.spec_phase()
        &&& post.spec_weight() == pre.spec_weight()
        &&& post.spec_step() == pre.spec_step()
    }
}

/// What an analysis decides, by its alert level: a warning while cycles
/// remain continues with phase, weight and step unchanged; a promotion
/// comes only from a result without alerts at the last weight step, or
/// from a warning once the cycles are used up; a rollback only from an
/// automatic-rollback alert, or from a critical alert once the cycles are
/// used up; the weight advances only on a result without alerts; and the
/// analysis continues only on a warning or critical alert while cycles
/// remain.
pub proof fn lemma_decision_by_alert_level(
    pre: &CanaryController,
    result: ThresholdResult,
    post: &CanaryController,
    d: CanaryDecision,
)
    requires
        decided(pre, result, post, d),
    ensures
        result.alert_level == AlertLevel::Warning && post.spec_cycles() < pre.spec_config().max_cycles ==> {
            &&& d is Continue
            &&& post.spec_phase() == pre.spec_phase()
            &&& post.spec_weight() == pre.spec_weight()
            &&& post.spec_step() == pre.spec_step()
        },
        d is Promote ==> (result.alert_level == AlertLevel::NoAlert && pre.spec_step() + 1
            >= pre.spec_config().weight_steps@.len()) || (result.alert_level == AlertLevel::Warning
            && post.spec_cycles() >= pre.spec_config().max_cycles),
        d is Rollback ==> result.alert_level == AlertLevel::AutoRollback || (result.alert_level
            == AlertLevel::Critical && post.spec_cycles() >= pre.spec_config().max_cycles),
        d is AdvanceWeight ==> result.alert_level == AlertLevel::NoAlert,
        d is Continue ==> (result.alert_level == AlertLevel::Warning || result.alert_level
            == AlertLevel::Critical) && post.spec_cycles() < pre.spec_config().max_cycles,
        !(d is Complete) && !(d is Timeout) && !(d is InsufficientData),
{
}

} // verus!
