//! The decision loop: at a fixed period, train the engine and ask it
//! whether optimization should be on.
//!
//! The loop advises only. It never touches the shared switch.

use crate::advisor::AdaptationAdvice;
use crate::clock::valid_timestamp;
use crate::intelligence::{OptimizationDecision, PatternAnalysis, SystemStatus};
use crate::learner::{trainable, DefaultIntelligenceCore};
use crate::models::{ISPProfile, SpeedMeasurement};
use crate::samples::all_well_formed;
use vstd::prelude::*;

verus! {

/// The age beyond which samples are purged before a cycle, in days.
pub const RETENTION_DAYS: u32 = 30;

/// The time between two cycles, in minutes.
pub const DEFAULT_TRAINING_INTERVAL_MINUTES: u32 = 15;

/// What a learning engine offers to its callers.
pub trait IntelligenceCore {
    /// The engine's state is one that its own functions leave behind.
    spec fn ready(&self) -> bool;

    /// The analysis of the history as the engine sees it at `now`.
    fn analyze_patterns(
        &self,
        history: &Vec<SpeedMeasurement>,
        isp: Option<&ISPProfile>,
        now: i64,
    ) -> (r: PatternAnalysis)
        requires
            self.ready(),
            all_well_formed(history@),
            valid_timestamp(now as int),
    ;

    /// Whether optimization should be on, and why.
    fn should_optimize(
        &self,
        history: &Vec<SpeedMeasurement>,
        isp: Option<&ISPProfile>,
        now: i64,
    ) -> (r: OptimizationDecision)
        requires
            self.ready(),
            all_well_formed(history@),
            valid_timestamp(now as int),
    ;

    /// What the engine advises after a report of effectiveness.
    fn adapt_strategy(&self, effectiveness: u64) -> (r: AdaptationAdvice)
        requires
            self.ready(),
    ;

    /// The state of the system as the shell shows it.
    fn get_status(
        &self,
        history: &Vec<SpeedMeasurement>,
        isp: Option<&ISPProfile>,
        now: i64,
    ) -> (r: SystemStatus)
        requires
            self.ready(),
            all_well_formed(history@),
            valid_timestamp(now as int),
    ;
}

impl IntelligenceCore for DefaultIntelligenceCore {
    open spec fn ready(&self) -> bool {
        self.well_formed()
    }

    fn analyze_patterns(
        &self,
        history: &Vec<SpeedMeasurement>,
        isp: Option<&ISPProfile>,
        now: i64,
    ) -> (r: PatternAnalysis)
        ensures
            self.spec_analysis_matches(r, history@, isp, now),
    {
        DefaultIntelligenceCore::analyze_patterns(self, history, isp, now)
    }

    fn should_optimize(
        &self,
        history: &Vec<SpeedMeasurement>,
        isp: Option<&ISPProfile>,
        now: i64,
    ) -> (r: OptimizationDecision)
        ensures
            r == self.spec_decision(history@, now),
    {
        DefaultIntelligenceCore::should_optimize(self, history, isp, now)
    }

    fn adapt_strategy(&self, effectiveness: u64) -> (r: AdaptationAdvice)
        ensures
            r == DefaultIntelligenceCore::spec_advice(effectiveness),
    {
        DefaultIntelligenceCore::adapt_strategy(self, effectiveness)
    }

    fn get_status(
        &self,
        history: &Vec<SpeedMeasurement>,
        isp: Option<&ISPProfile>,
        now: i64,
    ) -> (r: SystemStatus)
        ensures
            self.spec_status_matches(r, history@, now),
    {
        DefaultIntelligenceCore::get_status(self, history, isp, now)
    }
}

/// What one cycle of the decision loop found, and how long to wait for the next.
#[derive(Debug, Clone, Copy, PartialEq, Eq, Structural)]
pub struct CycleReport {
    pub decision: OptimizationDecision,
    pub sleep_secs: u64,
}

/// The decision loop's state: the engine it owns and its period.
#[derive(Debug, Clone)]
pub struct DecisionEngine {
    pub intelligence: DefaultIntelligenceCore,
    pub min_training_interval_minutes: u32,
}

impl DecisionEngine {
    /// The engine that the loop owns is well formed.
    pub open spec fn well_formed(&self) -> bool {
        self.intelligence.well_formed()
    }

    /// A loop with a new engine and a period of fifteen minutes.
    pub fn new() -> (r: Self)
        ensures
            r.well_formed(),
            r.intelligence.learning_model.is_blank(),
            r.min_training_interval_minutes == DEFAULT_TRAINING_INTERVAL_MINUTES,
    {
        DecisionEngine {
            intelligence: DefaultIntelligenceCore::new(),
            min_training_interval_minutes: DEFAULT_TRAINING_INTERVAL_MINUTES,
        }
    }

    /// Sets the days of samples that the engine wants.
    pub fn set_min_learning_days(&mut self, days: u32)
        ensures
            final(self).intelligence.min_learning_days == days,
            final(self).intelligence.learning_model == old(self).intelligence.learning_model,
            final(self).min_training_interval_minutes == old(self).min_training_interval_minutes,
    {
        self.intelligence.min_learning_days = days;
    }

    /// The engine.
    pub fn intelligence(&self) -> (r: &DefaultIntelligenceCore)
        ensures
            *r == self.intelligence,
    {
        &self.intelligence
    }

    /// The age beyond which the caller purges samples before it fetches
    /// the history for a cycle, in days.
    pub fn retention_days(&self) -> (r: u32)
        ensures
            r == RETENTION_DAYS,
    {
        RETENTION_DAYS
    }

    /// One cycle: trains the engine on the history, then asks it for its
    /// decision. The caller logs the decision and sleeps.
    pub fn run_cycle(
        &mut self,
        history: &Vec<SpeedMeasurement>,
        isp: Option<&ISPProfile>,
        now: i64,
    ) -> (report: CycleReport)
        requires
            old(self).well_formed(),
            all_well_formed(history@),
            valid_timestamp(now as int),
        ensures
            final(self).well_formed(),
            final(self).min_training_interval_minutes == old(self).min_training_interval_minutes,
            final(self).intelligence.min_learning_days == old(self).intelligence.min_learning_days,
            !trainable(history@, now) ==> final(self).intelligence.learning_model == old(
                self,
            ).intelligence.learning_model,
            trainable(history@, now) ==> DefaultIntelligenceCore::spec_trained_model(
                final(self).intelligence.learning_model,
                history@,
                isp,
                now,
            ),
            report.decision == final(self).intelligence.spec_decision(history@, now),
            report.sleep_secs == old(self).min_training_interval_minutes * 60,
    {
        self.intelligence.train_model(history, isp, now);
        let decision = DefaultIntelligenceCore::should_optimize(
            &self.intelligence,
            history,
            isp,
            now,
        );
        CycleReport { decision, sleep_secs: self.min_training_interval_minutes as u64 * 60 }
    }
}

} // verus!
