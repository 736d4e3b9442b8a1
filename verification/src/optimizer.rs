//! Switching optimization on and off, and the account of what it achieves.

use crate::app_state::{AppControlState, OptimizationMode};
use crate::clock::valid_timestamp;
use crate::fixed::{lemma_mean_bounds, mean, mean_of, min_int, MAX_MAGNITUDE, SCALE};
use crate::models::SpeedMeasurement;
use crate::samples::{all_well_formed, count, select, select_values, Metric, SampleFilter};
use crate::servers::ServerPool;
use crate::stealth::StealthError;
use crate::stealth_engine::StealthEngine;
use vstd::prelude::*;

verus! {

/// The span of samples that the account of effectiveness rests on, in seconds.
pub const EFFECTIVENESS_WINDOW_S: i64 = 21_600;

/// What optimization achieves.
#[derive(Debug, Clone, Copy, PartialEq, Eq, Structural)]
pub struct EffectivenessMetrics {
    /// Optimized speed over baseline speed, in millionths.
    pub improvement_factor: u64,
    pub baseline_speed: u64,
    pub optimized_speed: u64,
    pub confidence: u64,
}

/// The state of the connection that the optimizer may adapt to.
#[derive(Debug, Clone, Copy, PartialEq, Eq, Structural)]
pub struct NetworkConditions {
    pub current_speed: u64,
    pub latency: u32,
    pub packet_loss: u64,
    pub congestion_level: u64,
}

/// The samples of the last six hours.
pub open spec fn effectiveness_window(now: i64) -> SampleFilter {
    SampleFilter::spec_since((now - EFFECTIVENESS_WINDOW_S) as i64)
}

/// What optimization has achieved over the last six hours: the mean
/// speeds with and without it, their ratio where both are above nothing,
/// and a confidence that is complete at a hundred samples.
pub open spec fn spec_effectiveness(history: Seq<SpeedMeasurement>, now: i64) -> EffectivenessMetrics {
    let window = effectiveness_window(now);
    let baseline = mean(
        select(history, SampleFilter { optimized: Some(false), ..window }, Metric::Download),
    );
    let optimized = mean(
        select(history, SampleFilter { optimized: Some(true), ..window }, Metric::Download),
    );
    EffectivenessMetrics {
        improvement_factor: if baseline > 0 && optimized > 0 {
            (optimized * SCALE / baseline) as u64
        } else {
            SCALE
        },
        baseline_speed: baseline as u64,
        optimized_speed: optimized as u64,
        confidence: min_int(count(history, window) as int * 10_000, SCALE as int) as u64,
    }
}

/// The optimizer: it owns nothing, and works on the state it is handed.
#[derive(Debug, Clone, Copy)]
pub struct DefaultNetworkOptimizer {}

impl DefaultNetworkOptimizer {
    /// An optimizer.
    pub fn new() -> (r: Self) {
        DefaultNetworkOptimizer {  }
    }

    /// Switches optimization on and starts the stealth engine. The switch
    /// is on even where the engine finds no server; the caller starts the
    /// cadence scheduler either way, and the stealth loop after a success.
    pub fn start_optimization(
        &self,
        state: &mut AppControlState,
        stealth: &mut StealthEngine,
        pool: &ServerPool,
        now_s: u64,
    ) -> (r: Result<(), StealthError>)
        requires
            old(stealth).well_formed(),
        ensures
            final(state).optimization_mode == OptimizationMode::Enabled,
            old(stealth).spec_started(final(stealth), pool.servers@, r),
            r is Ok <==> old(stealth).is_active || pool.servers@.len() > 0,
    {
        state.optimization_mode = OptimizationMode::Enabled;
        stealth.start(pool, now_s)
    }

    /// Switches optimization off and stops the stealth engine.
    pub fn stop_optimization(&self, state: &mut AppControlState, stealth: &mut StealthEngine)
        requires
            old(stealth).well_formed(),
        ensures
            final(state).optimization_mode == OptimizationMode::Disabled,
            old(stealth).spec_stopped(final(stealth)),
    {
        state.optimization_mode = OptimizationMode::Disabled;
        stealth.stop();
    }

    /// What optimization has achieved over the last six hours.
    pub fn get_effectiveness(&self, history: &Vec<SpeedMeasurement>, now: i64) -> (r:
        EffectivenessMetrics)
        requires
            all_well_formed(history@),
            valid_timestamp(now as int),
        ensures
            r == spec_effectiveness(history@, now),
    {
        let window = SampleFilter::since(now - EFFECTIVENESS_WINDOW_S);
        let baseline_filter = SampleFilter {
            optimized: Some(false),
            since: window.since,
            after: window.after,
            until: window.until,
            hour: window.hour,
            weekday: window.weekday,
        };
        let optimized_filter = SampleFilter {
            optimized: Some(true),
            since: window.since,
            after: window.after,
            until: window.until,
            hour: window.hour,
            weekday: window.weekday,
        };
        let baseline_values = select_values(history, &baseline_filter, Metric::Download);
        let optimized_values = select_values(history, &optimized_filter, Metric::Download);
        let samples = crate::samples::count_where(history, &window);
        proof {
            lemma_mean_bounds(baseline_values@, MAX_MAGNITUDE as int);
            lemma_mean_bounds(optimized_values@, MAX_MAGNITUDE as int);
        }
        let baseline = mean_of(&baseline_values);
        let optimized = mean_of(&optimized_values);
        let improvement_factor = if baseline > 0 && optimized > 0 {
            crate::scoring::improvement(optimized, baseline)
        } else {
            SCALE
        };
        EffectivenessMetrics {
            improvement_factor,
            baseline_speed: baseline,
            optimized_speed: optimized,
            confidence: if samples >= 100 {
                SCALE
            } else {
                samples as u64 * 10_000
            },
        }
    }

    /// Adapts to the state of the connection. Nothing is adapted yet.
    pub fn adapt_to_conditions(&self, _conditions: NetworkConditions) {
    }
}

/// What an optimizer offers to its callers.
pub trait NetworkOptimizer {
    /// Switches optimization on and starts the stealth engine.
    fn start_optimization(
        &self,
        state: &mut AppControlState,
        stealth: &mut StealthEngine,
        pool: &ServerPool,
        now_s: u64,
    ) -> (r: Result<(), StealthError>)
        requires
            old(stealth).well_formed(),
    ;

    /// Switches optimization off and stops the stealth engine.
    fn stop_optimization(&self, state: &mut AppControlState, stealth: &mut StealthEngine)
        requires
            old(stealth).well_formed(),
    ;

    /// What optimization has achieved of late.
    fn get_effectiveness(&self, history: &Vec<SpeedMeasurement>, now: i64) -> (r:
        EffectivenessMetrics)
        requires
            all_well_formed(history@),
            valid_timestamp(now as int),
    ;

    /// Adapts to the state of the connection.
    fn adapt_to_conditions(&self, conditions: NetworkConditions);
}

impl NetworkOptimizer for DefaultNetworkOptimizer {
    fn start_optimization(
        &self,
        state: &mut AppControlState,
        stealth: &mut StealthEngine,
        pool: &ServerPool,
        now_s: u64,
    ) -> (r: Result<(), StealthError>)
        ensures
            final(state).optimization_mode == OptimizationMode::Enabled,
            old(stealth).spec_started(final(stealth), pool.servers@, r),
            r is Ok <==> old(stealth).is_active || pool.servers@.len() > 0,
    {
        DefaultNetworkOptimizer::start_optimization(self, state, stealth, pool, now_s)
    }

    fn stop_optimization(&self, state: &mut AppControlState, stealth: &mut StealthEngine)
        ensures
            final(state).optimization_mode == OptimizationMode::Disabled,
            old(stealth).spec_stopped(final(stealth)),
    {
        DefaultNetworkOptimizer::stop_optimization(self, state, stealth)
    }

    fn get_effectiveness(&self, history: &Vec<SpeedMeasurement>, now: i64) -> (r:
        EffectivenessMetrics)
        ensures
            r == spec_effectiveness(history@, now),
    {
        DefaultNetworkOptimizer::get_effectiveness(self, history, now)
    }

    fn adapt_to_conditions(&self, conditions: NetworkConditions) {
        DefaultNetworkOptimizer::adapt_to_conditions(self, conditions)
    }
}

/// What the store reports of the speeds of some days.
#[derive(Debug, Clone, Copy, PartialEq, Eq, Structural)]
pub struct SpeedStatistics {
    pub total_measurements: i64,
    pub avg_download_kbps: u64,
    pub max_download_kbps: u64,
    pub min_download_kbps: u64,
    pub avg_upload_kbps: u64,
    pub avg_latency_us: u64,
    pub avg_optimized_download_kbps: Option<u64>,
    pub avg_baseline_download_kbps: Option<u64>,
    /// Optimized over baseline, in millionths.
    pub improvement_factor: Option<u64>,
}

impl SpeedStatistics {
    /// The improvement that the two means stand for; what was there where
    /// one of them is missing or the baseline is nothing.
    pub open spec fn spec_improvement_factor(self) -> Option<u64> {
        match (self.avg_optimized_download_kbps, self.avg_baseline_download_kbps) {
            (Some(optimized), Some(baseline)) => if baseline > 0 {
                Some((optimized * SCALE / (baseline as int)) as u64)
            } else {
                self.improvement_factor
            },
            _ => self.improvement_factor,
        }
    }

    /// Sets the improvement factor from the two means.
    pub fn calculate_improvement_factor(&mut self)
        requires
            old(self).avg_optimized_download_kbps matches Some(optimized) ==> optimized
                <= MAX_MAGNITUDE,
        ensures
            *final(self) == (SpeedStatistics {
                improvement_factor: old(self).spec_improvement_factor(),
                ..*old(self)
            }),
    {
        if let Some(optimized) = self.avg_optimized_download_kbps {
            if let Some(baseline) = self.avg_baseline_download_kbps {
                if baseline > 0 {
                    self.improvement_factor = Some(crate::scoring::improvement(optimized, baseline));
                }
            }
        }
    }
}

/// `bytes` in `elapsed_ms` milliseconds as kilobits per second; less than a
/// millisecond counts as one.
pub open spec fn spec_throughput_kbps(bytes: u64, elapsed_ms: u64) -> int {
    bytes * 8 / (if elapsed_ms == 0 {
        1int
    } else {
        elapsed_ms as int
    })
}

/// The speed at which `bytes` went through in `elapsed_ms` milliseconds,
/// in kilobits per second, and no more than 64 bits hold.
pub fn throughput_kbps(bytes: u64, elapsed_ms: u64) -> (r: u64)
    ensures
        r == min_int(spec_throughput_kbps(bytes, elapsed_ms), u64::MAX as int),
{
    let elapsed: u128 = if elapsed_ms == 0 {
        1
    } else {
        elapsed_ms as u128
    };
    let speed: u128 = bytes as u128 * 8 / elapsed;
    if speed > u64::MAX as u128 {
        u64::MAX
    } else {
        speed as u64
    }
}

} // verus!
