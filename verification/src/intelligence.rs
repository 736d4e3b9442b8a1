//! The pattern learning engine: what it knows, how it scores, what it decides.
//!
//! The engine reads nothing by itself. Every function that needs the
//! history of samples, the provider's profile or the present instant takes
//! it as an argument.

use crate::clock::valid_timestamp;
use crate::fixed::{
    all_at_most, lemma_mean_bounds, mean, mean_of, min_int, ratio, MAX_MAGNITUDE, SCALE,
};
use crate::models::StealthLevel;
use crate::samples::{count, SampleFilter};
use crate::scoring::{
    effectiveness_confidence, improvement, model_confidence, significance,
    spec_effectiveness_confidence, spec_improvement, spec_significance, spec_success_rate,
    success_rate, trend,
};
use crate::tables::{scored, NameTable, WeightTable};
use crate::text::{
    decimal, find_char, find_char_from, parse_u8, parse_u8_range, push_decimal, push_two_digits,
    two_digits,
};
use vstd::prelude::*;
use vstd::string::*;

verus! {

/// The fewest samples from which the model is trained or a history analysed.
pub const MIN_TRAINING_SAMPLES: usize = 50;

/// The fewest samples from which the advanced patterns are learned.
pub const MIN_ADVANCED_SAMPLES: usize = 100;

/// The weight below which an hour counts as throttled, in millionths.
pub const THROTTLING_WEIGHT: u64 = 600_000;

/// The weight below which an hour counts as a peak of throttling, in millionths.
pub const PEAK_WEIGHT: u64 = 500_000;

/// The confidence above which optimization is switched on, in millionths.
pub const ACTIVATION_CONFIDENCE: u64 = 600_000;

/// The weight of an hour or a day of which nothing was learned, in millionths.
pub const NEUTRAL_WEIGHT: u64 = 500_000;

/// The seconds of a day.
pub const SECONDS_PER_DAY: i64 = 86_400;

/// The span of samples from which the model is trained, in days.
pub const TRAINING_WINDOW_DAYS: i64 = 30;

/// The span of samples from which the advanced patterns are learned, in days.
pub const ADVANCED_WINDOW_DAYS: i64 = 60;

/// The span of samples from which one strategy is rated, in days.
pub const STRATEGY_WINDOW_DAYS: i64 = 14;

/// The span of samples that counts as recent when a trend is taken, in days.
pub const RECENT_DAYS: i64 = 7;

/// The hours of a day.
pub const HOURS_PER_DAY: usize = 24;

/// The days of a week.
pub const DAYS_PER_WEEK: usize = 7;

/// A span of the day on some days of the week.
#[derive(Debug, Clone)]
pub struct TimeRange {
    pub start_hour: u8,
    pub start_minute: u8,
    pub end_hour: u8,
    pub end_minute: u8,
    /// Days of the week, Sunday being 0.
    pub days_of_week: Vec<u8>,
}

/// The seven days of the week as numbers, Sunday being 0.
pub open spec fn every_day() -> Seq<u8> {
    seq![0u8, 1u8, 2u8, 3u8, 4u8, 5u8, 6u8]
}

/// Whether `s` holds a colon.
pub open spec fn has_colon(s: Seq<char>) -> bool {
    find_char(s, ':', 0) < s.len()
}

/// What stands before the first colon of `s`.
pub open spec fn hour_field(s: Seq<char>) -> Seq<char> {
    s.subrange(0, find_char(s, ':', 0))
}

/// What stands between the first colon of `s` and the second, or the end.
pub open spec fn minute_field(s: Seq<char>) -> Seq<char> {
    let first = find_char(s, ':', 0);
    s.subrange(first + 1, find_char(s, ':', first + 1))
}

/// The number that `field` spells, or `fallback` where it spells none.
pub open spec fn number_or(field: Seq<char>, fallback: u8) -> u8 {
    match parse_u8(field) {
        Some(n) => n,
        None => fallback,
    }
}

/// The hour that `s` names: the number before its first colon, or
/// `fallback` where no number stands there.
pub open spec fn hour_or(s: Seq<char>, fallback: u8) -> u8 {
    number_or(hour_field(s), fallback)
}

/// The minute that `s` names: the number after its first colon, or
/// `fallback` where `s` has no colon or no number stands after it.
pub open spec fn minute_or(s: Seq<char>, fallback: u8) -> u8 {
    if has_colon(s) {
        number_or(minute_field(s), fallback)
    } else {
        fallback
    }
}

impl TimeRange {
    /// The range covers the whole of hour `hour` on every day.
    pub open spec fn is_whole_hour(self, hour: u8) -> bool {
        &&& self.start_hour == hour
        &&& self.start_minute == 0
        &&& self.end_hour == hour
        &&& self.end_minute == 59
        &&& self.days_of_week@ == every_day()
    }

    /// The range from `start` to `end`, both written as hour, colon, minute,
    /// on every day. A field that is missing or is no number below 256
    /// counts as 0 in `start`, and as 23 and 59 in `end`.
    pub fn new(start: &str, end: &str) -> (r: Self)
        ensures
            r.start_hour == hour_or(start@, 0),
            r.start_minute == minute_or(start@, 0),
            r.end_hour == hour_or(end@, 23),
            r.end_minute == minute_or(end@, 59),
            r.days_of_week@ == every_day(),
    {
        TimeRange {
            start_hour: hour_in(start, 0),
            start_minute: minute_in(start, 0),
            end_hour: hour_in(end, 23),
            end_minute: minute_in(end, 59),
            days_of_week: all_days(),
        }
    }

    /// The whole of hour `hour` on every day.
    pub fn whole_hour(hour: u8) -> (r: Self)
        ensures
            r.is_whole_hour(hour),
    {
        TimeRange {
            start_hour: hour,
            start_minute: 0,
            end_hour: hour,
            end_minute: 59,
            days_of_week: all_days(),
        }
    }
}

/// The hour that `s` names, or `fallback` where it names none.
pub fn hour_in(s: &str, fallback: u8) -> (r: u8)
    ensures
        r == hour_or(s@, fallback),
{
    let colon = find_char_from(s, ':', 0);
    match parse_u8_range(s, 0, colon) {
        Some(n) => n,
        None => fallback,
    }
}

/// The minute that `s` names, or `fallback` where it names none.
pub fn minute_in(s: &str, fallback: u8) -> (r: u8)
    ensures
        r == minute_or(s@, fallback),
{
    let colon = find_char_from(s, ':', 0);
    if colon >= s.unicode_len() {
        return fallback;
    }
    let stop = find_char_from(s, ':', colon + 1);
    match parse_u8_range(s, colon + 1, stop) {
        Some(n) => n,
        None => fallback,
    }
}

/// The seven days of the week as numbers, Sunday being 0.
pub fn all_days() -> (r: Vec<u8>)
    ensures
        r@ == every_day(),
{
    let mut days: Vec<u8> = Vec::new();
    days.push(0);
    days.push(1);
    days.push(2);
    days.push(3);
    days.push(4);
    days.push(5);
    days.push(6);
    assert(days@ =~= every_day());
    days
}

/// What an analysis of the history found.
#[derive(Debug, Clone)]
pub struct PatternAnalysis {
    pub throttling_periods: Vec<TimeRange>,
    /// Mean download speed without optimization, in kilobits per second.
    pub baseline_speed: u64,
    pub confidence_level: u64,
    pub data_collection_days: u32,
    pub isp_profile: Option<String>,
}

/// Why optimization is switched on or left off.
#[derive(Debug, Clone, Copy, PartialEq, Eq, Structural)]
pub enum DecisionReason {
    ThrottlingDetected,
    InsufficientConfidence,
    NoThrottlingDetected,
}

impl DecisionReason {
    /// The reason in words.
    pub fn message(self) -> (r: &'static str)
        ensures
            r@ == (match self {
                DecisionReason::ThrottlingDetected => "Throttling patterns detected with sufficient confidence"@,
                DecisionReason::InsufficientConfidence => "Insufficient data confidence for optimization"@,
                DecisionReason::NoThrottlingDetected => "No significant throttling patterns detected"@,
            }),
    {
        match self {
            DecisionReason::ThrottlingDetected => "Throttling patterns detected with sufficient confidence",
            DecisionReason::InsufficientConfidence => "Insufficient data confidence for optimization",
            DecisionReason::NoThrottlingDetected => "No significant throttling patterns detected",
        }
    }
}

/// Whether optimization should be on, and why.
#[derive(Debug, Clone, Copy, PartialEq, Eq, Structural)]
pub struct OptimizationDecision {
    pub should_activate: bool,
    pub reason: DecisionReason,
    pub confidence: u64,
    /// The speed-up to expect, in millionths: two million stands for twice as fast.
    pub estimated_improvement: Option<u64>,
}

/// What the system is doing.
#[derive(Debug, Clone)]
pub enum SystemState {
    /// Collecting the first samples.
    Learning,
    /// Optimizing.
    Optimizing,
    /// Watching without optimizing.
    Monitoring,
    /// Off for the time being.
    Inactive,
    /// Broken, with the cause.
    Error(String),
}

/// How far the collection of the first samples has come.
#[derive(Debug, Clone, Copy, PartialEq, Eq, Structural)]
pub struct DataCollectionProgress {
    pub days_collected: u32,
    pub days_needed: u32,
    /// Days collected per hundred days needed, in millionths.
    pub progress_percentage: u64,
}

/// What optimization achieves.
#[derive(Debug, Clone, Copy, PartialEq, Eq, Structural)]
pub struct EffectivenessMetrics {
    /// Optimized speed over baseline speed, in millionths.
    pub improvement_factor: u64,
    pub baseline_speed: u64,
    pub optimized_speed: u64,
    pub confidence: u64,
    pub last_updated: i64,
}

/// The state of the system as the shell shows it.
#[derive(Debug, Clone)]
pub struct SystemStatus {
    pub state: SystemState,
    pub message: String,
    pub data_collection_progress: Option<DataCollectionProgress>,
    pub effectiveness: Option<EffectivenessMetrics>,
}

/// A number of millionths written with two decimals, rounded down.
pub open spec fn two_decimals(value: u64) -> Seq<char> {
    decimal((value / SCALE) as nat) + "."@ + two_digits(((value % SCALE) / 10_000) as nat)
}

/// Appends a number of millionths, written with two decimals, to `out`.
pub fn push_two_decimals(out: &mut String, value: u64)
    ensures
        final(out)@ == old(out)@ + two_decimals(value),
{
    push_decimal(out, value / SCALE);
    out.append(".");
    push_two_digits(out, (value % SCALE) / 10_000);
    assert(final(out)@ =~= old(out)@ + two_decimals(value));
}

impl DataCollectionProgress {
    /// The progress after `days_collected` of `days_needed` days; no
    /// progress where no days are needed.
    pub open spec fn spec_new(days_collected: u32, days_needed: u32) -> DataCollectionProgress {
        DataCollectionProgress {
            days_collected,
            days_needed,
            progress_percentage: (100 * ratio(days_collected as int, days_needed as int)) as u64,
        }
    }

    /// The progress after `days_collected` of `days_needed` days; no
    /// progress where no days are needed.
    pub fn new(days_collected: u32, days_needed: u32) -> (r: DataCollectionProgress)
        ensures
            r == DataCollectionProgress::spec_new(days_collected, days_needed),
    {
        let share: u64 = if days_needed == 0 {
            0
        } else {
            days_collected as u64 * SCALE / days_needed as u64
        };
        proof {
            assert(days_collected * SCALE <= u32::MAX * SCALE) by (nonlinear_arith)
                requires
                    days_collected <= u32::MAX,
                    SCALE == 1_000_000,
            ;
            if days_needed > 0 {
                assert(days_collected * SCALE / (days_needed as int) <= days_collected * SCALE)
                    by (nonlinear_arith)
                    requires
                        days_needed >= 1,
                        days_collected * SCALE >= 0,
                ;
            }
        }
        DataCollectionProgress { days_collected, days_needed, progress_percentage: 100 * share }
    }
}

impl SystemStatus {
    /// The message of a learning system: how many of the days needed are collected.
    pub open spec fn spec_learning_message(days_collected: u32, days_needed: u32) -> Seq<char> {
        "Learning your network patterns ("@ + decimal(days_collected as nat) + " of "@ + decimal(
            days_needed as nat,
        ) + " days)"@
    }

    /// The message of an optimizing system: the improvement with two decimals.
    pub open spec fn spec_optimizing_message(improvement_factor: u64) -> Seq<char> {
        "Optimizing ("@ + two_decimals(improvement_factor) + "x improvement)"@
    }

    /// The status while the first samples are collected.
    pub fn learning(days_collected: u32, days_needed: u32) -> (r: Self)
        ensures
            r.state is Learning,
            r.message@ == SystemStatus::spec_learning_message(days_collected, days_needed),
            r.data_collection_progress == Some(
                DataCollectionProgress::spec_new(days_collected, days_needed),
            ),
            r.effectiveness is None,
    {
        let mut message = String::from_str("Learning your network patterns (");
        push_decimal(&mut message, days_collected as u64);
        message.append(" of ");
        push_decimal(&mut message, days_needed as u64);
        message.append(" days)");
        SystemStatus {
            state: SystemState::Learning,
            message,
            data_collection_progress: Some(DataCollectionProgress::new(days_collected, days_needed)),
            effectiveness: None,
        }
    }

    /// The status while optimization is on.
    pub fn optimizing(effectiveness: EffectivenessMetrics) -> (r: Self)
        ensures
            r.state is Optimizing,
            r.message@ == SystemStatus::spec_optimizing_message(effectiveness.improvement_factor),
            r.data_collection_progress is None,
            r.effectiveness == Some(effectiveness),
    {
        let mut message = String::from_str("Optimizing (");
        push_two_decimals(&mut message, effectiveness.improvement_factor);
        message.append("x improvement)");
        SystemStatus {
            state: SystemState::Optimizing,
            message,
            data_collection_progress: None,
            effectiveness: Some(effectiveness),
        }
    }

    /// The status where the state of the system cannot be found out, with the cause.
    pub fn error(cause: String) -> (r: Self)
        ensures
            r.state == SystemState::Error(cause),
            r.message@ == "Error obtaining status"@,
            r.data_collection_progress is None,
            r.effectiveness is None,
    {
        SystemStatus {
            state: SystemState::Error(cause),
            message: String::from_str("Error obtaining status"),
            data_collection_progress: None,
            effectiveness: None,
        }
    }

    /// The status while the system watches without optimizing.
    pub fn monitoring() -> (r: Self)
        ensures
            r.state is Monitoring,
            r.message@ == "Monitoring network patterns"@,
            r.data_collection_progress is None,
            r.effectiveness is None,
    {
        SystemStatus {
            state: SystemState::Monitoring,
            message: String::from_str("Monitoring network patterns"),
            data_collection_progress: None,
            effectiveness: None,
        }
    }
}

/// How well one strategy has done.
#[derive(Debug, Clone, Copy, PartialEq, Eq, Structural)]
pub struct StrategyEffectiveness {
    /// Optimized speed over baseline speed, in millionths.
    pub avg_improvement: u64,
    pub sample_count: u32,
    pub success_rate: u64,
    pub confidence: u64,
    /// Recent optimized speed against older, less one whole, in millionths.
    pub trend: i64,
    pub last_used: i64,
}

impl StrategyEffectiveness {
    /// The confidence is at most one whole, and the improvement is one that
    /// valid speeds can give.
    pub open spec fn in_range(self) -> bool {
        self.confidence <= SCALE && self.avg_improvement <= MAX_MAGNITUDE * SCALE
    }

    /// The record of a strategy of which nothing is known.
    pub open spec fn spec_unknown(now: i64) -> StrategyEffectiveness {
        StrategyEffectiveness {
            avg_improvement: SCALE,
            sample_count: 0,
            success_rate: 0,
            confidence: 0,
            trend: 0,
            last_used: now,
        }
    }

    /// The record of a strategy of which nothing is known.
    pub fn unknown(now: i64) -> (r: StrategyEffectiveness)
        ensures
            r == StrategyEffectiveness::spec_unknown(now),
    {
        StrategyEffectiveness {
            avg_improvement: SCALE,
            sample_count: 0,
            success_rate: 0,
            confidence: 0,
            trend: 0,
            last_used: now,
        }
    }
}

impl Default for StrategyEffectiveness {
    /// The record of a strategy of which nothing is known, dated now.
    fn default() -> (r: Self)
        ensures
            r == StrategyEffectiveness::spec_unknown(r.last_used),
            valid_timestamp(r.last_used as int),
    {
        StrategyEffectiveness::unknown(crate::clock::unix_now())
    }
}

/// What was learned about one provider.
#[derive(Debug, Clone, Copy, PartialEq, Eq, Structural)]
pub struct ISPLearningParams {
    pub optimal_stealth_level: StealthLevel,
    /// Minutes between rotations.
    pub optimal_rotation_interval: u32,
    pub optimal_traffic_intensity: u64,
    pub detection_risk: u64,
    pub confidence: u64,
}

impl ISPLearningParams {
    /// Intensity, risk and confidence are at most one whole.
    pub open spec fn in_range(self) -> bool {
        &&& self.optimal_traffic_intensity <= SCALE
        &&& self.detection_risk <= SCALE
        &&& self.confidence <= SCALE
    }
}

/// How optimized samples compare with the baseline.
#[derive(Debug, Clone, Copy, PartialEq, Eq, Structural)]
pub struct BaselineComparison {
    pub baseline_speed: u64,
    pub optimized_speed: u64,
    pub improvement_factor: u64,
    pub significance: u64,
}

/// The place of one strategy among the others.
#[derive(Debug, Clone)]
pub struct StrategyRanking {
    pub strategy_name: String,
    /// Improvement less one whole, in millionths.
    pub effectiveness_score: i64,
    pub confidence: u64,
    pub sample_count: u32,
}

/// What a recommendation is about.
#[derive(Debug, Clone, Copy, PartialEq, Eq, Structural)]
pub enum RecommendationType {
    StealthAdjustment,
    RotationAdjustment,
    TrafficAdjustment,
    StrategySwitch,
    TimingOptimization,
    ISPOptimization,
}

/// A hint for the user; nothing acts on it.
#[derive(Debug, Clone)]
pub struct OptimizationRecommendation {
    pub recommendation_type: RecommendationType,
    pub description: String,
    pub expected_improvement: u64,
    pub confidence: u64,
    /// From 1, the most urgent, to 5.
    pub priority: u8,
}

/// The full account of how well optimization does.
#[derive(Debug, Clone)]
pub struct EffectivenessAnalysis {
    pub current_effectiveness: EffectivenessMetrics,
    pub baseline_comparison: BaselineComparison,
    pub strategy_rankings: Vec<StrategyRanking>,
    pub recommendations: Vec<OptimizationRecommendation>,
    pub confidence: u64,
}

/// What the engine has learned.
#[derive(Debug, Clone)]
pub struct PatternLearningModel {
    pub strategy_effectiveness: NameTable<StrategyEffectiveness>,
    /// A weight for each hour of the day, UTC.
    pub temporal_weights: WeightTable,
    /// A weight for each day of the week, Monday first.
    pub weekly_weights: WeightTable,
    pub isp_parameters: NameTable<ISPLearningParams>,
    pub model_confidence: u64,
    pub training_samples: u32,
    pub last_updated: i64,
}

impl PatternLearningModel {
    /// The tables have their sizes, and every weight and confidence is at most one whole.
    pub open spec fn well_formed(&self) -> bool {
        &&& self.strategy_effectiveness.well_formed()
        &&& self.isp_parameters.well_formed()
        &&& self.temporal_weights@.len() == HOURS_PER_DAY
        &&& self.weekly_weights@.len() == DAYS_PER_WEEK
        &&& self.model_confidence <= SCALE
        &&& forall|h: int|
            0 <= h < HOURS_PER_DAY ==> (#[trigger] self.temporal_weights@[h] matches Some(w) ==> w
                <= SCALE)
        &&& forall|d: int|
            0 <= d < DAYS_PER_WEEK ==> (#[trigger] self.weekly_weights@[d] matches Some(w) ==> w
                <= SCALE)
        &&& forall|i: int|
            0 <= i < self.strategy_effectiveness.values@.len() ==> (
            #[trigger] self.strategy_effectiveness.values@[i]).in_range()
        &&& forall|i: int|
            0 <= i < self.isp_parameters.values@.len() ==> (
            #[trigger] self.isp_parameters.values@[i]).in_range()
    }

    /// Nothing has been learned.
    pub open spec fn is_blank(&self) -> bool {
        &&& self.strategy_effectiveness.spec_len() == 0
        &&& self.isp_parameters.spec_len() == 0
        &&& scored(self.temporal_weights@) == 0
        &&& scored(self.weekly_weights@) == 0
        &&& self.model_confidence == 0
        &&& self.training_samples == 0
    }

    /// The model that has learned nothing, dated `now`.
    pub fn blank(now: i64) -> (r: Self)
        ensures
            r.well_formed(),
            r.is_blank(),
            r.last_updated == now,
            forall|h: int| 0 <= h < HOURS_PER_DAY ==> r.temporal_weights@[h] is None,
            forall|d: int| 0 <= d < DAYS_PER_WEEK ==> r.weekly_weights@[d] is None,
            forall|name: Seq<char>| r.strategy_effectiveness.spec_get(name) is None,
            forall|name: Seq<char>| r.isp_parameters.spec_get(name) is None,
    {
        PatternLearningModel {
            strategy_effectiveness: NameTable::new(),
            temporal_weights: WeightTable::new(HOURS_PER_DAY),
            weekly_weights: WeightTable::new(DAYS_PER_WEEK),
            isp_parameters: NameTable::new(),
            model_confidence: 0,
            training_samples: 0,
            last_updated: now,
        }
    }
}

impl Default for PatternLearningModel {
    /// The model that has learned nothing, dated now.
    fn default() -> (r: Self)
        ensures
            r.well_formed(),
            r.is_blank(),
    {
        PatternLearningModel::blank(crate::clock::unix_now())
    }
}

/// The samples taken in the `days` days before `now`.
pub open spec fn window(now: i64, days: int) -> SampleFilter {
    SampleFilter::spec_since((now - days * SECONDS_PER_DAY) as i64)
}

/// The filter `base` narrowed by the optimization flag.
pub open spec fn with_flag(base: SampleFilter, optimized: bool) -> SampleFilter {
    SampleFilter { optimized: Some(optimized), ..base }
}

/// A count as it is stored: capped at what 32 bits hold.
pub open spec fn stored_count(n: int) -> u32 {
    if n > u32::MAX {
        u32::MAX
    } else {
        n as u32
    }
}

/// The confidences of the strategies of a table, in the table's order.
pub open spec fn confidences(values: Seq<StrategyEffectiveness>) -> Seq<u64> {
    Seq::new(values.len(), |i: int| values[i].confidence)
}

/// The improvements of the strategies of a table, in the table's order.
pub open spec fn improvements(values: Seq<StrategyEffectiveness>) -> Seq<u64> {
    Seq::new(values.len(), |i: int| values[i].avg_improvement)
}

/// The largest of `values`, and at least `floor`.
pub open spec fn largest_from(values: Seq<u64>, floor: int) -> int
    decreases values.len(),
{
    if values.len() == 0 {
        floor
    } else {
        crate::fixed::max_int(largest_from(values.drop_last(), floor), values.last() as int)
    }
}

/// How optimized speeds compare with baseline speeds.
pub open spec fn spec_baseline_comparison(baseline: Seq<u64>, optimized: Seq<u64>) -> BaselineComparison {
    BaselineComparison {
        baseline_speed: mean(baseline) as u64,
        optimized_speed: mean(optimized) as u64,
        improvement_factor: spec_improvement(mean(optimized), mean(baseline)) as u64,
        significance: spec_significance(baseline, optimized) as u64,
    }
}

/// How a strategy has done, from the speeds with and without optimization;
/// the record of an unknown strategy where either side has fewer than five speeds.
pub open spec fn spec_strategy_effectiveness(baseline: Seq<u64>, optimized: Seq<u64>, now: i64) -> StrategyEffectiveness {
    if optimized.len() < 5 || baseline.len() < 5 {
        StrategyEffectiveness::spec_unknown(now)
    } else {
        let gain = spec_improvement(mean(optimized), mean(baseline));
        StrategyEffectiveness {
            avg_improvement: gain as u64,
            sample_count: stored_count(optimized.len() as int),
            success_rate: spec_success_rate(gain) as u64,
            confidence: spec_effectiveness_confidence(
                optimized.len() as int,
                baseline.len() as int,
                gain,
            ) as u64,
            trend: 0,
            last_used: now,
        }
    }
}

/// What is assumed of a provider of which nothing was learned.
pub open spec fn spec_default_isp_params(known_throttling: bool) -> ISPLearningParams {
    ISPLearningParams {
        optimal_stealth_level: if known_throttling {
            StealthLevel::High
        } else {
            StealthLevel::Medium
        },
        optimal_rotation_interval: 10,
        optimal_traffic_intensity: 500_000,
        detection_risk: if known_throttling {
            700_000
        } else {
            300_000
        },
        confidence: 600_000,
    }
}

/// What is learned of a provider from the mean effectiveness of
/// optimization and the number of samples behind it.
pub open spec fn spec_learned_isp_params(known_throttling: bool, effectiveness: int, samples: int) -> ISPLearningParams {
    let risk: u64 = if effectiveness < 500_000 {
        900_000
    } else if known_throttling {
        600_000
    } else {
        300_000
    };
    ISPLearningParams {
        optimal_stealth_level: if known_throttling {
            if effectiveness > 800_000 {
                StealthLevel::High
            } else {
                StealthLevel::Maximum
            }
        } else {
            StealthLevel::Medium
        },
        optimal_rotation_interval: if risk > 700_000 {
            5
        } else {
            10
        },
        optimal_traffic_intensity: if risk > 700_000 {
            300_000
        } else {
            500_000
        },
        detection_risk: risk,
        confidence: min_int(samples * 20_000, SCALE as int) as u64,
    }
}

/// A count as it is stored.
pub fn count_to_u32(n: usize) -> (r: u32)
    ensures
        r == stored_count(n as int),
{
    if n > u32::MAX as usize {
        u32::MAX
    } else {
        n as u32
    }
}

/// The filter for the samples taken in the `days` days before `now`.
pub fn window_filter(now: i64, days: u32) -> (r: SampleFilter)
    requires
        valid_timestamp(now as int),
    ensures
        r == window(now, days as int),
{
    SampleFilter::since(now - days as i64 * SECONDS_PER_DAY)
}

/// The largest of `values`, and at least `floor`.
pub fn largest_of(values: &Vec<u64>, floor: u64) -> (r: u64)
    ensures
        r == largest_from(values@, floor as int),
{
    let mut best = floor;
    let mut i: usize = 0;
    while i < values.len()
        invariant
            i <= values.len(),
            best == largest_from(values@.take(i as int), floor as int),
        decreases values.len() - i,
    {
        assert(values@.take(i + 1).drop_last() =~= values@.take(i as int));
        if values[i] > best {
            best = values[i];
        }
        i = i + 1;
    }
    assert(values@.take(values.len() as int) =~= values@);
    best
}

/// How optimized speeds compare with baseline speeds.
pub fn baseline_comparison(baseline: &Vec<u64>, optimized: &Vec<u64>) -> (r: BaselineComparison)
    requires
        all_at_most(baseline@, MAX_MAGNITUDE as int),
        all_at_most(optimized@, MAX_MAGNITUDE as int),
    ensures
        r == spec_baseline_comparison(baseline@, optimized@),
        r.significance <= SCALE,
{
    proof {
        lemma_mean_bounds(baseline@, MAX_MAGNITUDE as int);
        lemma_mean_bounds(optimized@, MAX_MAGNITUDE as int);
    }
    let baseline_speed = mean_of(baseline);
    let optimized_speed = mean_of(optimized);
    BaselineComparison {
        baseline_speed,
        optimized_speed,
        improvement_factor: improvement(optimized_speed, baseline_speed),
        significance: significance(baseline, optimized),
    }
}

/// How a strategy has done, from the speeds with and without optimization.
pub fn strategy_effectiveness(baseline: &Vec<u64>, optimized: &Vec<u64>, now: i64) -> (r:
    StrategyEffectiveness)
    requires
        all_at_most(baseline@, MAX_MAGNITUDE as int),
        all_at_most(optimized@, MAX_MAGNITUDE as int),
    ensures
        r == spec_strategy_effectiveness(baseline@, optimized@, now),
        r.in_range(),
{
    if optimized.len() < 5 || baseline.len() < 5 {
        return StrategyEffectiveness::unknown(now);
    }
    proof {
        lemma_mean_bounds(baseline@, MAX_MAGNITUDE as int);
        lemma_mean_bounds(optimized@, MAX_MAGNITUDE as int);
    }
    let gain = improvement(mean_of(optimized), mean_of(baseline));
    StrategyEffectiveness {
        avg_improvement: gain,
        sample_count: count_to_u32(optimized.len()),
        success_rate: success_rate(gain),
        confidence: effectiveness_confidence(optimized.len(), baseline.len(), gain),
        trend: 0,
        last_used: now,
    }
}

/// What is assumed of a provider of which nothing was learned.
pub fn default_isp_params(known_throttling: bool) -> (r: ISPLearningParams)
    ensures
        r == spec_default_isp_params(known_throttling),
        r.in_range(),
{
    ISPLearningParams {
        optimal_stealth_level: if known_throttling {
            StealthLevel::High
        } else {
            StealthLevel::Medium
        },
        optimal_rotation_interval: 10,
        optimal_traffic_intensity: 500_000,
        detection_risk: if known_throttling {
            700_000
        } else {
            300_000
        },
        confidence: 600_000,
    }
}

/// What is learned of a provider from the mean effectiveness of
/// optimization and the number of samples behind it.
pub fn learned_isp_params(known_throttling: bool, effectiveness: u64, samples: u128) -> (r:
    ISPLearningParams)
    ensures
        r == spec_learned_isp_params(known_throttling, effectiveness as int, samples as int),
        r.in_range(),
{
    let risk: u64 = if effectiveness < 500_000 {
        900_000
    } else if known_throttling {
        600_000
    } else {
        300_000
    };
    let high_risk = risk > 700_000;
    ISPLearningParams {
        optimal_stealth_level: if known_throttling {
            if effectiveness > 800_000 {
                StealthLevel::High
            } else {
                StealthLevel::Maximum
            }
        } else {
            StealthLevel::Medium
        },
        optimal_rotation_interval: if high_risk {
            5
        } else {
            10
        },
        optimal_traffic_intensity: if high_risk {
            300_000
        } else {
            500_000
        },
        detection_risk: risk,
        confidence: if samples >= 50 {
            SCALE
        } else {
            (samples * 20_000) as u64
        },
    }
}

} // verus!
