//! The engine that turns the history of samples into a model, and the model
//! into an analysis, a decision and a status.

use crate::clock::{valid_timestamp, WallClock, Weekday};
use crate::engine::{
    in_hour, learn_days, learn_hours, learned_days, learned_hours, lemma_scores_in_range,
    Weighting,
};
use crate::fixed::{all_at_most, lemma_sum_bounds, mean, sum, sum_of, MAX_MAGNITUDE, SCALE};
use crate::intelligence::{
    confidences, default_isp_params, learned_isp_params, spec_default_isp_params,
    spec_learned_isp_params, spec_strategy_effectiveness, stored_count, strategy_effectiveness,
    window, window_filter, with_flag, ISPLearningParams, PatternLearningModel,
    StrategyEffectiveness, ADVANCED_WINDOW_DAYS, MIN_ADVANCED_SAMPLES, MIN_TRAINING_SAMPLES,
    NEUTRAL_WEIGHT, RECENT_DAYS, SECONDS_PER_DAY, STRATEGY_WINDOW_DAYS, THROTTLING_WEIGHT,
    TRAINING_WINDOW_DAYS,
};
use crate::models::{ISPProfile, OptimizationStrategy, SpeedMeasurement};
use crate::samples::{
    all_well_formed, count, lemma_select_len, select, select_values, Metric, SampleFilter,
};
use crate::scoring::{
    effectiveness_confidence, improvement, model_confidence, spec_effectiveness_confidence,
    spec_improvement, spec_model_confidence, spec_success_rate, spec_time_confidence, spec_trend,
    success_rate, time_confidence, trend,
};
use crate::tables::scored;
use vstd::prelude::*;
use vstd::string::*;

verus! {

/// The days of samples that are wanted before anything is recommended.
pub const DEFAULT_MIN_LEARNING_DAYS: u32 = 7;

/// The fewest optimized samples from which a provider's patterns are learned.
pub const MIN_PROVIDER_SAMPLES: usize = 20;

/// The fewest samples with and without optimization from which the
/// effectiveness of optimization is learned.
pub const MIN_EFFECTIVENESS_SAMPLES: usize = 10;

/// The fewest scores that make an hour count towards a provider's patterns.
pub const MIN_HOUR_SCORES: usize = 3;

/// The model confidence above which a time can be called favourable, in millionths.
pub const FAVORABLE_MODEL_CONFIDENCE: u64 = 500_000;

/// The learning engine.
#[derive(Debug, Clone)]
pub struct DefaultIntelligenceCore {
    pub learning_model: PatternLearningModel,
    pub min_learning_days: u32,
}

/// A weight, or the neutral weight where there is none.
pub open spec fn weight_or_neutral(weight: Option<u64>) -> int {
    match weight {
        Some(w) => w as int,
        None => NEUTRAL_WEIGHT as int,
    }
}

/// The sum of the scores of the first `hours` hours of the day that have
/// enough scores to count.
pub open spec fn busy_hours_sum(samples: Seq<SpeedMeasurement>, filter: SampleFilter, hours: int) -> int
    decreases hours,
{
    if hours <= 0 {
        0
    } else {
        let scores = select(samples, in_hour(filter, hours - 1), Metric::Performance);
        busy_hours_sum(samples, filter, hours - 1) + (if scores.len() >= MIN_HOUR_SCORES {
            sum(scores)
        } else {
            0
        })
    }
}

/// The number of the scores of the first `hours` hours of the day that have
/// enough scores to count.
pub open spec fn busy_hours_count(samples: Seq<SpeedMeasurement>, filter: SampleFilter, hours: int) -> int
    decreases hours,
{
    if hours <= 0 {
        0
    } else {
        let scores = select(samples, in_hour(filter, hours - 1), Metric::Performance);
        busy_hours_count(samples, filter, hours - 1) + (if scores.len() >= MIN_HOUR_SCORES {
            scores.len() as int
        } else {
            0
        })
    }
}

/// The mean score over the hours that have enough scores to count; nothing
/// where no hour has.
pub open spec fn busy_hours_mean(samples: Seq<SpeedMeasurement>, filter: SampleFilter) -> int {
    if busy_hours_count(samples, filter, 24) > 0 {
        busy_hours_sum(samples, filter, 24) / busy_hours_count(samples, filter, 24)
    } else {
        0
    }
}

/// What is learned about the effectiveness of optimization from the samples
/// that `base` accepts; none where either side has fewer than ten samples.
pub open spec fn spec_learned_effectiveness(samples: Seq<SpeedMeasurement>, base: SampleFilter, now: i64) -> Option<
    StrategyEffectiveness,
> {
    let optimized = select(samples, with_flag(base, true), Metric::Download);
    let baseline = select(samples, with_flag(base, false), Metric::Download);
    if optimized.len() < MIN_EFFECTIVENESS_SAMPLES || baseline.len() < MIN_EFFECTIVENESS_SAMPLES {
        None
    } else {
        let cut = (now - RECENT_DAYS * SECONDS_PER_DAY) as i64;
        let recent = select(
            samples,
            SampleFilter { after: Some(cut), ..with_flag(base, true) },
            Metric::Download,
        );
        let older = select(
            samples,
            SampleFilter { until: Some(cut), ..with_flag(base, true) },
            Metric::Download,
        );
        let gain = spec_improvement(mean(optimized), mean(baseline));
        Some(
            StrategyEffectiveness {
                avg_improvement: gain as u64,
                sample_count: stored_count(optimized.len() as int),
                success_rate: spec_success_rate(gain) as u64,
                confidence: spec_effectiveness_confidence(
                    optimized.len() as int,
                    baseline.len() as int,
                    gain,
                ) as u64,
                trend: if recent.len() > 0 && older.len() > 0 {
                    spec_trend(mean(recent), mean(older)) as i64
                } else {
                    0
                },
                last_used: now,
            },
        )
    }
}

/// What is learned about a provider from the optimized samples that `base`
/// accepts; none where there are fewer than twenty.
pub open spec fn spec_learned_provider(samples: Seq<SpeedMeasurement>, base: SampleFilter, known_throttling: bool) -> Option<
    ISPLearningParams,
> {
    let filter = with_flag(base, true);
    if count(samples, filter) < MIN_PROVIDER_SAMPLES {
        None
    } else {
        Some(
            spec_learned_isp_params(
                known_throttling,
                busy_hours_mean(samples, filter),
                busy_hours_count(samples, filter, 24),
            ),
        )
    }
}

/// The hours that count hold no more scores than there are samples in
/// each hour, and each score is one whole at most.
pub proof fn lemma_busy_hours_bounds(samples: Seq<SpeedMeasurement>, filter: SampleFilter, hours: int)
    requires
        all_well_formed(samples),
        0 <= hours,
    ensures
        0 <= busy_hours_count(samples, filter, hours) <= hours * samples.len(),
        0 <= busy_hours_sum(samples, filter, hours) <= busy_hours_count(samples, filter, hours)
            * SCALE,
    decreases hours,
{
    if hours > 0 {
        lemma_busy_hours_bounds(samples, filter, hours - 1);
        let f = in_hour(filter, hours - 1);
        let scores = select(samples, f, Metric::Performance);
        lemma_select_len(samples, f, Metric::Performance);
        lemma_scores_in_range(samples, f);
        lemma_sum_bounds(scores, SCALE as int);
        let before = busy_hours_count(samples, filter, hours - 1);
        assert(hours * samples.len() == (hours - 1) * samples.len() + samples.len())
            by (nonlinear_arith);
        assert((before + scores.len()) * SCALE == before * SCALE + scores.len() * SCALE)
            by (nonlinear_arith);
    } else {
        assert(hours * samples.len() == 0) by (nonlinear_arith)
            requires
                hours == 0,
        ;
    }
}

impl DefaultIntelligenceCore {
    /// The model that the engine holds is well formed.
    pub open spec fn well_formed(&self) -> bool {
        self.learning_model.well_formed()
    }

    /// Seven tenths of the hour's weight and three tenths of the day's,
    /// each neutral where nothing was learned.
    pub open spec fn spec_time_confidence(&self, hour: u8, weekday: Weekday) -> int {
        spec_time_confidence(
            weight_or_neutral(self.learning_model.temporal_weights.spec_get(hour as int)),
            weight_or_neutral(self.learning_model.weekly_weights.spec_get(weekday.spec_index())),
        )
    }

    /// Whether optimization promises something at the given hour and day:
    /// the time's confidence is low and the model's is not.
    pub open spec fn spec_is_favorable_at(&self, clock: WallClock) -> bool {
        self.spec_time_confidence(clock.hour, clock.weekday) < THROTTLING_WEIGHT
            && self.learning_model.model_confidence > FAVORABLE_MODEL_CONFIDENCE
    }

    /// An engine that has learned nothing and wants seven days of samples.
    pub fn new() -> (r: Self)
        ensures
            r.well_formed(),
            r.learning_model.is_blank(),
            r.min_learning_days == DEFAULT_MIN_LEARNING_DAYS,
    {
        DefaultIntelligenceCore {
            learning_model: PatternLearningModel::default(),
            min_learning_days: DEFAULT_MIN_LEARNING_DAYS,
        }
    }

    /// An engine that has learned nothing and wants `min_learning_days` days of samples.
    pub fn with_min_learning_days(min_learning_days: u32) -> (r: Self)
        ensures
            r.well_formed(),
            r.learning_model.is_blank(),
            r.min_learning_days == min_learning_days,
    {
        DefaultIntelligenceCore { learning_model: PatternLearningModel::default(), min_learning_days }
    }

    /// Sets the days of samples that are wanted.
    pub fn set_min_learning_days(&mut self, days: u32)
        ensures
            final(self).min_learning_days == days,
            final(self).learning_model == old(self).learning_model,
    {
        self.min_learning_days = days;
    }

    /// The confidence in a measured effectiveness.
    pub fn calculate_effectiveness_confidence(
        &self,
        optimized_samples: usize,
        baseline_samples: usize,
        improvement: u64,
    ) -> (r: u64)
        ensures
            r == spec_effectiveness_confidence(
                optimized_samples as int,
                baseline_samples as int,
                improvement as int,
            ),
            r <= SCALE,
    {
        effectiveness_confidence(optimized_samples, baseline_samples, improvement)
    }

    /// The confidence in one hour of one day of the week.
    pub fn get_time_confidence(&self, hour: u8, weekday: Weekday) -> (r: u64)
        requires
            self.well_formed(),
        ensures
            r == self.spec_time_confidence(hour, weekday),
            r <= SCALE,
    {
        let hourly = match self.learning_model.temporal_weights.get(hour as usize) {
            Some(w) => w,
            None => NEUTRAL_WEIGHT,
        };
        let weekly = match self.learning_model.weekly_weights.get(weekday.index() as usize) {
            Some(w) => w,
            None => NEUTRAL_WEIGHT,
        };
        time_confidence(hourly, weekly)
    }

    /// Whether optimization promises something at the given hour and day.
    pub fn is_favorable_at(&self, clock: WallClock) -> (r: bool)
        requires
            self.well_formed(),
        ensures
            r == self.spec_is_favorable_at(clock),
    {
        self.get_time_confidence(clock.hour, clock.weekday) < THROTTLING_WEIGHT
            && self.learning_model.model_confidence > FAVORABLE_MODEL_CONFIDENCE
    }

    /// Whether optimization promises something now. Where it does at
    /// every hour of every day it does so whatever the clock reads, and
    /// where it does at none it does not.
    pub fn is_favorable_time(&self) -> (r: bool)
        requires
            self.well_formed(),
        ensures
            r ==> self.learning_model.model_confidence > FAVORABLE_MODEL_CONFIDENCE,
            r ==> exists|clock: WallClock|
                clock.hour < 24 && clock.minute < 60 && #[trigger] self.spec_is_favorable_at(
                    clock,
                ),
            (forall|clock: WallClock|
                clock.hour < 24 && clock.minute < 60 ==> #[trigger] self.spec_is_favorable_at(
                    clock,
                )) ==> r,
    {
        let clock = WallClock::now();
        self.is_favorable_at(clock)
    }

    /// Sets the model's confidence from the number of training samples,
    /// the confidences of the strategies and the number of scored hours.
    pub fn calculate_model_confidence(&mut self)
        requires
            old(self).well_formed(),
        ensures
            final(self).well_formed(),
            final(self).learning_model.model_confidence == spec_model_confidence(
                old(self).learning_model.training_samples as int,
                confidences(old(self).learning_model.strategy_effectiveness.values@),
                scored(old(self).learning_model.temporal_weights@) as int,
            ),
            final(self).learning_model.strategy_effectiveness == old(self).learning_model.strategy_effectiveness,
            final(self).learning_model.isp_parameters == old(self).learning_model.isp_parameters,
            final(self).learning_model.temporal_weights == old(self).learning_model.temporal_weights,
            final(self).learning_model.weekly_weights == old(self).learning_model.weekly_weights,
            final(self).learning_model.training_samples == old(self).learning_model.training_samples,
            final(self).learning_model.last_updated == old(self).learning_model.last_updated,
            final(self).min_learning_days == old(self).min_learning_days,
    {
        let mut list: Vec<u64> = Vec::new();
        let mut i: usize = 0;
        while i < self.learning_model.strategy_effectiveness.values.len()
            invariant
                i <= self.learning_model.strategy_effectiveness.values@.len(),
                self.well_formed(),
                list@ == confidences(self.learning_model.strategy_effectiveness.values@.take(i as int)),
                all_at_most(list@, SCALE as int),
                forall|k: int|
                    0 <= k < self.learning_model.strategy_effectiveness.values@.len() ==> (
                    #[trigger] self.learning_model.strategy_effectiveness.values@[k]).in_range(),
            decreases self.learning_model.strategy_effectiveness.values@.len() - i,
        {
            list.push(self.learning_model.strategy_effectiveness.values[i].confidence);
            assert(list@ =~= confidences(
                self.learning_model.strategy_effectiveness.values@.take(i + 1),
            ));
            i = i + 1;
        }
        assert(self.learning_model.strategy_effectiveness.values@.take(
            self.learning_model.strategy_effectiveness.values@.len() as int,
        ) =~= self.learning_model.strategy_effectiveness.values@);
        let hours = self.learning_model.temporal_weights.len();
        self.learning_model.model_confidence = model_confidence(
            self.learning_model.training_samples,
            &list,
            hours,
        );
    }

    /// How a strategy has done over the last fourteen days. The samples do
    /// not say which strategy was in use, so every strategy is rated alike.
    pub fn calculate_strategy_effectiveness(
        &self,
        _strategy: &OptimizationStrategy,
        history: &Vec<SpeedMeasurement>,
        now: i64,
    ) -> (r: StrategyEffectiveness)
        requires
            all_well_formed(history@),
            valid_timestamp(now as int),
        ensures
            r == spec_strategy_effectiveness(
                select(
                    history@,
                    with_flag(window(now, STRATEGY_WINDOW_DAYS as int), false),
                    Metric::Download,
                ),
                select(
                    history@,
                    with_flag(window(now, STRATEGY_WINDOW_DAYS as int), true),
                    Metric::Download,
                ),
                now,
            ),
            r.in_range(),
    {
        let base = window_filter(now, STRATEGY_WINDOW_DAYS as u32);
        let optimized = select_values(history, &flagged(&base, true), Metric::Download);
        let baseline = select_values(history, &flagged(&base, false), Metric::Download);
        strategy_effectiveness(&baseline, &optimized, now)
    }

    /// Learns the weight of each hour of the day and each day of the week
    /// as the mean score of its samples; three samples make a bucket count.
    pub fn update_temporal_patterns(&mut self, history: &Vec<SpeedMeasurement>, base: &SampleFilter)
        requires
            old(self).well_formed(),
            all_well_formed(history@),
        ensures
            final(self).well_formed(),
            final(self).learning_model.temporal_weights@ == learned_hours(
                history@,
                *base,
                Weighting::Plain,
                old(self).learning_model.temporal_weights@,
            ),
            final(self).learning_model.weekly_weights@ == learned_days(
                history@,
                *base,
                Weighting::Plain,
                old(self).learning_model.weekly_weights@,
            ),
            final(self).same_but_weights(old(self)),
    {
        learn_hours(&mut self.learning_model.temporal_weights, history, base, Weighting::Plain);
        learn_days(&mut self.learning_model.weekly_weights, history, base, Weighting::Plain);
    }

    /// Learns the weight of each hour of the day and each day of the week
    /// as the mean score of its samples, lowered for inconsistency; five
    /// samples make a bucket count.
    pub fn learn_temporal_patterns_advanced(&mut self, history: &Vec<SpeedMeasurement>, base: &SampleFilter)
        requires
            old(self).well_formed(),
            all_well_formed(history@),
        ensures
            final(self).well_formed(),
            final(self).learning_model.temporal_weights@ == learned_hours(
                history@,
                *base,
                Weighting::Consistent,
                old(self).learning_model.temporal_weights@,
            ),
            final(self).learning_model.weekly_weights@ == learned_days(
                history@,
                *base,
                Weighting::Consistent,
                old(self).learning_model.weekly_weights@,
            ),
            final(self).same_but_weights(old(self)),
    {
        learn_hours(&mut self.learning_model.temporal_weights, history, base, Weighting::Consistent);
        learn_days(&mut self.learning_model.weekly_weights, history, base, Weighting::Consistent);
    }

    /// All but the two tables of weights is as in `other`.
    pub open spec fn same_but_weights(&self, other: &Self) -> bool {
        &&& self.learning_model.strategy_effectiveness
            == other.learning_model.strategy_effectiveness
        &&& self.learning_model.isp_parameters == other.learning_model.isp_parameters
        &&& self.learning_model.model_confidence == other.learning_model.model_confidence
        &&& self.learning_model.training_samples == other.learning_model.training_samples
        &&& self.learning_model.last_updated == other.learning_model.last_updated
        &&& self.min_learning_days == other.min_learning_days
    }

    /// All but the table of providers is as in `other`.
    pub open spec fn same_but_providers(&self, other: &Self) -> bool {
        &&& self.learning_model.strategy_effectiveness
            == other.learning_model.strategy_effectiveness
        &&& self.learning_model.temporal_weights == other.learning_model.temporal_weights
        &&& self.learning_model.weekly_weights == other.learning_model.weekly_weights
        &&& self.learning_model.model_confidence == other.learning_model.model_confidence
        &&& self.learning_model.training_samples == other.learning_model.training_samples
        &&& self.learning_model.last_updated == other.learning_model.last_updated
        &&& self.min_learning_days == other.min_learning_days
    }

    /// All but the table of strategies is as in `other`.
    pub open spec fn same_but_strategies(&self, other: &Self) -> bool {
        &&& self.learning_model.isp_parameters == other.learning_model.isp_parameters
        &&& self.learning_model.temporal_weights == other.learning_model.temporal_weights
        &&& self.learning_model.weekly_weights == other.learning_model.weekly_weights
        &&& self.learning_model.model_confidence == other.learning_model.model_confidence
        &&& self.learning_model.training_samples == other.learning_model.training_samples
        &&& self.learning_model.last_updated == other.learning_model.last_updated
        &&& self.min_learning_days == other.min_learning_days
    }

    /// Notes what is assumed of the provider, where there is one.
    pub fn update_isp_parameters(&mut self, isp: Option<&ISPProfile>)
        requires
            old(self).well_formed(),
        ensures
            final(self).well_formed(),
            final(self).same_but_providers(old(self)),
            match isp {
                Some(profile) => {
                    &&& final(self).learning_model.isp_parameters.spec_get(profile.name@) == Some(
                        spec_default_isp_params(profile.spec_is_known_throttling_isp()),
                    )
                    &&& forall|other: Seq<char>|
                        other != profile.name@ ==> final(self).learning_model.isp_parameters.spec_get(
                            other,
                        ) == old(self).learning_model.isp_parameters.spec_get(other)
                },
                None => final(self).learning_model.isp_parameters == old(self).learning_model.isp_parameters,
            },
    {
        if let Some(profile) = isp {
            let params = default_isp_params(profile.is_known_throttling_isp());
                        proof {
                crate::tables::lemma_position(self.learning_model.isp_parameters.names@, profile.name@);
            }
            self.learning_model.isp_parameters.insert(profile.name.clone(), params);
        }
    }

    /// Learns the provider's parameters from the optimized samples that
    /// `base` accepts, where there is a provider and there are twenty such samples.
    pub fn learn_isp_patterns(
        &mut self,
        history: &Vec<SpeedMeasurement>,
        base: &SampleFilter,
        isp: Option<&ISPProfile>,
    )
        requires
            old(self).well_formed(),
            all_well_formed(history@),
        ensures
            final(self).well_formed(),
            final(self).same_but_providers(old(self)),
            match isp {
                Some(profile) => match spec_learned_provider(
                    history@,
                    *base,
                    profile.spec_is_known_throttling_isp(),
                ) {
                    Some(params) => {
                        &&& final(self).learning_model.isp_parameters.spec_get(profile.name@)
                            == Some(params)
                        &&& forall|other: Seq<char>|
                            other != profile.name@ ==> final(self).learning_model.isp_parameters.spec_get(other) == old(self).learning_model.isp_parameters.spec_get(other)
                    },
                    None => final(self).learning_model.isp_parameters == old(self).learning_model.isp_parameters,
                },
                None => final(self).learning_model.isp_parameters == old(self).learning_model.isp_parameters,
            },
    {
        if let Some(profile) = isp {
            let filter = flagged(base, true);
            let optimized = select_values(history, &filter, Metric::Download);
            if optimized.len() >= MIN_PROVIDER_SAMPLES {
                let mut total: u128 = 0;
                let mut samples: u128 = 0;
                let mut hour: usize = 0;
                while hour < 24
                    invariant
                        hour <= 24,
                        all_well_formed(history@),
                        total == busy_hours_sum(history@, filter, hour as int),
                        samples == busy_hours_count(history@, filter, hour as int),
                    decreases 24 - hour,
                {
                    let hour_filter = SampleFilter {
                        optimized: filter.optimized,
                        since: filter.since,
                        after: filter.after,
                        until: filter.until,
                        hour: Some(hour as u8),
                        weekday: filter.weekday,
                    };
                    let scores = select_values(history, &hour_filter, Metric::Performance);
                    proof {
                        lemma_busy_hours_bounds(history@, filter, hour + 1);
                        lemma_busy_hours_bounds(history@, filter, hour as int);
                        assert(24 * history@.len() <= 24 * usize::MAX) by (nonlinear_arith)
                            requires
                                history@.len() <= usize::MAX,
                        ;
                        assert((hour + 1) * history@.len() <= 24 * history@.len())
                            by (nonlinear_arith)
                            requires
                                hour + 1 <= 24,
                        ;
                        assert(busy_hours_count(history@, filter, hour + 1) * SCALE <= 24
                            * usize::MAX * SCALE) by (nonlinear_arith)
                            requires
                                busy_hours_count(history@, filter, hour + 1) <= 24 * usize::MAX,
                                SCALE == 1_000_000,
                        ;
                    }
                    if scores.len() >= MIN_HOUR_SCORES {
                        total = total + sum_of(&scores);
                        samples = samples + scores.len() as u128;
                    }
                    hour = hour + 1;
                }
                let effectiveness: u64 = if samples > 0 {
                    proof {
                        lemma_busy_hours_bounds(history@, filter, 24);
                        assert(total as int / (samples as int) <= SCALE) by (nonlinear_arith)
                            requires
                                0 <= total <= samples * SCALE,
                                samples > 0,
                        ;
                    }
                    (total / samples) as u64
                } else {
                    0
                };
                let params = learned_isp_params(
                    profile.is_known_throttling_isp(),
                    effectiveness,
                    samples,
                );
                                proof {
                crate::tables::lemma_position(self.learning_model.isp_parameters.names@, profile.name@);
            }
            self.learning_model.isp_parameters.insert(profile.name.clone(), params);
            }
        }
    }
}

/// The filter `base` narrowed by the optimization flag.
pub fn flagged(base: &SampleFilter, optimized: bool) -> (r: SampleFilter)
    ensures
        r == with_flag(*base, optimized),
{
    SampleFilter {
        optimized: Some(optimized),
        since: base.since,
        after: base.after,
        until: base.until,
        hour: base.hour,
        weekday: base.weekday,
    }
}

/// The samples of the advanced window are enough to learn the advanced patterns from.
pub open spec fn advanced(samples: Seq<SpeedMeasurement>, now: i64) -> bool {
    count(samples, window(now, ADVANCED_WINDOW_DAYS as int)) >= MIN_ADVANCED_SAMPLES
}

/// The samples of the training window are enough to train the model from.
pub open spec fn trainable(samples: Seq<SpeedMeasurement>, now: i64) -> bool {
    count(samples, window(now, TRAINING_WINDOW_DAYS as int)) >= MIN_TRAINING_SAMPLES
}

/// A history of fewer than fifty samples is never enough to train from,
/// so a training pass on it leaves the model as it is.
pub proof fn lemma_short_history_trains_nothing(samples: Seq<SpeedMeasurement>, now: i64)
    requires
        samples.len() < MIN_TRAINING_SAMPLES,
    ensures
        !trainable(samples, now),
        !advanced(samples, now),
{
    crate::samples::lemma_select_len(
        samples,
        window(now, TRAINING_WINDOW_DAYS as int),
        Metric::Download,
    );
    crate::samples::lemma_select_len(
        samples,
        window(now, ADVANCED_WINDOW_DAYS as int),
        Metric::Download,
    );
}

/// `n` slots without a weight.
pub open spec fn unscored(n: nat) -> Seq<Option<u64>> {
    Seq::new(n, |k: int| None)
}

/// The hourly weights after the advanced step of a training pass.
pub open spec fn spec_advanced_hours(samples: Seq<SpeedMeasurement>, now: i64) -> Seq<Option<u64>> {
    if advanced(samples, now) {
        learned_hours(
            samples,
            window(now, ADVANCED_WINDOW_DAYS as int),
            Weighting::Consistent,
            unscored(24),
        )
    } else {
        unscored(24)
    }
}

/// The hourly weights after a training pass: those of the advanced step,
/// or the plain weights of the training window where that step scored no hour.
pub open spec fn spec_trained_hours(samples: Seq<SpeedMeasurement>, now: i64) -> Seq<Option<u64>> {
    let first = spec_advanced_hours(samples, now);
    if scored(first) == 0 {
        learned_hours(samples, window(now, TRAINING_WINDOW_DAYS as int), Weighting::Plain, first)
    } else {
        first
    }
}

/// The daily weights after a training pass.
pub open spec fn spec_trained_days(samples: Seq<SpeedMeasurement>, now: i64) -> Seq<Option<u64>> {
    let first = if advanced(samples, now) {
        learned_days(
            samples,
            window(now, ADVANCED_WINDOW_DAYS as int),
            Weighting::Consistent,
            unscored(7),
        )
    } else {
        unscored(7)
    };
    if scored(spec_advanced_hours(samples, now)) == 0 {
        learned_days(samples, window(now, TRAINING_WINDOW_DAYS as int), Weighting::Plain, first)
    } else {
        first
    }
}

/// What the advanced step of a training pass learns about the effectiveness of optimization.
pub open spec fn spec_advanced_effectiveness(samples: Seq<SpeedMeasurement>, now: i64) -> Option<
    StrategyEffectiveness,
> {
    if advanced(samples, now) {
        spec_learned_effectiveness(samples, window(now, ADVANCED_WINDOW_DAYS as int), now)
    } else {
        None
    }
}

/// How any strategy has done over the last fourteen days.
pub open spec fn spec_recent_effectiveness(samples: Seq<SpeedMeasurement>, now: i64) -> StrategyEffectiveness {
    spec_strategy_effectiveness(
        select(samples, with_flag(window(now, STRATEGY_WINDOW_DAYS as int), false), Metric::Download),
        select(samples, with_flag(window(now, STRATEGY_WINDOW_DAYS as int), true), Metric::Download),
        now,
    )
}

/// The record under `name` in the table of strategies after a training
/// pass: what the advanced step learned, under the default strategy's name;
/// or, where it learned nothing, the rating of the last fourteen days under
/// the names of the two built-in strategies.
pub open spec fn spec_trained_strategy(samples: Seq<SpeedMeasurement>, now: i64, name: Seq<char>) -> Option<
    StrategyEffectiveness,
> {
    match spec_advanced_effectiveness(samples, now) {
        Some(learned) => if name == "Default"@ {
            Some(learned)
        } else {
            None
        },
        None => if name == "Default"@ || name == "High Stealth"@ {
            Some(spec_recent_effectiveness(samples, now))
        } else {
            None
        },
    }
}

/// What the advanced step of a training pass learns about the provider.
pub open spec fn spec_advanced_provider(samples: Seq<SpeedMeasurement>, known_throttling: bool, now: i64) -> Option<
    ISPLearningParams,
> {
    if advanced(samples, now) {
        spec_learned_provider(samples, window(now, ADVANCED_WINDOW_DAYS as int), known_throttling)
    } else {
        None
    }
}

/// The record of the provider after a training pass: what the advanced step
/// learned, or else what is assumed of such a provider.
pub open spec fn spec_trained_provider(samples: Seq<SpeedMeasurement>, known_throttling: bool, now: i64) -> ISPLearningParams {
    match spec_advanced_provider(samples, known_throttling, now) {
        Some(learned) => learned,
        None => spec_default_isp_params(known_throttling),
    }
}

impl DefaultIntelligenceCore {
    /// Learns how well optimization does from the samples that `base`
    /// accepts, and notes it under the default strategy's name, where both
    /// sides have ten samples.
    pub fn learn_effectiveness_patterns(&mut self, history: &Vec<SpeedMeasurement>, base: &SampleFilter, now: i64)
        requires
            old(self).well_formed(),
            all_well_formed(history@),
            valid_timestamp(now as int),
        ensures
            final(self).well_formed(),
            final(self).same_but_strategies(old(self)),
            match spec_learned_effectiveness(history@, *base, now) {
                Some(learned) => {
                    &&& final(self).learning_model.strategy_effectiveness.spec_get("Default"@)
                        == Some(learned)
                    &&& forall|other: Seq<char>|
                        other != "Default"@ ==> final(self).learning_model.strategy_effectiveness.spec_get(other) == old(self).learning_model.strategy_effectiveness.spec_get(other)
                    &&& final(self).learning_model.strategy_effectiveness.spec_len() > 0
                    &&& old(self).learning_model.strategy_effectiveness.spec_len() == 0 ==> final(self).learning_model.strategy_effectiveness.spec_len() == 1
                },
                None => final(self).learning_model.strategy_effectiveness == old(self).learning_model.strategy_effectiveness,
            },
    {
        let optimized_filter = flagged(base, true);
        let optimized = select_values(history, &optimized_filter, Metric::Download);
        let baseline = select_values(history, &flagged(base, false), Metric::Download);
        if optimized.len() >= MIN_EFFECTIVENESS_SAMPLES && baseline.len()
            >= MIN_EFFECTIVENESS_SAMPLES {
            let cut = now - RECENT_DAYS * SECONDS_PER_DAY;
            let recent_filter = SampleFilter {
                optimized: optimized_filter.optimized,
                since: optimized_filter.since,
                after: Some(cut),
                until: optimized_filter.until,
                hour: optimized_filter.hour,
                weekday: optimized_filter.weekday,
            };
            let older_filter = SampleFilter {
                optimized: optimized_filter.optimized,
                since: optimized_filter.since,
                after: optimized_filter.after,
                until: Some(cut),
                hour: optimized_filter.hour,
                weekday: optimized_filter.weekday,
            };
            let recent = select_values(history, &recent_filter, Metric::Download);
            let older = select_values(history, &older_filter, Metric::Download);
            proof {
                crate::fixed::lemma_mean_bounds(optimized@, MAX_MAGNITUDE as int);
                crate::fixed::lemma_mean_bounds(baseline@, MAX_MAGNITUDE as int);
                crate::fixed::lemma_mean_bounds(recent@, MAX_MAGNITUDE as int);
                crate::fixed::lemma_mean_bounds(older@, MAX_MAGNITUDE as int);
            }
            let gain = improvement(
                crate::fixed::mean_of(&optimized),
                crate::fixed::mean_of(&baseline),
            );
            let direction: i64 = if recent.len() > 0 && older.len() > 0 {
                trend(crate::fixed::mean_of(&recent), crate::fixed::mean_of(&older))
            } else {
                0
            };
            let learned = StrategyEffectiveness {
                avg_improvement: gain,
                sample_count: crate::intelligence::count_to_u32(optimized.len()),
                success_rate: success_rate(gain),
                confidence: effectiveness_confidence(optimized.len(), baseline.len(), gain),
                trend: direction,
                last_used: now,
            };
                        proof {
                crate::tables::lemma_position(self.learning_model.strategy_effectiveness.names@, "Default"@);
            }
            self.learning_model.strategy_effectiveness.insert(String::from_str("Default"), learned);
        }
    }

    /// Rates the two built-in strategies by the last fourteen days.
    pub fn update_strategy_effectiveness(&mut self, history: &Vec<SpeedMeasurement>, now: i64)
        requires
            old(self).well_formed(),
            all_well_formed(history@),
            valid_timestamp(now as int),
        ensures
            final(self).well_formed(),
            final(self).same_but_strategies(old(self)),
            final(self).learning_model.strategy_effectiveness.spec_get("Default"@) == Some(
                spec_recent_effectiveness(history@, now),
            ),
            final(self).learning_model.strategy_effectiveness.spec_get("High Stealth"@) == Some(
                spec_recent_effectiveness(history@, now),
            ),
            forall|other: Seq<char>|
                other != "Default"@ && other != "High Stealth"@ ==> final(self).learning_model.strategy_effectiveness.spec_get(other) == old(self).learning_model.strategy_effectiveness.spec_get(other),
            old(self).learning_model.strategy_effectiveness.spec_len() == 0 ==> final(self).learning_model.strategy_effectiveness.spec_len() == 2,
    {
        let default_strategy = OptimizationStrategy::default_strategy();
        let high_stealth = OptimizationStrategy::high_stealth_strategy();
        let first = self.calculate_strategy_effectiveness(&default_strategy, history, now);
        let second = self.calculate_strategy_effectiveness(&high_stealth, history, now);
        proof {
            reveal_strlit("Default");
            reveal_strlit("High Stealth");
            assert("Default"@.len() == 7);
            assert("High Stealth"@.len() == 12);
        }
                proof {
            crate::tables::lemma_position(self.learning_model.strategy_effectiveness.names@, "Default"@);
        }
        self.learning_model.strategy_effectiveness.insert(default_strategy.name, first);
        proof {
            crate::tables::lemma_position(self.learning_model.strategy_effectiveness.names@, "High Stealth"@);
        }
        self.learning_model.strategy_effectiveness.insert(high_stealth.name, second);
    }

    /// The advanced step of a training pass: from the samples of the last
    /// sixty days, where there are a hundred, the consistent weights of
    /// hours and days, the provider's parameters and the effectiveness of
    /// optimization; then the model's confidence.
    pub fn learn_advanced_patterns(
        &mut self,
        history: &Vec<SpeedMeasurement>,
        isp: Option<&ISPProfile>,
        now: i64,
    )
        requires
            old(self).well_formed(),
            all_well_formed(history@),
            valid_timestamp(now as int),
        ensures
            final(self).well_formed(),
            final(self).min_learning_days == old(self).min_learning_days,
            final(self).learning_model.training_samples == old(self).learning_model.training_samples,
            final(self).learning_model.last_updated == old(self).learning_model.last_updated,
            !advanced(history@, now) ==> final(self).learning_model == old(self).learning_model,
            advanced(history@, now) ==> {
                let base = window(now, ADVANCED_WINDOW_DAYS as int);
                &&& final(self).learning_model.temporal_weights@ == learned_hours(
                    history@,
                    base,
                    Weighting::Consistent,
                    old(self).learning_model.temporal_weights@,
                )
                &&& final(self).learning_model.weekly_weights@ == learned_days(
                    history@,
                    base,
                    Weighting::Consistent,
                    old(self).learning_model.weekly_weights@,
                )
                &&& final(self).learning_model.model_confidence == spec_model_confidence(
                    final(self).learning_model.training_samples as int,
                    confidences(final(self).learning_model.strategy_effectiveness.values@),
                    scored(final(self).learning_model.temporal_weights@) as int,
                )
                &&& match spec_learned_effectiveness(history@, base, now) {
                    Some(learned) => {
                        &&& final(self).learning_model.strategy_effectiveness.spec_get(
                            "Default"@,
                        ) == Some(learned)
                        &&& forall|other: Seq<char>|
                            other != "Default"@ ==> final(self).learning_model.strategy_effectiveness.spec_get(other) == old(self).learning_model.strategy_effectiveness.spec_get(other)
                        &&& final(self).learning_model.strategy_effectiveness.spec_len() > 0
                        &&& old(self).learning_model.strategy_effectiveness.spec_len() == 0
                            ==> final(self).learning_model.strategy_effectiveness.spec_len() == 1
                    },
                    None => final(self).learning_model.strategy_effectiveness == old(self).learning_model.strategy_effectiveness,
                }
                &&& match isp {
                    Some(profile) => match spec_learned_provider(
                        history@,
                        base,
                        profile.spec_is_known_throttling_isp(),
                    ) {
                        Some(params) => {
                            &&& final(self).learning_model.isp_parameters.spec_get(profile.name@)
                                == Some(params)
                            &&& forall|other: Seq<char>|
                                other != profile.name@ ==> final(self).learning_model.isp_parameters.spec_get(other) == old(self).learning_model.isp_parameters.spec_get(other)
                            &&& final(self).learning_model.isp_parameters.spec_len() > 0
                        },
                        None => final(self).learning_model.isp_parameters == old(self).learning_model.isp_parameters,
                    },
                    None => final(self).learning_model.isp_parameters == old(self).learning_model.isp_parameters,
                }
            },
    {
        let base = window_filter(now, ADVANCED_WINDOW_DAYS as u32);
        if crate::samples::count_where(history, &base) < MIN_ADVANCED_SAMPLES {
            return;
        }
        self.learn_temporal_patterns_advanced(history, &base);
        self.learn_isp_patterns(history, &base, isp);
        self.learn_effectiveness_patterns(history, &base, now);
        self.calculate_model_confidence();
    }

    /// `model` is what a training pass at `now` builds from the history:
    /// the weights of hours and days, the strategies' ratings, the
    /// provider's parameters where there is a provider, the number of
    /// samples, and the confidence that follows from these.
    pub open spec fn spec_trained_model(
        model: PatternLearningModel,
        history: Seq<SpeedMeasurement>,
        isp: Option<&ISPProfile>,
        now: i64,
    ) -> bool {
        &&& model.temporal_weights@ == spec_trained_hours(history, now)
        &&& model.weekly_weights@ == spec_trained_days(history, now)
        &&& forall|name: Seq<char>| #[trigger]
            model.strategy_effectiveness.spec_get(name) == spec_trained_strategy(
                history,
                now,
                name,
            )
        &&& model.strategy_effectiveness.spec_len() == (if spec_advanced_effectiveness(
            history,
            now,
        ) is Some {
            1nat
        } else {
            2nat
        })
        &&& match isp {
            Some(profile) => {
                &&& model.isp_parameters.spec_get(profile.name@) == Some(
                    spec_trained_provider(
                        history,
                        profile.spec_is_known_throttling_isp(),
                        now,
                    ),
                )
                &&& forall|other: Seq<char>|
                    other != profile.name@ ==> model.isp_parameters.spec_get(other) is None
            },
            None => forall|name: Seq<char>| model.isp_parameters.spec_get(name) is None,
        }
        &&& model.training_samples == stored_count(
            count(history, window(now, TRAINING_WINDOW_DAYS as int)) as int,
        )
        &&& model.model_confidence == spec_model_confidence(
            model.training_samples as int,
            confidences(model.strategy_effectiveness.values@),
            scored(model.temporal_weights@) as int,
        )
        &&& model.last_updated == now
    }

    /// One training pass at the instant `now`. With fewer than fifty samples
    /// in the last thirty days the model stays as it is. Otherwise the
    /// model is built anew: the advanced step first, then for whatever that
    /// step left empty the plain weights of the last thirty days, the
    /// rating of the built-in strategies and what is assumed of the provider.
    pub fn train_model(&mut self, history: &Vec<SpeedMeasurement>, isp: Option<&ISPProfile>, now: i64)
        requires
            old(self).well_formed(),
            all_well_formed(history@),
            valid_timestamp(now as int),
        ensures
            final(self).well_formed(),
            final(self).min_learning_days == old(self).min_learning_days,
            !trainable(history@, now) ==> final(self).learning_model == old(self).learning_model,
            trainable(history@, now) ==> DefaultIntelligenceCore::spec_trained_model(
                final(self).learning_model,
                history@,
                isp,
                now,
            ),
    {
        let base = window_filter(now, TRAINING_WINDOW_DAYS as u32);
        let samples = crate::samples::count_where(history, &base);
        if samples < MIN_TRAINING_SAMPLES {
            return;
        }
        self.learning_model = PatternLearningModel::blank(now);
        self.learning_model.training_samples = crate::intelligence::count_to_u32(samples);
        proof {
            assert(self.learning_model.temporal_weights@ =~= unscored(24));
            assert(self.learning_model.weekly_weights@ =~= unscored(7));
            reveal_strlit("Default");
            reveal_strlit("High Stealth");
            assert("Default"@.len() == 7);
            assert("High Stealth"@.len() == 12);
        }
        self.learn_advanced_patterns(history, isp, now);
        if self.learning_model.temporal_weights.is_empty() {
            self.update_temporal_patterns(history, &base);
        }
        if self.learning_model.strategy_effectiveness.is_empty() {
            self.update_strategy_effectiveness(history, now);
        }
        if self.learning_model.isp_parameters.is_empty() {
            self.update_isp_parameters(isp);
        }
        self.calculate_model_confidence();
    }
}

} // verus!
