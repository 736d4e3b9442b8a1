//! What the learning engine tells its callers: the analysis of the history,
//! the decision, the status, rankings and recommendations.

use crate::engine::{slots_below, table_slots_below};
use crate::fixed::{mean, SCALE};
use crate::intelligence::{
    improvements, largest_from, stored_count, window, with_flag, DecisionReason, ISPLearningParams,
    OptimizationDecision, RecommendationType, StrategyEffectiveness, StrategyRanking,
    ACTIVATION_CONFIDENCE, MIN_TRAINING_SAMPLES, PEAK_WEIGHT, THROTTLING_WEIGHT,
};
use crate::learner::DefaultIntelligenceCore;
use crate::models::SpeedMeasurement;
use crate::order::{arranged, is_stable_order, ranked, stable_order, stable_order_of};
use crate::samples::{count, select, Metric, SampleFilter};
use crate::text::decimal;
use vstd::prelude::*;

verus! {

/// The detection risk above which more stealth is recommended, in millionths.
pub const RISKY_DETECTION: u64 = 600_000;

/// The detection risk above which a learned strategy is made cautious, in millionths.
pub const HIGH_DETECTION: u64 = 700_000;

/// The improvement above which a switch of strategy is recommended, in millionths.
pub const SWITCH_IMPROVEMENT: u64 = 1_500_000;

/// The confidence above which a switch of strategy is recommended, in millionths.
pub const SWITCH_CONFIDENCE: u64 = 700_000;

/// The effectiveness below which more stealth is advised, in millionths.
pub const LOW_EFFECTIVENESS: u64 = 1_200_000;

/// The effectiveness above which the strategy is best left alone, in millionths.
pub const EXCELLENT_EFFECTIVENESS: u64 = 2_500_000;

/// The hours of the day with their optimization scores, one whole less the
/// hour's weight, for the hours whose weight marks them as throttled.
pub open spec fn hour_scores(slots: Seq<Option<u64>>) -> Seq<(u8, u64)> {
    let hours = slots_below(slots, THROTTLING_WEIGHT);
    Seq::new(hours.len(), |i: int| (hours[i], (SCALE - slots[hours[i] as int]->0) as u64))
}

/// The scores of a list of hours with scores.
pub open spec fn scores_of(pairs: Seq<(u8, u64)>) -> Seq<u64> {
    Seq::new(pairs.len(), |i: int| pairs[i].1)
}

/// The place of the best strategy: the one of the highest improvement, and
/// of several such the last.
pub open spec fn best_place(values: Seq<StrategyEffectiveness>) -> Option<int>
    decreases values.len(),
{
    if values.len() == 0 {
        None
    } else {
        match best_place(values.drop_last()) {
            Some(i) => if values.last().avg_improvement >= values[i].avg_improvement {
                Some(values.len() - 1)
            } else {
                Some(i)
            },
            None => Some(values.len() - 1),
        }
    }
}

/// The numbers of `hours` between square brackets, with a comma and a space between them.
pub open spec fn hour_list(hours: Seq<u8>) -> Seq<char> {
    "["@ + hour_items(hours) + "]"@
}

/// The numbers of `hours` with a comma and a space between them.
pub open spec fn hour_items(hours: Seq<u8>) -> Seq<char>
    decreases hours.len(),
{
    if hours.len() == 0 {
        Seq::empty()
    } else if hours.len() == 1 {
        decimal(hours[0] as nat)
    } else {
        hour_items(hours.drop_last()) + ", "@ + decimal(hours.last() as nat)
    }
}

/// What the engine advises after a report of effectiveness.
#[derive(Debug, Clone, Copy, PartialEq, Eq, Structural)]
pub enum AdaptationAdvice {
    /// Optimization gains too little: more stealth may help.
    IncreaseStealth,
    /// Optimization gains a great deal: leave the strategy alone.
    KeepStrategy,
    /// Nothing to say.
    NoChange,
}

/// The kinds of recommendation that a model gives rise to, in the order in
/// which they are listed.
pub open spec fn recommendation_kinds(
    providers: Seq<ISPLearningParams>,
    strategies: Seq<StrategyEffectiveness>,
    hours: Seq<Option<u64>>,
) -> Seq<RecommendationType> {
    let stealth: Seq<RecommendationType> = if providers.len() > 0 && providers[0].detection_risk
        > RISKY_DETECTION {
        seq![RecommendationType::StealthAdjustment]
    } else {
        Seq::empty()
    };
    let switch: Seq<RecommendationType> = if best_place(strategies) matches Some(i)
        && strategies[i].avg_improvement > SWITCH_IMPROVEMENT && strategies[i].confidence
        > SWITCH_CONFIDENCE {
        seq![RecommendationType::StrategySwitch]
    } else {
        Seq::empty()
    };
    let timing: Seq<RecommendationType> = if slots_below(hours, PEAK_WEIGHT).len() > 0 {
        seq![RecommendationType::TimingOptimization]
    } else {
        Seq::empty()
    };
    stealth + switch + timing
}

impl DefaultIntelligenceCore {
    /// The samples of the last `min_learning_days` days.
    pub open spec fn spec_learning_window(&self, now: i64) -> SampleFilter {
        window(now, self.min_learning_days as int)
    }

    /// Whether the learning window holds enough samples to be analysed.
    pub open spec fn spec_analysable(&self, history: Seq<SpeedMeasurement>, now: i64) -> bool {
        count(history, self.spec_learning_window(now)) >= MIN_TRAINING_SAMPLES
    }

    /// The hours that an analysis reports as throttled.
    pub open spec fn spec_throttled_hours(&self, history: Seq<SpeedMeasurement>, now: i64) -> Seq<u8> {
        if self.spec_analysable(history, now) {
            slots_below(self.learning_model.temporal_weights@, THROTTLING_WEIGHT)
        } else {
            Seq::empty()
        }
    }

    /// The baseline speed that an analysis reports: the mean download speed
    /// of the window's samples without optimization.
    pub open spec fn spec_baseline_speed(&self, history: Seq<SpeedMeasurement>, now: i64) -> int {
        if self.spec_analysable(history, now) {
            mean(select(history, with_flag(self.spec_learning_window(now), false), Metric::Download))
        } else {
            0
        }
    }

    /// The confidence that an analysis reports: the model's, or nothing
    /// where the samples are too few.
    pub open spec fn spec_confidence_level(&self, history: Seq<SpeedMeasurement>, now: i64) -> int {
        if self.spec_analysable(history, now) {
            self.learning_model.model_confidence as int
        } else {
            0
        }
    }

    /// The days of collection that an analysis reports: a day for every
    /// twenty-four samples of the window.
    pub open spec fn spec_collection_days(&self, history: Seq<SpeedMeasurement>, now: i64) -> u32 {
        if self.spec_analysable(history, now) {
            stored_count(count(history, self.spec_learning_window(now)) as int / 24)
        } else {
            0
        }
    }

    /// Whether optimization should be on: the analysis is confident, knows
    /// a baseline speed and has found a throttled hour.
    pub open spec fn spec_should_activate(&self, history: Seq<SpeedMeasurement>, now: i64) -> bool {
        &&& self.spec_confidence_level(history, now) > ACTIVATION_CONFIDENCE
        &&& self.spec_baseline_speed(history, now) > 0
        &&& self.spec_throttled_hours(history, now).len() > 0
    }

    /// The highest improvement of any strategy, and one whole at least.
    pub open spec fn spec_best_improvement(&self) -> int {
        largest_from(improvements(self.learning_model.strategy_effectiveness.values@), SCALE as int)
    }

    /// Whether optimization should be on at `now`, and why: on where the
    /// confidence is above six tenths, the baseline speed above nothing and
    /// an hour throttled; else off, for want of confidence first.
    pub open spec fn spec_decision(&self, history: Seq<SpeedMeasurement>, now: i64) -> OptimizationDecision {
        let activate = self.spec_should_activate(history, now);
        OptimizationDecision {
            should_activate: activate,
            reason: if activate {
                DecisionReason::ThrottlingDetected
            } else if self.spec_confidence_level(history, now) <= ACTIVATION_CONFIDENCE {
                DecisionReason::InsufficientConfidence
            } else {
                DecisionReason::NoThrottlingDetected
            },
            confidence: self.spec_confidence_level(history, now) as u64,
            estimated_improvement: if activate {
                Some(self.spec_best_improvement() as u64)
            } else {
                None
            },
        }
    }

    /// What is advised after a report of effectiveness: more stealth
    /// under a gain of a fifth, to keep the strategy above two and a half
    /// times, else nothing.
    pub open spec fn spec_advice(effectiveness: u64) -> AdaptationAdvice {
        if effectiveness < LOW_EFFECTIVENESS {
            AdaptationAdvice::IncreaseStealth
        } else if effectiveness > EXCELLENT_EFFECTIVENESS {
            AdaptationAdvice::KeepStrategy
        } else {
            AdaptationAdvice::NoChange
        }
    }

    /// The throttled hours with their optimization scores, the best first;
    /// hours of equal score in rising order.
    pub fn predict_optimal_times(&self) -> (r: Vec<(u8, u64)>)
        requires
            self.well_formed(),
        ensures
            r@ == ranked(
                hour_scores(self.learning_model.temporal_weights@),
                scores_of(hour_scores(self.learning_model.temporal_weights@)),
                true,
            ),
    {
        let hours = table_slots_below(&self.learning_model.temporal_weights, THROTTLING_WEIGHT);
        proof {
            crate::engine::lemma_slots_below(
                self.learning_model.temporal_weights@,
                THROTTLING_WEIGHT,
            );
        }
        let ghost pairs = hour_scores(self.learning_model.temporal_weights@);
        let mut keys: Vec<u64> = Vec::new();
        let mut i: usize = 0;
        while i < hours.len()
            invariant
                i <= hours.len(),
                self.well_formed(),
                hours@ == slots_below(self.learning_model.temporal_weights@, THROTTLING_WEIGHT),
                pairs == hour_scores(self.learning_model.temporal_weights@),
                forall|j: int|
                    0 <= j < hours@.len() ==> {
                        let k = #[trigger] hours@[j];
                        k < 24 && self.learning_model.temporal_weights@[k as int] is Some
                            && self.learning_model.temporal_weights@[k as int]->0
                            < THROTTLING_WEIGHT
                    },
                keys@.len() == i,
                forall|j: int| 0 <= j < i ==> #[trigger] keys@[j] == pairs[j].1,
            decreases hours.len() - i,
        {
            let hour = hours[i];
            assert(hours@[i as int] == hour);
            let weight = match self.learning_model.temporal_weights.get(hour as usize) {
                Some(w) => w,
                None => 0,
            };
            keys.push(SCALE - weight);
            i = i + 1;
        }
        assert(keys@ =~= scores_of(pairs));
        let order = stable_order(&keys, true);
        let mut out: Vec<(u8, u64)> = Vec::new();
        let mut j: usize = 0;
        while j < order.len()
            invariant
                j <= order.len(),
                order@.len() == hours@.len(),
                keys@.len() == hours@.len(),
                pairs.len() == hours@.len(),
                is_stable_order(keys@, true, order@),
                order@ == stable_order_of(keys@, true),
                keys@ == scores_of(pairs),
                forall|k: int| 0 <= k < hours@.len() ==> #[trigger] pairs[k] == (hours@[k], keys@[k]),
                out@.len() == j,
                forall|k: int| 0 <= k < j ==> #[trigger] out@[k] == pairs[order@[k] as int],
            decreases order.len() - j,
        {
            let place = order[j];
            assert(order@[j as int] < keys@.len());
            out.push((hours[place], keys[place]));
            j = j + 1;
        }
        assert(out@ =~= arranged(pairs, order@));
        out
    }

    /// `rankings` lists the strategies by falling improvement, strategies
    /// of equal improvement in the order of the table, each with its
    /// improvement less one whole, its confidence and its samples.
    pub open spec fn spec_rankings_match(&self, rankings: Seq<StrategyRanking>) -> bool {
        &&& rankings.len() == self.learning_model.strategy_effectiveness.spec_len()
        &&& forall|i: int|
            0 <= i < rankings.len() ==> {
                let place = stable_order_of(
                    improvements(self.learning_model.strategy_effectiveness.values@),
                    true,
                )[i] as int;
                let record = self.learning_model.strategy_effectiveness.values@[place];
                &&& (#[trigger] rankings[i]).strategy_name@
                    == self.learning_model.strategy_effectiveness.names@[place]@
                &&& rankings[i].effectiveness_score == record.avg_improvement - SCALE
                &&& rankings[i].confidence == record.confidence
                &&& rankings[i].sample_count == record.sample_count
            }
    }

    /// The strategies by falling improvement; strategies of equal
    /// improvement in the order of the table.
    pub fn generate_strategy_rankings(&self) -> (r: Vec<StrategyRanking>)
        requires
            self.well_formed(),
        ensures
            self.spec_rankings_match(r@),
    {
        let table = &self.learning_model.strategy_effectiveness;
        let mut keys: Vec<u64> = Vec::new();
        let mut i: usize = 0;
        while i < table.values.len()
            invariant
                i <= table.values@.len(),
                keys@ == improvements(table.values@.take(i as int)),
            decreases table.values@.len() - i,
        {
            keys.push(table.values[i].avg_improvement);
            assert(keys@ =~= improvements(table.values@.take(i + 1)));
            i = i + 1;
        }
        assert(table.values@.take(table.values@.len() as int) =~= table.values@);
        let order = stable_order(&keys, true);
        let mut out: Vec<StrategyRanking> = Vec::new();
        let mut j: usize = 0;
        while j < order.len()
            invariant
                j <= order.len(),
                table.well_formed(),
                self.well_formed(),
                *table == self.learning_model.strategy_effectiveness,
                keys@ == improvements(table.values@),
                is_stable_order(keys@, true, order@),
                order@ == stable_order_of(keys@, true),
                out@.len() == j,
                forall|k: int|
                    0 <= k < j ==> {
                        let place = order@[k] as int;
                        let record = table.values@[place];
                        &&& (#[trigger] out@[k]).strategy_name@ == table.names@[place]@
                        &&& out@[k].effectiveness_score == record.avg_improvement - SCALE
                        &&& out@[k].confidence == record.confidence
                        &&& out@[k].sample_count == record.sample_count
                    },
            decreases order.len() - j,
        {
            let place = order[j];
            assert(order@[j as int] < keys@.len());
            let record = table.values[place];
            assert(record.in_range());
            let score: i64 = record.avg_improvement as i64 - SCALE as i64;
            out.push(
                StrategyRanking {
                    strategy_name: table.names[place].clone(),
                    effectiveness_score: score,
                    confidence: record.confidence,
                    sample_count: record.sample_count,
                },
            );
            j = j + 1;
        }
        out
    }
}

} // verus!
