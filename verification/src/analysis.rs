//! The learning engine's answers: analysis, decision, status, and the
//! account of how well optimization does.

use crate::advisor::{
    best_place, hour_items, hour_list, recommendation_kinds, AdaptationAdvice, EXCELLENT_EFFECTIVENESS,
    HIGH_DETECTION, LOW_EFFECTIVENESS, RISKY_DETECTION, SWITCH_CONFIDENCE, SWITCH_IMPROVEMENT,
};
use crate::clock::{unix_now, valid_timestamp};
use crate::engine::{slots_below, table_slots_below};
use crate::fixed::{all_at_most, lemma_mean_bounds, mean_of, MAX_MAGNITUDE, SCALE};
use crate::intelligence::{
    baseline_comparison, improvements, largest_of, spec_baseline_comparison, window, window_filter,
    with_flag, BaselineComparison, DecisionReason, EffectivenessAnalysis, EffectivenessMetrics,
    ISPLearningParams, OptimizationDecision, OptimizationRecommendation, PatternAnalysis,
    RecommendationType, StrategyEffectiveness, SystemStatus, TimeRange, ACTIVATION_CONFIDENCE,
    MIN_TRAINING_SAMPLES, PEAK_WEIGHT, THROTTLING_WEIGHT, TRAINING_WINDOW_DAYS,
};
use crate::learner::{flagged, DefaultIntelligenceCore};
use crate::models::{ISPProfile, OptimizationStrategy, SpeedMeasurement, StealthLevel};
use crate::samples::{all_well_formed, count, count_where, select, select_values, Metric};
use crate::scoring::{
    analysis_confidence, significance, spec_analysis_confidence, spec_effectiveness_confidence,
    spec_significance,
};
use crate::text::push_decimal;
use vstd::prelude::*;
use vstd::string::*;

verus! {

/// The speed-up that a recommendation of more stealth promises, in millionths.
pub const STEALTH_GAIN: u64 = 1_200_000;

/// The speed-up that a recommendation of better timing promises, in millionths.
pub const TIMING_GAIN: u64 = 2_000_000;

/// The confidence of a recommendation of better timing, in millionths.
pub const TIMING_CONFIDENCE: u64 = 800_000;

/// Appends the numbers of `hours`, with a comma and a space between them, to `out`.
pub fn push_hour_items(out: &mut String, hours: &Vec<u8>)
    ensures
        final(out)@ == old(out)@ + hour_items(hours@),
{
    let ghost head = out@;
    let mut i: usize = 0;
    assert(hours@.take(0) =~= Seq::<u8>::empty());
    assert(head + hour_items(hours@.take(0)) =~= head);
    while i < hours.len()
        invariant
            i <= hours.len(),
            out@ == head + hour_items(hours@.take(i as int)),
        decreases hours.len() - i,
    {
        if i > 0 {
            out.append(", ");
        }
        push_decimal(out, hours[i] as u64);
        proof {
            let upto = hours@.take(i + 1);
            assert(upto.drop_last() =~= hours@.take(i as int));
            assert(upto.last() == hours@[i as int]);
            assert(out@ =~= head + hour_items(upto));
        }
        i = i + 1;
    }
    assert(hours@.take(hours.len() as int) =~= hours@);
}

/// The place of the best strategy of a list.
pub fn best_strategy(values: &Vec<StrategyEffectiveness>) -> (r: Option<usize>)
    ensures
        match r {
            Some(i) => best_place(values@) == Some(i as int) && i < values@.len(),
            None => best_place(values@) is None,
        },
{
    if values.len() == 0 {
        return None;
    }
    let mut best: usize = 0;
    let mut i: usize = 1;
    proof {
        let first = values@.take(1);
        assert(first.drop_last() =~= Seq::<StrategyEffectiveness>::empty());
        assert(best_place(first.drop_last()) is None);
        assert(best_place(first) == Some(0int));
    }
    while i < values.len()
        invariant
            1 <= i <= values.len(),
            best < i,
            best_place(values@.take(i as int)) == Some(best as int),
        decreases values.len() - i,
    {
        assert(values@.take(i + 1).drop_last() =~= values@.take(i as int));
        if values[i].avg_improvement >= values[best].avg_improvement {
            best = i;
        }
        i = i + 1;
    }
    assert(values@.take(values.len() as int) =~= values@);
    Some(best)
}

impl DefaultIntelligenceCore {
    /// What the strategy is that a provider's learned parameters call for.
    pub open spec fn spec_learned_strategy_matches(
        strategy: OptimizationStrategy,
        provider: Seq<char>,
        params: ISPLearningParams,
    ) -> bool {
        let cautious = params.detection_risk > HIGH_DETECTION;
        &&& strategy.id is None
        &&& strategy.name@ == "Learned-"@ + provider
        &&& strategy.server_rotation_interval_minutes == params.optimal_rotation_interval
        &&& strategy.packet_timing_min_ms == (if cautious {
            45_000i64
        } else {
            30_000i64
        })
        &&& strategy.packet_timing_max_ms == (if cautious {
            90_000i64
        } else {
            60_000i64
        })
        &&& strategy.connection_count == (if cautious {
            2u8
        } else {
            3u8
        })
        &&& strategy.traffic_intensity == params.optimal_traffic_intensity
        &&& strategy.stealth_level == params.optimal_stealth_level
        &&& strategy.effectiveness_score == Some(params.confidence as i64)
    }

    /// How optimized speeds compare with baseline speeds.
    pub fn calculate_baseline_comparison(&self, baseline: &Vec<u64>, optimized: &Vec<u64>) -> (r:
        BaselineComparison)
        requires
            all_at_most(baseline@, MAX_MAGNITUDE as int),
            all_at_most(optimized@, MAX_MAGNITUDE as int),
        ensures
            r == spec_baseline_comparison(baseline@, optimized@),
    {
        baseline_comparison(baseline, optimized)
    }

    /// How far the means of two groups of speeds lie apart.
    pub fn calculate_statistical_significance(&self, baseline: &Vec<u64>, optimized: &Vec<u64>) -> (r:
        u64)
        requires
            all_at_most(baseline@, MAX_MAGNITUDE as int),
            all_at_most(optimized@, MAX_MAGNITUDE as int),
        ensures
            r == spec_significance(baseline@, optimized@),
            r <= SCALE,
    {
        significance(baseline, optimized)
    }

    /// The confidence in an analysis of effectiveness that rests on `samples` samples.
    pub fn calculate_analysis_confidence(&self, samples: usize, effectiveness: &EffectivenessMetrics) -> (r:
        u64)
        requires
            self.well_formed(),
            effectiveness.confidence <= SCALE,
        ensures
            r == spec_analysis_confidence(
                samples as int,
                effectiveness.confidence as int,
                self.learning_model.model_confidence as int,
            ),
            r <= SCALE,
    {
        analysis_confidence(samples, effectiveness.confidence, self.learning_model.model_confidence)
    }

    /// `r` is the analysis of the history at `now`: the throttled hours
    /// as whole-hour ranges, the baseline speed, the confidence, the days of
    /// collection, and the provider's name where there are samples enough.
    pub open spec fn spec_analysis_matches(
        &self,
        r: PatternAnalysis,
        history: Seq<SpeedMeasurement>,
        isp: Option<&ISPProfile>,
        now: i64,
    ) -> bool {
        &&& r.throttling_periods@.len() == self.spec_throttled_hours(history, now).len()
        &&& forall|i: int|
            0 <= i < r.throttling_periods@.len() ==> (
            #[trigger] r.throttling_periods@[i]).is_whole_hour(
                self.spec_throttled_hours(history, now)[i],
            )
        &&& r.baseline_speed == self.spec_baseline_speed(history, now)
        &&& r.confidence_level == self.spec_confidence_level(history, now)
        &&& r.data_collection_days == self.spec_collection_days(history, now)
        &&& match r.isp_profile {
            Some(name) => self.spec_analysable(history, now) && isp is Some && name@
                == isp->0.name@,
            None => !self.spec_analysable(history, now) || isp is None,
        }
        &&& !self.spec_analysable(history, now) ==> r.confidence_level == 0
            && r.throttling_periods@.len() == 0
    }

    /// The analysis of the samples of the learning window. Fewer than
    /// fifty samples give an analysis without findings and without confidence.
    pub fn analyze_patterns(
        &self,
        history: &Vec<SpeedMeasurement>,
        isp: Option<&ISPProfile>,
        now: i64,
    ) -> (r: PatternAnalysis)
        requires
            self.well_formed(),
            all_well_formed(history@),
            valid_timestamp(now as int),
        ensures
            self.spec_analysis_matches(r, history@, isp, now),
    {
        let base = window_filter(now, self.min_learning_days);
        let samples = count_where(history, &base);
        if samples < MIN_TRAINING_SAMPLES {
            return PatternAnalysis {
                throttling_periods: Vec::new(),
                baseline_speed: 0,
                confidence_level: 0,
                data_collection_days: 0,
                isp_profile: None,
            };
        }
        let baseline = select_values(history, &flagged(&base, false), Metric::Download);
        proof {
            lemma_mean_bounds(baseline@, MAX_MAGNITUDE as int);
        }
        let hours = table_slots_below(&self.learning_model.temporal_weights, THROTTLING_WEIGHT);
        let mut periods: Vec<TimeRange> = Vec::new();
        let mut i: usize = 0;
        while i < hours.len()
            invariant
                i <= hours.len(),
                periods@.len() == i,
                forall|k: int| 0 <= k < i ==> (#[trigger] periods@[k]).is_whole_hour(hours@[k]),
            decreases hours.len() - i,
        {
            periods.push(TimeRange::whole_hour(hours[i]));
            i = i + 1;
        }
        PatternAnalysis {
            throttling_periods: periods,
            baseline_speed: mean_of(&baseline),
            confidence_level: self.learning_model.model_confidence,
            data_collection_days: crate::intelligence::count_to_u32(samples / 24),
            isp_profile: match isp {
                Some(profile) => Some(profile.name.clone()),
                None => None,
            },
        }
    }

    /// Whether optimization should be on, and why.
    pub fn should_optimize(
        &self,
        history: &Vec<SpeedMeasurement>,
        isp: Option<&ISPProfile>,
        now: i64,
    ) -> (r: OptimizationDecision)
        requires
            self.well_formed(),
            all_well_formed(history@),
            valid_timestamp(now as int),
        ensures
            r == self.spec_decision(history@, now),
    {
        let analysis = self.analyze_patterns(history, isp, now);
        let activate = analysis.confidence_level > ACTIVATION_CONFIDENCE && analysis.baseline_speed
            > 0 && analysis.throttling_periods.len() > 0;
        let reason = if activate {
            DecisionReason::ThrottlingDetected
        } else if analysis.confidence_level <= ACTIVATION_CONFIDENCE {
            DecisionReason::InsufficientConfidence
        } else {
            DecisionReason::NoThrottlingDetected
        };
        let estimated_improvement = if activate {
            Some(self.best_improvement())
        } else {
            None
        };
        OptimizationDecision {
            should_activate: activate,
            reason,
            confidence: analysis.confidence_level,
            estimated_improvement,
        }
    }

    /// The highest improvement of any strategy, and one whole at least.
    pub fn best_improvement(&self) -> (r: u64)
        ensures
            r == self.spec_best_improvement(),
    {
        let values = &self.learning_model.strategy_effectiveness.values;
        let mut list: Vec<u64> = Vec::new();
        let mut i: usize = 0;
        while i < values.len()
            invariant
                i <= values@.len(),
                list@ == improvements(values@.take(i as int)),
            decreases values@.len() - i,
        {
            list.push(values[i].avg_improvement);
            assert(list@ =~= improvements(values@.take(i + 1)));
            i = i + 1;
        }
        assert(values@.take(values@.len() as int) =~= values@);
        largest_of(&list, SCALE)
    }

    /// What the engine advises after a report of effectiveness. The model
    /// stays as it is.
    pub fn adapt_strategy(&self, effectiveness: u64) -> (r: AdaptationAdvice)
        ensures
            r == DefaultIntelligenceCore::spec_advice(effectiveness),
    {
        if effectiveness < LOW_EFFECTIVENESS {
            AdaptationAdvice::IncreaseStealth
        } else if effectiveness > EXCELLENT_EFFECTIVENESS {
            AdaptationAdvice::KeepStrategy
        } else {
            AdaptationAdvice::NoChange
        }
    }

    /// `r` is the status of the system at `now`: learning while the days
    /// of collection are fewer than wanted, optimizing where the analysis
    /// is confident, monitoring otherwise.
    pub open spec fn spec_status_matches(
        &self,
        r: SystemStatus,
        history: Seq<SpeedMeasurement>,
        now: i64,
    ) -> bool {
        if self.spec_collection_days(history, now) < self.min_learning_days {
            &&& r.state is Learning
            &&& r.message@ == SystemStatus::spec_learning_message(
                self.spec_collection_days(history, now),
                self.min_learning_days,
            )
            &&& r.data_collection_progress == Some(
                crate::intelligence::DataCollectionProgress::spec_new(
                    self.spec_collection_days(history, now),
                    self.min_learning_days,
                ),
            )
            &&& r.effectiveness is None
        } else if self.spec_confidence_level(history, now) > ACTIVATION_CONFIDENCE {
            &&& r.state is Optimizing
            &&& r.message@ == SystemStatus::spec_optimizing_message(
                self.spec_best_improvement() as u64,
            )
            &&& r.data_collection_progress is None
            &&& r.effectiveness == Some(
                EffectivenessMetrics {
                    improvement_factor: self.spec_best_improvement() as u64,
                    baseline_speed: self.spec_baseline_speed(history, now) as u64,
                    optimized_speed: (self.spec_baseline_speed(history, now) * 3 / 2) as u64,
                    confidence: self.spec_confidence_level(history, now) as u64,
                    last_updated: now,
                },
            )
        } else {
            &&& r.state is Monitoring
            &&& r.message@ == "Monitoring network patterns"@
            &&& r.data_collection_progress is None
            &&& r.effectiveness is None
        }
    }

    /// The state of the system: learning while the days of collection are
    /// fewer than wanted, optimizing where the analysis is confident,
    /// monitoring otherwise.
    pub fn get_status(
        &self,
        history: &Vec<SpeedMeasurement>,
        isp: Option<&ISPProfile>,
        now: i64,
    ) -> (r: SystemStatus)
        requires
            self.well_formed(),
            all_well_formed(history@),
            valid_timestamp(now as int),
        ensures
            self.spec_status_matches(r, history@, now),
    {
        let analysis = self.analyze_patterns(history, isp, now);
        if analysis.data_collection_days < self.min_learning_days {
            SystemStatus::learning(analysis.data_collection_days, self.min_learning_days)
        } else if analysis.confidence_level > ACTIVATION_CONFIDENCE {
            proof {
                crate::samples::lemma_values_in_range(
                    history@,
                    with_flag(self.spec_learning_window(now), false),
                    Metric::Download,
                );
                lemma_mean_bounds(
                    select(
                        history@,
                        with_flag(self.spec_learning_window(now), false),
                        Metric::Download,
                    ),
                    MAX_MAGNITUDE as int,
                );
            }
            SystemStatus::optimizing(
                EffectivenessMetrics {
                    improvement_factor: self.best_improvement(),
                    baseline_speed: analysis.baseline_speed,
                    optimized_speed: analysis.baseline_speed * 3 / 2,
                    confidence: analysis.confidence_level,
                    last_updated: now,
                },
            )
        } else {
            SystemStatus::monitoring()
        }
    }

    /// The strategy to use: the best stored one; or one made from what was
    /// learned about the provider; or the default strategy.
    pub fn get_optimal_strategy(
        &self,
        stored: Option<OptimizationStrategy>,
        isp: Option<&ISPProfile>,
    ) -> (r: Option<OptimizationStrategy>)
        requires
            self.well_formed(),
        ensures
            r is Some,
            stored is Some ==> r == stored,
            stored is None ==> match isp {
                Some(profile) => match self.learning_model.isp_parameters.spec_get(profile.name@) {
                    Some(params) => DefaultIntelligenceCore::spec_learned_strategy_matches(
                        r->0,
                        profile.name@,
                        params,
                    ),
                    None => r->0.name@ == "Default"@ && r->0.stealth_level
                        == StealthLevel::Medium,
                },
                None => r->0.name@ == "Default"@ && r->0.stealth_level == StealthLevel::Medium,
            },
    {
        if stored.is_some() {
            return stored;
        }
        if let Some(profile) = isp {
            if let Some(params) = self.learning_model.isp_parameters.get(profile.name.as_str()) {
                let cautious = params.detection_risk > HIGH_DETECTION;
                let mut name = String::from_str("Learned-");
                name.append(profile.name.as_str());
                proof {
                    crate::tables::lemma_position(
                        self.learning_model.isp_parameters.names@,
                        profile.name@,
                    );
                }
                assert(params.in_range());
                return Some(
                    OptimizationStrategy {
                        id: None,
                        name,
                        server_rotation_interval_minutes: params.optimal_rotation_interval,
                        packet_timing_min_ms: if cautious {
                            45_000
                        } else {
                            30_000
                        },
                        packet_timing_max_ms: if cautious {
                            90_000
                        } else {
                            60_000
                        },
                        connection_count: if cautious {
                            2
                        } else {
                            3
                        },
                        traffic_intensity: params.optimal_traffic_intensity as i64,
                        stealth_level: params.optimal_stealth_level,
                        effectiveness_score: Some(params.confidence as i64),
                        created_at: unix_now(),
                    },
                );
            }
        }
        Some(OptimizationStrategy::default_strategy())
    }
}

/// What an analysis of effectiveness reports where the samples are too few.
pub open spec fn no_comparison() -> BaselineComparison {
    BaselineComparison {
        baseline_speed: 0,
        optimized_speed: 0,
        improvement_factor: SCALE,
        significance: 0,
    }
}

impl DefaultIntelligenceCore {
    /// The recommendation `given` is the one of kind `kind` that the model gives rise to.
    pub open spec fn spec_recommendation_matches(
        &self,
        given: OptimizationRecommendation,
        kind: RecommendationType,
    ) -> bool {
        let strategies = self.learning_model.strategy_effectiveness;
        &&& given.recommendation_type == kind
        &&& match kind {
            RecommendationType::StealthAdjustment => {
                &&& given.description@ == "Increase stealth level to avoid ISP detection"@
                &&& given.expected_improvement == STEALTH_GAIN
                &&& given.confidence == self.learning_model.isp_parameters.values@[0].confidence
                &&& given.priority == 1
            },
            RecommendationType::StrategySwitch => {
                let best = best_place(strategies.values@)->0;
                &&& given.description@ == "Switch to '"@ + strategies.names@[best]@
                    + "' strategy for better performance"@
                &&& given.expected_improvement == strategies.values@[best].avg_improvement
                &&& given.confidence == strategies.values@[best].confidence
                &&& given.priority == 2
            },
            RecommendationType::TimingOptimization => {
                &&& given.description@ == "Focus optimization during peak throttling hours: "@
                    + hour_list(slots_below(self.learning_model.temporal_weights@, PEAK_WEIGHT))
                &&& given.expected_improvement == TIMING_GAIN
                &&& given.confidence == TIMING_CONFIDENCE
                &&& given.priority == 1
            },
            _ => false,
        }
    }

    /// `given` holds the recommendations that the model gives rise to, in their order.
    pub open spec fn spec_recommendations_match(&self, given: Seq<OptimizationRecommendation>) -> bool {
        let kinds = recommendation_kinds(
            self.learning_model.isp_parameters.values@,
            self.learning_model.strategy_effectiveness.values@,
            self.learning_model.temporal_weights@,
        );
        &&& given.len() == kinds.len()
        &&& forall|i: int|
            0 <= i < given.len() ==> self.spec_recommendation_matches(#[trigger] given[i], kinds[i])
    }

    /// Hints for the user: more stealth where the first provider's
    /// detection risk is high; a switch to the best strategy where it is
    /// good and certain enough; better timing where an hour is a peak of throttling.
    pub fn generate_recommendations(&self) -> (r: Vec<OptimizationRecommendation>)
        requires
            self.well_formed(),
        ensures
            self.spec_recommendations_match(r@),
    {
        let mut out: Vec<OptimizationRecommendation> = Vec::new();
        let providers = &self.learning_model.isp_parameters.values;
        let strategies = &self.learning_model.strategy_effectiveness;
        let ghost kinds = recommendation_kinds(
            providers@,
            strategies.values@,
            self.learning_model.temporal_weights@,
        );
        if providers.len() > 0 && providers[0].detection_risk > RISKY_DETECTION {
            out.push(
                OptimizationRecommendation {
                    recommendation_type: RecommendationType::StealthAdjustment,
                    description: String::from_str("Increase stealth level to avoid ISP detection"),
                    expected_improvement: STEALTH_GAIN,
                    confidence: providers[0].confidence,
                    priority: 1,
                },
            );
        }
        let ghost after_stealth = out@;
        if let Some(best) = best_strategy(&strategies.values) {
            let record = strategies.values[best];
            if record.avg_improvement > SWITCH_IMPROVEMENT && record.confidence
                > SWITCH_CONFIDENCE {
                let mut description = String::from_str("Switch to '");
                description.append(strategies.names[best].as_str());
                description.append("' strategy for better performance");
                out.push(
                    OptimizationRecommendation {
                        recommendation_type: RecommendationType::StrategySwitch,
                        description,
                        expected_improvement: record.avg_improvement,
                        confidence: record.confidence,
                        priority: 2,
                    },
                );
            }
        }
        let ghost after_switch = out@;
        let peaks = table_slots_below(&self.learning_model.temporal_weights, PEAK_WEIGHT);
        if peaks.len() > 0 {
            let mut description = String::from_str(
                "Focus optimization during peak throttling hours: ",
            );
            description.append("[");
            push_hour_items(&mut description, &peaks);
            description.append("]");
            assert(description@ =~= "Focus optimization during peak throttling hours: "@
                + hour_list(peaks@));
            out.push(
                OptimizationRecommendation {
                    recommendation_type: RecommendationType::TimingOptimization,
                    description,
                    expected_improvement: TIMING_GAIN,
                    confidence: TIMING_CONFIDENCE,
                    priority: 1,
                },
            );
        }
        proof {
            assert(out@.len() == kinds.len());
            assert forall|i: int| 0 <= i < out@.len() implies self.spec_recommendation_matches(
                #[trigger] out@[i],
                kinds[i],
            ) by {
                if i < after_stealth.len() {
                    assert(out@[i] == after_stealth[i]);
                } else if i < after_switch.len() {
                    assert(out@[i] == after_switch[i]);
                }
            }
        }
        out
    }

    /// The full account of how well optimization has done over the last
    /// thirty days; an account of nothing where the samples are fewer than fifty.
    pub fn analyze_effectiveness(&self, history: &Vec<SpeedMeasurement>, now: i64) -> (r:
        EffectivenessAnalysis)
        requires
            self.well_formed(),
            all_well_formed(history@),
            valid_timestamp(now as int),
        ensures
            r.current_effectiveness.last_updated == now,
            r.current_effectiveness.improvement_factor == r.baseline_comparison.improvement_factor,
            r.current_effectiveness.baseline_speed == r.baseline_comparison.baseline_speed,
            r.current_effectiveness.optimized_speed == r.baseline_comparison.optimized_speed,
            count(history@, window(now, TRAINING_WINDOW_DAYS as int)) < MIN_TRAINING_SAMPLES ==> {
                &&& r.baseline_comparison == no_comparison()
                &&& r.current_effectiveness.confidence == 0
                &&& r.strategy_rankings@.len() == 0
                &&& r.recommendations@.len() == 0
                &&& r.confidence == 0
            },
            count(history@, window(now, TRAINING_WINDOW_DAYS as int)) >= MIN_TRAINING_SAMPLES ==> {
                let base = window(now, TRAINING_WINDOW_DAYS as int);
                let baseline = select(history@, with_flag(base, false), Metric::Download);
                let optimized = select(history@, with_flag(base, true), Metric::Download);
                &&& r.baseline_comparison == spec_baseline_comparison(baseline, optimized)
                &&& r.current_effectiveness.confidence == spec_effectiveness_confidence(
                    optimized.len() as int,
                    baseline.len() as int,
                    r.baseline_comparison.improvement_factor as int,
                )
                &&& self.spec_rankings_match(r.strategy_rankings@)
                &&& self.spec_recommendations_match(r.recommendations@)
                &&& r.confidence == spec_analysis_confidence(
                    count(history@, base) as int,
                    r.current_effectiveness.confidence as int,
                    self.learning_model.model_confidence as int,
                )
            },
    {
        let base = window_filter(now, TRAINING_WINDOW_DAYS as u32);
        let samples = count_where(history, &base);
        if samples < MIN_TRAINING_SAMPLES {
            return EffectivenessAnalysis {
                current_effectiveness: EffectivenessMetrics {
                    improvement_factor: SCALE,
                    baseline_speed: 0,
                    optimized_speed: 0,
                    confidence: 0,
                    last_updated: now,
                },
                baseline_comparison: BaselineComparison {
                    baseline_speed: 0,
                    optimized_speed: 0,
                    improvement_factor: SCALE,
                    significance: 0,
                },
                strategy_rankings: Vec::new(),
                recommendations: Vec::new(),
                confidence: 0,
            };
        }
        let optimized = select_values(history, &flagged(&base, true), Metric::Download);
        let baseline = select_values(history, &flagged(&base, false), Metric::Download);
        let comparison = self.calculate_baseline_comparison(&baseline, &optimized);
        let current = EffectivenessMetrics {
            improvement_factor: comparison.improvement_factor,
            baseline_speed: comparison.baseline_speed,
            optimized_speed: comparison.optimized_speed,
            confidence: self.calculate_effectiveness_confidence(
                optimized.len(),
                baseline.len(),
                comparison.improvement_factor,
            ),
            last_updated: now,
        };
        let rankings = self.generate_strategy_rankings();
        let recommendations = self.generate_recommendations();
        let confidence = self.calculate_analysis_confidence(samples, &current);
        EffectivenessAnalysis {
            current_effectiveness: current,
            baseline_comparison: comparison,
            strategy_rankings: rankings,
            recommendations,
            confidence,
        }
    }
}

/// An engine that has learned nothing reports no throttled hour and no
/// confidence, whatever the history.
pub proof fn lemma_blank_engine_finds_nothing(engine: DefaultIntelligenceCore, history: Seq<SpeedMeasurement>, now: i64)
    requires
        engine.well_formed(),
        engine.learning_model.is_blank(),
    ensures
        engine.spec_throttled_hours(history, now).len() == 0,
        engine.spec_confidence_level(history, now) == 0,
        !engine.spec_should_activate(history, now),
{
    crate::tables::lemma_scored_bounds(engine.learning_model.temporal_weights@);
    crate::engine::lemma_slots_below(engine.learning_model.temporal_weights@, THROTTLING_WEIGHT);
}

/// With fewer than fifty samples in the learning window, an analysis has
/// no confidence and no throttled hour, and optimization is not switched on.
pub proof fn lemma_few_samples_give_no_findings(engine: DefaultIntelligenceCore, history: Seq<SpeedMeasurement>, now: i64)
    requires
        count(history, engine.spec_learning_window(now)) < MIN_TRAINING_SAMPLES,
    ensures
        engine.spec_confidence_level(history, now) == 0,
        engine.spec_throttled_hours(history, now).len() == 0,
        engine.spec_baseline_speed(history, now) == 0,
        engine.spec_decision(history, now).should_activate == false,
        engine.spec_decision(history, now).reason == DecisionReason::InsufficientConfidence,
{
}

/// A history of fewer than fifty samples gives an analysis without
/// confidence and without a throttled hour, whatever the engine has learned
/// and whenever it is asked.
pub proof fn lemma_short_history_gives_no_findings(engine: DefaultIntelligenceCore, history: Seq<SpeedMeasurement>, now: i64)
    requires
        history.len() < MIN_TRAINING_SAMPLES,
    ensures
        engine.spec_confidence_level(history, now) == 0,
        engine.spec_throttled_hours(history, now).len() == 0,
        !engine.spec_decision(history, now).should_activate,
        forall|r: PatternAnalysis, isp: Option<&ISPProfile>|
            engine.spec_analysis_matches(r, history, isp, now) ==> r.confidence_level == 0
                && r.throttling_periods@.len() == 0,
{
    crate::samples::lemma_select_len(
        history,
        engine.spec_learning_window(now),
        Metric::Download,
    );
    lemma_few_samples_give_no_findings(engine, history, now);
}

} // verus!
