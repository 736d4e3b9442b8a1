use isp_speedkarma::clock::Weekday;
use isp_speedkarma::engine::{learn_days, learn_hours, table_slots_below, weekday_from_index, Weighting};
use isp_speedkarma::intelligence::{
    all_days, count_to_u32, default_isp_params, largest_of, learned_isp_params, push_two_decimals,
    strategy_effectiveness, window_filter, ISPLearningParams, PatternLearningModel,
    StrategyEffectiveness,
};
use isp_speedkarma::learner::{flagged, DefaultIntelligenceCore};
use isp_speedkarma::models::{ISPProfile, OptimizationStrategy, SpeedMeasurement, StealthLevel};
use isp_speedkarma::samples::{select_values, Metric, SampleFilter};
use isp_speedkarma::tables::WeightTable;

/// Wednesday, the first of November 2023, at midnight UTC.
const WEDNESDAY: i64 = 1_698_796_800;
const DAY: i64 = 86_400;
const HOUR: i64 = 3_600;

/// A sample with a score of 0.58 at full confidence.
fn middling(timestamp: i64, optimized: bool) -> SpeedMeasurement {
    SpeedMeasurement {
        id: None,
        timestamp,
        download_kbps: 50_000,
        upload_kbps: 10_000,
        latency_ms: 100,
        optimization_active: optimized,
        confidence: 1_000_000,
    }
}

fn with_speed(timestamp: i64, download_kbps: i64, optimized: bool) -> SpeedMeasurement {
    SpeedMeasurement { download_kbps, ..middling(timestamp, optimized) }
}

/// A sample with a score of one whole.
fn perfect(timestamp: i64, optimized: bool) -> SpeedMeasurement {
    SpeedMeasurement {
        id: None,
        timestamp,
        download_kbps: 100_000,
        upload_kbps: 20_000,
        latency_ms: 0,
        optimization_active: optimized,
        confidence: 1_000_000,
    }
}

/// A sample with a score of a twentieth.
fn poor(timestamp: i64, optimized: bool) -> SpeedMeasurement {
    SpeedMeasurement {
        id: None,
        timestamp,
        download_kbps: 10_000,
        upload_kbps: 0,
        latency_ms: 1_000,
        optimization_active: optimized,
        confidence: 1_000_000,
    }
}

fn hutch() -> ISPProfile {
    ISPProfile::new("Hutch".to_string(), "Sri Lanka".to_string(), "dns".to_string())
}

fn neighbourly() -> ISPProfile {
    ISPProfile::new("Neighbourly Net".to_string(), "Iceland".to_string(), "dns".to_string())
}

/// Three samples at ten o'clock and two at eleven, all on one Wednesday.
fn morning() -> Vec<SpeedMeasurement> {
    vec![
        middling(WEDNESDAY + 10 * HOUR, false),
        middling(WEDNESDAY + 10 * HOUR + 60, false),
        middling(WEDNESDAY + 10 * HOUR + 120, false),
        middling(WEDNESDAY + 11 * HOUR, false),
        middling(WEDNESDAY + 11 * HOUR + 60, false),
    ]
}

#[test]
fn days_are_counted_from_monday() {
    let days: Vec<Weekday> = (0..7).map(weekday_from_index).collect();
    assert_eq!(
        days,
        vec![
            Weekday::Mon,
            Weekday::Tue,
            Weekday::Wed,
            Weekday::Thu,
            Weekday::Fri,
            Weekday::Sat,
            Weekday::Sun
        ]
    );
    assert_eq!(all_days(), vec![0, 1, 2, 3, 4, 5, 6]);
}

#[test]
fn slots_below_a_threshold_come_in_rising_order() {
    let mut table = WeightTable::new(24);
    table.insert(20, 599_999);
    table.insert(3, 500_000);
    table.insert(5, 700_000);
    table.insert(7, 600_000);
    assert_eq!(table_slots_below(&table, 600_000), vec![3, 20]);
    assert_eq!(table_slots_below(&table, 0), Vec::<u8>::new());
    assert_eq!(table_slots_below(&table, 1_000_000), vec![3, 5, 7, 20]);
    assert_eq!(table_slots_below(&WeightTable::new(24), 600_000), Vec::<u8>::new());
}

#[test]
fn hours_are_learned_from_buckets_that_are_large_enough() {
    let samples = morning();
    let mut table = WeightTable::new(24);
    table.insert(11, 123_456);
    learn_hours(&mut table, &samples, &SampleFilter::all(), Weighting::Plain);
    assert_eq!(table.get(10), Some(580_000));
    // Two samples are too few: what was there stays.
    assert_eq!(table.get(11), Some(123_456));
    assert_eq!(table.get(12), None);
    assert_eq!(table.len(), 2);

    let mut table = WeightTable::new(24);
    learn_hours(&mut table, &samples, &SampleFilter::all(), Weighting::Consistent);
    assert!(table.is_empty());
}

#[test]
fn days_are_learned_from_buckets_that_are_large_enough() {
    let samples = morning();
    let mut table = WeightTable::new(7);
    learn_days(&mut table, &samples, &SampleFilter::all(), Weighting::Consistent);
    // Five equal scores do not vary, so the weight is their mean.
    assert_eq!(table.get(2), Some(580_000));
    assert_eq!(table.len(), 1);

    let mut table = WeightTable::new(7);
    learn_days(&mut table, &samples, &SampleFilter::since(WEDNESDAY + 11 * HOUR), Weighting::Plain);
    assert!(table.is_empty());
    learn_days(&mut table, &samples, &SampleFilter::since(WEDNESDAY + 10 * HOUR + 120), Weighting::Plain);
    assert_eq!(table.get(2), Some(580_000));
}

#[test]
fn the_plain_step_fills_hours_and_days() {
    let mut engine = DefaultIntelligenceCore::new();
    engine.update_temporal_patterns(&morning(), &SampleFilter::all());
    assert_eq!(engine.learning_model.temporal_weights.get(10), Some(580_000));
    assert_eq!(engine.learning_model.temporal_weights.get(11), None);
    assert_eq!(engine.learning_model.weekly_weights.get(2), Some(580_000));
    assert_eq!(engine.learning_model.weekly_weights.get(3), None);
    assert!(engine.learning_model.strategy_effectiveness.is_empty());
    assert!(engine.learning_model.isp_parameters.is_empty());
    assert_eq!(engine.learning_model.model_confidence, 0);
}

#[test]
fn the_consistent_step_wants_five_samples() {
    let mut engine = DefaultIntelligenceCore::new();
    engine.learn_temporal_patterns_advanced(&morning(), &SampleFilter::all());
    assert!(engine.learning_model.temporal_weights.is_empty());
    assert_eq!(engine.learning_model.weekly_weights.get(2), Some(580_000));
}

#[test]
fn a_provider_is_noted_with_what_is_assumed_of_it() {
    let mut engine = DefaultIntelligenceCore::new();
    engine.update_isp_parameters(None);
    assert!(engine.learning_model.isp_parameters.is_empty());
    engine.update_isp_parameters(Some(&hutch()));
    engine.update_isp_parameters(Some(&neighbourly()));
    assert_eq!(engine.learning_model.isp_parameters.len(), 2);
    assert_eq!(
        engine.learning_model.isp_parameters.get("Hutch"),
        Some(ISPLearningParams {
            optimal_stealth_level: StealthLevel::High,
            optimal_rotation_interval: 10,
            optimal_traffic_intensity: 500_000,
            detection_risk: 700_000,
            confidence: 600_000,
        })
    );
    assert_eq!(
        engine.learning_model.isp_parameters.get("Neighbourly Net"),
        Some(ISPLearningParams {
            optimal_stealth_level: StealthLevel::Medium,
            optimal_rotation_interval: 10,
            optimal_traffic_intensity: 500_000,
            detection_risk: 300_000,
            confidence: 600_000,
        })
    );
    assert_eq!(default_isp_params(true), engine.learning_model.isp_parameters.get("Hutch").unwrap());
}

#[test]
fn a_provider_is_learned_from_twenty_optimized_samples() {
    let good: Vec<SpeedMeasurement> =
        (0..20).map(|k| perfect(WEDNESDAY + 20 * HOUR + k * 60, true)).collect();
    let mut engine = DefaultIntelligenceCore::new();
    engine.learn_isp_patterns(&good[..19].to_vec(), &SampleFilter::all(), Some(&hutch()));
    assert!(engine.learning_model.isp_parameters.is_empty());
    engine.learn_isp_patterns(&good, &SampleFilter::all(), None);
    assert!(engine.learning_model.isp_parameters.is_empty());

    engine.learn_isp_patterns(&good, &SampleFilter::all(), Some(&hutch()));
    assert_eq!(
        engine.learning_model.isp_parameters.get("Hutch"),
        Some(ISPLearningParams {
            optimal_stealth_level: StealthLevel::High,
            optimal_rotation_interval: 10,
            optimal_traffic_intensity: 500_000,
            detection_risk: 600_000,
            confidence: 400_000,
        })
    );
    assert_eq!(
        learned_isp_params(true, 1_000_000, 20),
        engine.learning_model.isp_parameters.get("Hutch").unwrap()
    );

    // Optimization that does little calls for the most stealth.
    let bad: Vec<SpeedMeasurement> =
        (0..60).map(|k| poor(WEDNESDAY + 20 * HOUR + k * 60, true)).collect();
    engine.learn_isp_patterns(&bad, &SampleFilter::all(), Some(&hutch()));
    assert_eq!(
        engine.learning_model.isp_parameters.get("Hutch"),
        Some(ISPLearningParams {
            optimal_stealth_level: StealthLevel::Maximum,
            optimal_rotation_interval: 5,
            optimal_traffic_intensity: 300_000,
            detection_risk: 900_000,
            confidence: 1_000_000,
        })
    );
    engine.learn_isp_patterns(&bad, &SampleFilter::all(), Some(&neighbourly()));
    assert_eq!(
        engine.learning_model.isp_parameters.get("Neighbourly Net").unwrap().optimal_stealth_level,
        StealthLevel::Medium
    );
    assert_eq!(engine.learning_model.isp_parameters.len(), 2);
}

#[test]
fn samples_without_the_flag_teach_nothing_of_a_provider() {
    let baseline: Vec<SpeedMeasurement> =
        (0..30).map(|k| perfect(WEDNESDAY + 20 * HOUR + k * 60, false)).collect();
    let mut engine = DefaultIntelligenceCore::new();
    engine.learn_isp_patterns(&baseline, &SampleFilter::all(), Some(&hutch()));
    assert!(engine.learning_model.isp_parameters.is_empty());
}

#[test]
fn a_filter_is_narrowed_by_the_flag() {
    let base = SampleFilter::since(77);
    let on = flagged(&base, true);
    assert_eq!(on.optimized, Some(true));
    assert_eq!(on.since, Some(77));
    assert_eq!(flagged(&on, false).optimized, Some(false));
    assert_eq!(flagged(&base, false).hour, None);
}

/// Ten baseline samples at 20 Mbit/s and ten optimized ones at 30 Mbit/s,
/// five of them in the last week before `now` and five before that.
fn both_sides(now: i64) -> Vec<SpeedMeasurement> {
    let mut samples = Vec::new();
    for k in 0..10 {
        samples.push(with_speed(now - 10 * DAY + k * 60, 20_000, false));
    }
    for k in 0..5 {
        samples.push(with_speed(now - 8 * DAY + k * 60, 25_000, true));
    }
    for k in 0..5 {
        samples.push(with_speed(now - 2 * DAY + k * 60, 35_000, true));
    }
    samples
}

#[test]
fn effectiveness_is_learned_from_ten_samples_a_side() {
    let now = WEDNESDAY + 20 * DAY;
    let samples = both_sides(now);
    let mut engine = DefaultIntelligenceCore::new();
    engine.learn_effectiveness_patterns(&samples[1..].to_vec(), &SampleFilter::all(), now);
    assert!(engine.learning_model.strategy_effectiveness.is_empty());

    engine.learn_effectiveness_patterns(&samples, &SampleFilter::all(), now);
    assert_eq!(engine.learning_model.strategy_effectiveness.len(), 1);
    assert_eq!(
        engine.learning_model.strategy_effectiveness.get("Default"),
        Some(StrategyEffectiveness {
            avg_improvement: 1_500_000,
            sample_count: 10,
            success_rate: 1_000_000,
            // Twenty samples give a fifth of six tenths; the improvement gives 0.8 of four tenths.
            confidence: 440_000,
            // 35 Mbit/s after 25 Mbit/s.
            trend: 400_000,
            last_used: now,
        })
    );
}

#[test]
fn the_built_in_strategies_are_rated_alike() {
    let now = WEDNESDAY + 20 * DAY;
    let samples = both_sides(now);
    let mut engine = DefaultIntelligenceCore::new();
    engine.update_strategy_effectiveness(&samples, now);
    let rated = StrategyEffectiveness {
        avg_improvement: 1_500_000,
        sample_count: 10,
        success_rate: 1_000_000,
        confidence: 440_000,
        trend: 0,
        last_used: now,
    };
    assert_eq!(engine.learning_model.strategy_effectiveness.len(), 2);
    assert_eq!(engine.learning_model.strategy_effectiveness.get("Default"), Some(rated));
    assert_eq!(engine.learning_model.strategy_effectiveness.get("High Stealth"), Some(rated));
    assert_eq!(
        engine.calculate_strategy_effectiveness(
            &OptimizationStrategy::default_strategy(),
            &samples,
            now
        ),
        rated
    );
    let window = window_filter(now, 14);
    assert_eq!(
        strategy_effectiveness(
            &select_values(&samples, &flagged(&window, false), Metric::Download),
            &select_values(&samples, &flagged(&window, true), Metric::Download),
            now
        ),
        rated
    );

    // A fortnight on, nothing is known of either.
    engine.update_strategy_effectiveness(&samples, now + 14 * DAY);
    assert_eq!(
        engine.learning_model.strategy_effectiveness.get("Default"),
        Some(StrategyEffectiveness::unknown(now + 14 * DAY))
    );
}

#[test]
fn the_advanced_step_wants_a_hundred_samples() {
    let now = WEDNESDAY + 20 * DAY;
    let mut engine = DefaultIntelligenceCore::new();
    engine.learn_advanced_patterns(&both_sides(now), Some(&hutch()), now);
    assert!(engine.learning_model.temporal_weights.is_empty());
    assert!(engine.learning_model.weekly_weights.is_empty());
    assert!(engine.learning_model.strategy_effectiveness.is_empty());
    assert!(engine.learning_model.isp_parameters.is_empty());
    assert_eq!(engine.learning_model.model_confidence, 0);

    let mut samples = both_sides(now);
    for k in 0..80 {
        samples.push(middling(now - 5 * DAY + 10 * HOUR + k, false));
    }
    engine.learn_advanced_patterns(&samples, Some(&hutch()), now);
    assert_eq!(engine.learning_model.temporal_weights.get(10), Some(580_000));
    // The twenty samples of both sides were all taken in the first hour of a day.
    assert!(engine.learning_model.temporal_weights.get(0).is_some());
    assert_eq!(engine.learning_model.temporal_weights.len(), 2);
    // Five days before a Tuesday is a Thursday.
    assert_eq!(engine.learning_model.weekly_weights.get(3), Some(580_000));
    assert_eq!(engine.learning_model.strategy_effectiveness.len(), 1);
    // Ten optimized samples are too few to learn of the provider.
    assert!(engine.learning_model.isp_parameters.is_empty());
    assert!(engine.learning_model.model_confidence > 0);
    assert_eq!(engine.learning_model.training_samples, 0);
}

#[test]
fn a_window_reaches_back_by_days() {
    let filter = window_filter(WEDNESDAY, 30);
    assert_eq!(filter.since, Some(WEDNESDAY - 30 * DAY));
    assert_eq!(filter.optimized, None);
    assert_eq!(filter.until, None);
    assert_eq!(window_filter(WEDNESDAY, 0).since, Some(WEDNESDAY));
}

#[test]
fn small_helpers_have_their_exact_values() {
    assert_eq!(count_to_u32(0), 0);
    assert_eq!(count_to_u32(4_294_967_295), u32::MAX);
    assert_eq!(count_to_u32(4_294_967_296), u32::MAX);
    assert_eq!(largest_of(&vec![3, 9, 4], 5), 9);
    assert_eq!(largest_of(&vec![3, 4], 5), 5);
    assert_eq!(largest_of(&vec![], 5), 5);
    let mut text = String::from("x");
    push_two_decimals(&mut text, 1_259_999);
    assert_eq!(text, "x1.25");
    let mut text = String::new();
    push_two_decimals(&mut text, 12_000_000);
    push_two_decimals(&mut text, 9_999);
    assert_eq!(text, "12.000.00");
}

#[test]
fn a_blank_model_is_dated_and_empty() {
    let model = PatternLearningModel::blank(WEDNESDAY);
    assert_eq!(model.last_updated, WEDNESDAY);
    assert!(model.temporal_weights.is_empty());
    assert!(model.weekly_weights.is_empty());
    assert!(model.strategy_effectiveness.is_empty());
    assert!(model.isp_parameters.is_empty());
    assert_eq!(model.model_confidence, 0);
    assert_eq!(model.training_samples, 0);
    assert_eq!(model.temporal_weights.size(), 24);
    assert_eq!(model.weekly_weights.size(), 7);
}
