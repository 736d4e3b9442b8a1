use isp_speedkarma::clock::{WallClock, Weekday};
use isp_speedkarma::learner::DefaultIntelligenceCore;
use isp_speedkarma::models::{ISPProfile, SpeedMeasurement, ThrottlingPattern};

const DAY: i64 = 86_400;
const HOUR: i64 = 3_600;
// 2023-12-01 00:00:00 UTC.
const NOW: i64 = 1_698_796_800 + 30 * DAY;

fn kbps(mbps: f64) -> i64 {
    (mbps * 1000.0).round() as i64
}

fn ppm(ratio: f64) -> u64 {
    (ratio * 1_000_000.0).round() as u64
}

/// A provider, its throttling patterns, thirty days of samples and a new engine
fn setup_comprehensive_test_environment() -> (ISPProfile, Vec<SpeedMeasurement>, DefaultIntelligenceCore) {
    let intelligence = DefaultIntelligenceCore::new();

    // Create realistic ISP profile
    let isp_profile = ISPProfile::new(
        "Hutch".to_string(),
        "Sri Lanka".to_string(),
        "DNS Analysis + Public IP".to_string(),
    );
    assert!(isp_profile.validate().is_ok());

    // Add realistic throttling patterns
    let evening_pattern = ThrottlingPattern::new(
        1,
        19,
        0, // 7 PM
        22,
        0, // 10 PM
        vec![Weekday::Mon, Weekday::Tue, Weekday::Wed, Weekday::Thu, Weekday::Fri],
        ppm(0.8) as i64, // High severity
    );
    assert!(evening_pattern.validate().is_ok());

    let weekend_pattern = ThrottlingPattern::new(
        1,
        14,
        0, // 2 PM
        23,
        0, // 11 PM
        vec![Weekday::Sat, Weekday::Sun],
        ppm(0.6) as i64, // Medium severity
    );
    assert!(weekend_pattern.validate().is_ok());

    // Generate comprehensive measurement data over 30 days
    let base_time = NOW - 30 * DAY;
    let mut history = Vec::new();

    for day in 0..30 {
        let current_date = base_time + day * DAY;
        let weekday = WallClock::at(current_date).weekday;

        for hour in 0..24 {
            let timestamp = current_date + hour * HOUR;

            // Determine if this is a throttling period
            let is_throttled = match weekday {
                Weekday::Sat | Weekday::Sun => hour >= 14 && hour <= 23,
                _ => hour >= 19 && hour <= 22,
            };

            // Base speeds with realistic variation
            let base_speed = if is_throttled {
                20.0 + (hour as f64 * 0.3) // Throttled speed
            } else {
                60.0 + (hour as f64 * 0.5) // Normal speed
            };

            // Add some variation (±30%)
            let variation = (day as f64 % 7.0) * 0.1 - 0.3;
            let actual_speed = base_speed * (1.0 + variation);

            // Baseline measurement (no optimization)
            history.push(SpeedMeasurement {
                id: None,
                timestamp,
                download_kbps: kbps(actual_speed.max(5.0)), // Minimum 5 Mbps
                upload_kbps: kbps(actual_speed * 0.15),
                latency_ms: if is_throttled { 80 + (hour as u32 * 2) } else { 30 + (hour as u32) },
                optimization_active: false,
                confidence: ppm(0.8 + (day as f64 % 10.0) * 0.02) as i64,
            });

            // Add optimized measurements for the last 15 days during throttling periods
            if day >= 15 && is_throttled {
                let optimized_speed = actual_speed * 2.2; // Significant improvement
                history.push(SpeedMeasurement {
                    id: None,
                    timestamp: timestamp + 30 * 60, // Slightly offset
                    download_kbps: kbps(optimized_speed.min(150.0)), // Cap at 150 Mbps
                    upload_kbps: kbps(optimized_speed * 0.2),
                    latency_ms: 35 + (hour as u32),
                    optimization_active: true,
                    confidence: ppm(0.9) as i64,
                });
            }
        }
    }

    (isp_profile, history, intelligence)
}

#[test]
fn test_temporal_pattern_accuracy() {
    let (isp, history, mut intelligence) = setup_comprehensive_test_environment();

    // Train the model
    intelligence.train_model(&history, Some(&isp), NOW);

    // Check temporal patterns
    let temporal_weights = &intelligence.learning_model.temporal_weights;

    // Should have learned patterns for most hours
    assert!(temporal_weights.len() >= 20, "Should learn patterns for most hours of the day");

    // Peak throttling hours should have lower weights
    let evening_weights: Vec<u64> = (19..=22).filter_map(|hour| temporal_weights.get(hour)).collect();

    let morning_weights: Vec<u64> = (8..=11).filter_map(|hour| temporal_weights.get(hour)).collect();

    assert!(!evening_weights.is_empty() && !morning_weights.is_empty());
    if !evening_weights.is_empty() && !morning_weights.is_empty() {
        let avg_evening = evening_weights.iter().sum::<u64>() / evening_weights.len() as u64;
        let avg_morning = morning_weights.iter().sum::<u64>() / morning_weights.len() as u64;

        assert!(
            avg_evening < avg_morning,
            "Evening hours (throttled) should have lower performance than morning hours"
        );
    }
}

#[test]
fn test_model_confidence_progression() {
    let (isp, history, mut intelligence) = setup_comprehensive_test_environment();

    // Initial confidence should be low
    let initial_confidence = intelligence.learning_model.model_confidence;
    assert_eq!(initial_confidence, 0, "Initial model confidence should be 0.0");

    // Train with comprehensive data
    intelligence.train_model(&history, Some(&isp), NOW);

    // Confidence should increase significantly
    let trained_confidence = intelligence.learning_model.model_confidence;
    assert!(trained_confidence > ppm(0.7), "Model confidence should be high after training with comprehensive data");
    assert!(trained_confidence <= ppm(1.0), "Model confidence should not exceed 1.0");

    // Training samples should be recorded
    assert!(intelligence.learning_model.training_samples > 500, "Should have substantial training samples");
}

#[test]
fn test_real_time_adaptation() {
    let (isp, history, mut intelligence) = setup_comprehensive_test_environment();

    // Train the model
    intelligence.train_model(&history, Some(&isp), NOW);

    let initial_confidence = intelligence.learning_model.model_confidence;

    // Simulate real-time effectiveness feedback
    DefaultIntelligenceCore::adapt_strategy(&intelligence, ppm(2.5)); // Good effectiveness
    DefaultIntelligenceCore::adapt_strategy(&intelligence, ppm(1.8)); // Moderate effectiveness
    DefaultIntelligenceCore::adapt_strategy(&intelligence, ppm(3.2)); // Excellent effectiveness

    // Model should maintain stability (adaptation is advice and does not change the model)
    assert_eq!(
        intelligence.learning_model.model_confidence, initial_confidence,
        "Model should maintain stability during adaptation"
    );
}
