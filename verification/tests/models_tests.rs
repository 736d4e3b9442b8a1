use isp_speedkarma::clock::{WallClock, Weekday};
use isp_speedkarma::models::{
    AppConfig, ISPProfile, OptimizationStrategy, SpeedMeasurement, SpeedtestServer, StealthLevel,
    ThrottlingPattern, ValidationError,
};

fn kbps(mbps: f64) -> i64 {
    (mbps * 1000.0).round() as i64
}

fn ppm(ratio: f64) -> i64 {
    (ratio * 1_000_000.0).round() as i64
}

#[test]
fn test_speed_measurement_validation() {
    let mut measurement = SpeedMeasurement::new(kbps(50.0), kbps(10.0), 50, false);
    assert!(measurement.validate().is_ok());

    measurement.download_kbps = kbps(-1.0);
    assert!(measurement.validate().is_err());

    measurement.download_kbps = kbps(50.0);
    measurement.confidence = ppm(1.5);
    assert!(measurement.validate().is_err());
}

#[test]
fn test_speed_measurement_performance_score() {
    let measurement = SpeedMeasurement::new(kbps(100.0), kbps(20.0), 20, false);
    let score = measurement.performance_score();
    assert!(score > 800_000);
    assert!(score <= 1_000_000);
}

#[test]
fn test_throttling_pattern_validation() {
    let pattern = ThrottlingPattern::new(
        1,
        19,
        0,
        22,
        0,
        vec![Weekday::Mon, Weekday::Tue, Weekday::Wed, Weekday::Thu, Weekday::Fri],
        ppm(0.8),
    );
    assert!(pattern.validate().is_ok());

    let mut invalid_pattern = pattern.clone();
    invalid_pattern.start_hour = 25;
    assert!(invalid_pattern.validate().is_err());
}

#[test]
fn test_optimization_strategy_validation() {
    let strategy = OptimizationStrategy::default_strategy();
    assert!(strategy.validate().is_ok());

    let mut invalid_strategy = strategy.clone();
    invalid_strategy.connection_count = 0;
    assert!(invalid_strategy.validate().is_err());
}

#[test]
fn test_isp_profile_validation() {
    let profile = ISPProfile::new(
        "Hutch".to_string(),
        "Sri Lanka".to_string(),
        "DNS Analysis".to_string(),
    );
    assert!(profile.validate().is_ok());
    assert!(profile.is_known_throttling_isp());

    let mut invalid_profile = profile.clone();
    invalid_profile.name = "".to_string();
    assert!(invalid_profile.validate().is_err());
}

#[test]
fn test_speedtest_server_region_suitability() {
    let server = SpeedtestServer::new(
        "12345".to_string(),
        "speedtest.singapore.com".to_string(),
        8080,
        "Singapore Server".to_string(),
        "Singapore".to_string(),
        "Test Sponsor".to_string(),
    );

    assert!(server.is_suitable_for_region("Sri Lanka"));
    assert!(server.is_suitable_for_region("singapore"));
    assert!(!server.is_suitable_for_region("United States"));
}

#[test]
fn test_app_config_validation() {
    let config = AppConfig::default();
    assert!(config.validate().is_ok());

    let mut invalid_config = config.clone();
    invalid_config.data_retention_days = 0;
    assert!(invalid_config.validate().is_err());
}

#[test]
fn performance_score_has_its_exact_value() {
    let measurement = SpeedMeasurement::new(100_000, 20_000, 20, false);
    assert_eq!(measurement.performance_score(), 996_000);

    let mut slow = SpeedMeasurement::new(25_000, 5_000, 70, false);
    slow.confidence = 800_000;
    // (5 * 250000 + 3 * 250000 + 2 * 930000) * 800000 / 10^7
    assert_eq!(slow.performance_score(), 308_800);

    let mut nothing = SpeedMeasurement::new(0, 0, 5_000, false);
    nothing.confidence = 1_000_000;
    assert_eq!(nothing.performance_score(), 0);
}

#[test]
fn good_performance_needs_all_three() {
    assert!(SpeedMeasurement::new(10_001, 1_001, 99, false).is_good_performance());
    assert!(!SpeedMeasurement::new(10_000, 1_001, 99, false).is_good_performance());
    assert!(!SpeedMeasurement::new(10_001, 1_000, 99, false).is_good_performance());
    assert!(!SpeedMeasurement::new(10_001, 1_001, 100, false).is_good_performance());
}

#[test]
fn new_measurement_is_dated_now() {
    let measurement = SpeedMeasurement::new(1, 1, 1, true);
    assert!(measurement.timestamp > 1_600_000_000);
    assert_eq!(measurement.confidence, 1_000_000);
    assert!(measurement.optimization_active);
    assert!(measurement.id.is_none());
}

#[test]
fn measurement_validation_names_each_fault() {
    let mut m = SpeedMeasurement::new(50_000, 10_000, 50, false);
    m.upload_kbps = -5;
    assert_eq!(m.validate(), Err(ValidationError::InvalidSpeed { value: -5 }));
    m.upload_kbps = 10_000;
    m.download_kbps = 0x8000_0000;
    assert_eq!(m.validate(), Err(ValidationError::InvalidSpeed { value: 0x8000_0000 }));
    m.download_kbps = 0x7fff_ffff;
    assert_eq!(m.validate(), Ok(()));
    m.latency_ms = 10_001;
    assert_eq!(m.validate(), Err(ValidationError::InvalidLatency { value: 10_001 }));
    m.latency_ms = 10_000;
    m.confidence = -1;
    assert_eq!(m.validate(), Err(ValidationError::InvalidConfidence { value: -1 }));
    m.confidence = 1_000_001;
    assert_eq!(m.validate(), Err(ValidationError::InvalidConfidence { value: 1_000_001 }));
}

#[test]
fn pattern_validation_names_each_fault() {
    let good = ThrottlingPattern::new(1, 19, 0, 22, 0, vec![Weekday::Mon], 800_000);
    let mut p = good.clone();
    p.start_hour = 24;
    assert_eq!(p.validate(), Err(ValidationError::InvalidHour { value: 24 }));
    let mut p = good.clone();
    p.end_hour = 30;
    assert_eq!(p.validate(), Err(ValidationError::InvalidHour { value: 30 }));
    let mut p = good.clone();
    p.start_minute = 60;
    assert_eq!(p.validate(), Err(ValidationError::InvalidMinute { value: 60 }));
    let mut p = good.clone();
    p.end_minute = 61;
    assert_eq!(p.validate(), Err(ValidationError::InvalidMinute { value: 61 }));
    let mut p = good.clone();
    p.severity = 1_000_001;
    assert_eq!(p.validate(), Err(ValidationError::InvalidSeverity { value: 1_000_001 }));
    let mut p = good.clone();
    p.confidence = -1;
    assert_eq!(p.validate(), Err(ValidationError::InvalidConfidence { value: -1 }));
    assert_eq!(good.confidence, 500_000);
}

#[test]
fn strategy_validation_names_each_fault() {
    let good = OptimizationStrategy::default_strategy();
    let mut s = good.clone();
    s.name = "   ".to_string();
    assert_eq!(s.validate(), Err(ValidationError::EmptyName));
    let mut s = good.clone();
    s.connection_count = 11;
    assert_eq!(s.validate(), Err(ValidationError::InvalidConnectionCount { value: 11 }));
    let mut s = good.clone();
    s.traffic_intensity = 1_000_001;
    assert_eq!(s.validate(), Err(ValidationError::InvalidTrafficIntensity { value: 1_000_001 }));
    let mut s = good.clone();
    s.packet_timing_min_ms = 60_000;
    assert_eq!(s.validate(), Err(ValidationError::InvalidSpeed { value: 60_000 }));
    let mut s = good.clone();
    s.effectiveness_score = Some(1_500_000);
    assert_eq!(s.validate(), Err(ValidationError::InvalidConfidence { value: 1_500_000 }));
    let mut s = good.clone();
    s.effectiveness_score = Some(600_001);
    assert!(s.validate().is_ok());
    assert!(s.is_effective());
    s.effectiveness_score = Some(600_000);
    assert!(!s.is_effective());
    assert!(!good.is_effective());
}

#[test]
fn built_in_strategies_have_their_settings() {
    let default_strategy = OptimizationStrategy::default_strategy();
    assert_eq!(default_strategy.name, "Default");
    assert_eq!(default_strategy.server_rotation_interval_minutes, 10);
    assert_eq!(default_strategy.packet_timing_min_ms, 30_000);
    assert_eq!(default_strategy.packet_timing_max_ms, 60_000);
    assert_eq!(default_strategy.connection_count, 3);
    assert_eq!(default_strategy.traffic_intensity, 500_000);
    assert_eq!(default_strategy.stealth_level, StealthLevel::Medium);
    assert_eq!(default_strategy.stealth_level_numeric(), 1);

    let high = OptimizationStrategy::high_stealth_strategy();
    assert_eq!(high.name, "High Stealth");
    assert_eq!(high.server_rotation_interval_minutes, 5);
    assert_eq!(high.connection_count, 2);
    assert_eq!(high.traffic_intensity, 300_000);
    assert_eq!(high.stealth_level, StealthLevel::High);
    assert_eq!(high.stealth_level_numeric(), 2);
    assert!(high.validate().is_ok());
}

#[test]
fn profile_validation_names_each_fault() {
    let mut profile = ISPProfile::new("Hutch".to_string(), "Sri Lanka".to_string(), "x".to_string());
    profile.name = " \t".to_string();
    assert_eq!(profile.validate(), Err(ValidationError::EmptyName));
    profile.name = "Hutch".to_string();
    profile.region = "\u{a0}".to_string();
    assert_eq!(profile.validate(), Err(ValidationError::EmptyRegion));
    profile.region = "x".to_string();
    assert_eq!(profile.validate(), Ok(()));
}

#[test]
fn known_throttling_providers_are_found_in_any_case() {
    let named = |name: &str| ISPProfile::new(name.to_string(), "r".to_string(), "m".to_string());
    assert!(named("HUTCH Telecom").is_known_throttling_isp());
    assert!(named("My Dialog Axiata").is_known_throttling_isp());
    assert!(named("mobitel").is_known_throttling_isp());
    assert!(named("Bharti AirTel").is_known_throttling_isp());
    assert!(!named("SLT").is_known_throttling_isp());
    assert!(!named("").is_known_throttling_isp());
}

#[test]
fn touching_a_profile_keeps_its_fields() {
    let mut profile = ISPProfile::new("A".to_string(), "B".to_string(), "C".to_string());
    let created = profile.created_at;
    profile.touch();
    assert_eq!(profile.name, "A");
    assert_eq!(profile.region, "B");
    assert_eq!(profile.detection_method, "C");
    assert_eq!(profile.created_at, created);
    assert!(profile.updated_at >= created);
}

#[test]
fn server_validation_names_each_fault() {
    let good = SpeedtestServer::new(
        "1".to_string(),
        "host".to_string(),
        8080,
        "n".to_string(),
        "c".to_string(),
        "s".to_string(),
    );
    assert_eq!(good.validate(), Ok(()));
    let mut s = good.clone();
    s.server_id = " ".to_string();
    assert_eq!(s.validate(), Err(ValidationError::EmptyName));
    let mut s = good.clone();
    s.host = "".to_string();
    assert_eq!(s.validate(), Err(ValidationError::EmptyName));
    let mut s = good.clone();
    s.port = 0;
    assert_eq!(s.validate(), Err(ValidationError::InvalidSpeed { value: 0 }));
    let mut s = good.clone();
    assert!(s.last_used.is_none());
    s.mark_used();
    assert!(s.last_used.is_some());
}

#[test]
fn stored_settings_validation_names_each_fault() {
    let good = AppConfig::default();
    assert_eq!(good.data_retention_days, 30);
    assert_eq!(good.bandwidth_limit_kb_per_hour, Some(1024));
    assert!(!good.optimization_enabled);
    let mut c = good.clone();
    c.data_retention_days = 366;
    assert_eq!(c.validate(), Err(ValidationError::InvalidSpeed { value: 366 }));
    let mut c = good.clone();
    c.bandwidth_limit_kb_per_hour = Some(0);
    assert_eq!(c.validate(), Err(ValidationError::InvalidSpeed { value: 0 }));
    let mut c = good.clone();
    c.bandwidth_limit_kb_per_hour = Some(1_024_001);
    assert_eq!(c.validate(), Err(ValidationError::InvalidSpeed { value: 1_024_001 }));
    let mut c = good.clone();
    c.bandwidth_limit_kb_per_hour = None;
    assert_eq!(c.validate(), Ok(()));
}

#[test]
fn stealth_level_names_round_trip() {
    for level in [StealthLevel::Low, StealthLevel::Medium, StealthLevel::High, StealthLevel::Maximum] {
        assert_eq!(StealthLevel::from_string(&level.to_string()), level);
    }
    assert_eq!(StealthLevel::Low.to_string(), "Low");
    assert_eq!(StealthLevel::Maximum.to_string(), "Maximum");
    assert_eq!(StealthLevel::from_string("nonsense"), StealthLevel::Medium);
    assert_eq!(StealthLevel::from_string("low"), StealthLevel::Medium);
    assert_eq!(StealthLevel::High.rank(), 2);
}

#[test]
fn pattern_days_round_trip_through_json() {
    let pattern = ThrottlingPattern::new(
        7,
        19,
        30,
        22,
        15,
        vec![Weekday::Mon, Weekday::Wed, Weekday::Sun],
        800_000,
    );
    let json = pattern.days_of_week_json();
    assert_eq!(json, "[1,3,7]");
    let back = ThrottlingPattern::from_db_row(
        Some(4),
        pattern.isp_profile_id,
        pattern.start_hour,
        pattern.start_minute,
        pattern.end_hour,
        pattern.end_minute,
        &json,
        pattern.severity,
        pattern.confidence,
    );
    assert_eq!(back.id, Some(4));
    assert_eq!(back.isp_profile_id, 7);
    assert_eq!(back.start_hour, 19);
    assert_eq!(back.start_minute, 30);
    assert_eq!(back.end_hour, 22);
    assert_eq!(back.end_minute, 15);
    assert_eq!(back.days_of_week, vec![Weekday::Mon, Weekday::Wed, Weekday::Sun]);
    assert_eq!(back.severity, 800_000);
    assert_eq!(back.confidence, 500_000);
}

#[test]
fn pattern_days_drop_what_is_no_day() {
    let read = |json: &str| ThrottlingPattern::from_db_row(None, 1, 0, 0, 1, 0, json, 0, 0).days_of_week;
    assert_eq!(read("[0, 1, 8, 7, 200]"), vec![Weekday::Mon, Weekday::Sun]);
    assert_eq!(read("not json"), Vec::<Weekday>::new());
    assert_eq!(read("[1, 300]"), Vec::<Weekday>::new());
    assert_eq!(read("[]"), Vec::<Weekday>::new());
}

#[test]
fn pattern_is_active_within_its_span_on_its_days() {
    let evening = ThrottlingPattern::new(1, 19, 0, 22, 0, vec![Weekday::Tue], 800_000);
    let at = |hour: u8, minute: u8, weekday: Weekday| WallClock { hour, minute, weekday };
    assert!(evening.is_active_at(at(19, 0, Weekday::Tue)));
    assert!(evening.is_active_at(at(22, 0, Weekday::Tue)));
    assert!(!evening.is_active_at(at(22, 1, Weekday::Tue)));
    assert!(!evening.is_active_at(at(18, 59, Weekday::Tue)));
    assert!(!evening.is_active_at(at(20, 0, Weekday::Wed)));

    let night = ThrottlingPattern::new(1, 23, 0, 2, 0, vec![Weekday::Tue], 800_000);
    assert!(night.is_active_at(at(23, 30, Weekday::Tue)));
    assert!(night.is_active_at(at(1, 59, Weekday::Tue)));
    assert!(!night.is_active_at(at(2, 1, Weekday::Tue)));
    assert!(!night.is_active_at(at(12, 0, Weekday::Tue)));

    // 2023-11-14 22:13:20 UTC was a Tuesday.
    let late = ThrottlingPattern::new(1, 22, 0, 22, 30, vec![Weekday::Tue], 800_000);
    assert!(late.is_active_at(WallClock::at(1_700_000_000)));
    assert!(!evening.is_active_at(WallClock::at(1_700_000_000)));

    let never = ThrottlingPattern::new(1, 0, 0, 23, 59, vec![], 800_000);
    assert!(!never.is_active_now());
    // A pattern of every minute of every day covers the present moment.
    let every_day = vec![
        Weekday::Mon,
        Weekday::Tue,
        Weekday::Wed,
        Weekday::Thu,
        Weekday::Fri,
        Weekday::Sat,
        Weekday::Sun,
    ];
    let always = ThrottlingPattern::new(1, 0, 0, 23, 59, every_day.clone(), 800_000);
    assert!(always.is_active_now());
    // So does one whose span crosses midnight and leaves no minute out.
    let round = ThrottlingPattern::new(1, 12, 0, 11, 59, every_day, 800_000);
    assert!(round.is_active_now());
}

#[test]
fn pattern_description_reads_as_written() {
    let pattern = ThrottlingPattern::new(1, 19, 0, 22, 5, vec![Weekday::Mon, Weekday::Tue], 800_000);
    assert_eq!(pattern.description(), "19:00-22:05 on Mon, Tue (severity: 80.0%)");
    let other = ThrottlingPattern::new(1, 7, 30, 9, 0, vec![Weekday::Sun], 123_456);
    assert_eq!(other.description(), "07:30-09:00 on Sun (severity: 12.3%)");
    let none = ThrottlingPattern::new(1, 0, 0, 0, 0, vec![], 999_500);
    assert_eq!(none.description(), "00:00-00:00 on  (severity: 100.0%)");
}

#[test]
fn validation_errors_have_messages() {
    assert_eq!(ValidationError::EmptyName.message(), "Name cannot be empty");
    assert_eq!(ValidationError::EmptyRegion.message(), "Region cannot be empty");
    assert_eq!(
        ValidationError::InvalidHour { value: 25 }.message(),
        "Hour must be between 0-23"
    );
}
