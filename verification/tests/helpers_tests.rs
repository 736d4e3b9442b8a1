use isp_speedkarma::analysis::{best_strategy, push_hour_items};
use isp_speedkarma::app_state::{AppControlState, OptimizationMode};
use isp_speedkarma::clock::Weekday;
use isp_speedkarma::entropy::random_index;
use isp_speedkarma::fixed::sq_dev_sum_of;
use isp_speedkarma::intelligence::{
    BaselineComparison, EffectivenessMetrics, StrategyEffectiveness, SystemState, SystemStatus,
};
use isp_speedkarma::learner::DefaultIntelligenceCore;
use isp_speedkarma::migrations::MigrationManager;
use isp_speedkarma::mimicry::push_random_chars;
use isp_speedkarma::models::{
    contains_day, days_of, MeasurementRow, OptimizationStrategy, SpeedMeasurement, SpeedtestServer,
    StealthLevel, StrategyRow, ThrottlingPattern,
};
use isp_speedkarma::optimizer::{DefaultNetworkOptimizer, NetworkOptimizer};
use isp_speedkarma::progress::{
    inactive_metrics, live_metrics, BroadcastState, LiveMetrics, ProgressPhase,
};
use isp_speedkarma::samples::SampleFilter;
use isp_speedkarma::servers::{
    arrange, attempts_go_on, connection_attempts, load_fallback_servers, ServerPool,
};
use isp_speedkarma::speedtest::{
    disguise_wait_s, download_address, elapsed_of, upload_address, DisguiseModeConfig,
    SpeedtestPhase, SpeedtestProgressPayload, SpeedtestRunnerConfig,
};
use isp_speedkarma::status::{format_status_line, StatusPlace};
use isp_speedkarma::stealth::{draw_rotation_interval, StealthError};
use isp_speedkarma::stealth_engine::StealthEngine;
use isp_speedkarma::text::{
    char_digit, char_is_space, contains, eq_ignore_ascii_case, push_char_of, push_decimal,
    push_digit, push_two_digits, to_ascii_lower,
};
use isp_speedkarma::tray::{
    create_tray_menu, handle_menu_click, handle_tray_event, MenuAction, PanelAction,
    PanelInterface, SystemTray, TransitionNotice, TrayAction, TrayEvent, TrayMenuEntry,
};

/// Wednesday, the first of November 2023, at midnight UTC.
const WEDNESDAY: i64 = 1_698_796_800;

#[test]
fn digits_are_written_and_read() {
    let mut digits = String::new();
    for d in 0..10u8 {
        push_digit(&mut digits, d);
        assert_eq!(char_digit((b'0' + d) as char), Some(d));
    }
    assert_eq!(digits, "0123456789");
    let mut text = String::from("ab");
    push_char_of(&mut text, "x\u{e9}\u{3b1}z", 2);
    push_char_of(&mut text, "x\u{e9}\u{3b1}z", 0);
    assert_eq!(text, "ab\u{3b1}x");
    assert!(contains("speedtest", "test") && contains("speedtest", "") && contains("", ""));
    assert!(contains("a\u{e9}b", "\u{e9}b") && !contains("a\u{e9}b", "eb") && !contains("ab", "abc"));
    assert!(!contains("aab", "abb") && contains("aaab", "aab") && !contains("", "a"));
    assert!(eq_ignore_ascii_case("AbC", "aBc") && !eq_ignore_ascii_case("abc", "abd"));
    assert!(!eq_ignore_ascii_case("abc", "ab") && eq_ignore_ascii_case("", ""));
    assert!(eq_ignore_ascii_case("[@`{", "[@`{") && !eq_ignore_ascii_case("@", "`"));
    assert!(!eq_ignore_ascii_case("[", "{") && !eq_ignore_ascii_case("\u{c9}", "\u{e9}"));
    for c in ['A', 'Z', 'a', 'z', '@', '[', '`', '{', '0', '\u{c9}', '\u{130}'] {
        assert_eq!(to_ascii_lower(c), c.to_ascii_lowercase());
        assert_eq!(char_is_space(c), c.is_whitespace());
    }
    for n in 0..0x3100u32 {
        if let Some(c) = char::from_u32(n) {
            assert_eq!(char_is_space(c), c.is_whitespace(), "{:x}", n);
            assert_eq!(to_ascii_lower(c), c.to_ascii_lowercase(), "{:x}", n);
        }
    }
    assert_eq!(char_digit('a'), None);
    assert_eq!(char_digit(' '), None);
    assert_eq!(char_digit('٣'), None);
    let mut text = String::from("n=");
    push_decimal(&mut text, 0);
    push_decimal(&mut text, 10_203);
    push_decimal(&mut text, u64::MAX);
    assert_eq!(text, "n=01020318446744073709551615");
    let mut text = String::new();
    push_two_digits(&mut text, 0);
    push_two_digits(&mut text, 7);
    push_two_digits(&mut text, 59);
    push_two_digits(&mut text, 123);
    assert_eq!(text, "000759123");
}

#[test]
fn squared_distances_are_summed() {
    assert_eq!(sq_dev_sum_of(&vec![1, 2, 3, 6], 3), 4 + 1 + 0 + 9);
    assert_eq!(sq_dev_sum_of(&vec![], 3), 0);
    assert_eq!(sq_dev_sum_of(&vec![0x7fff_ffff], 0), 0x7fff_ffffu128 * 0x7fff_ffffu128);
}

#[test]
fn a_random_index_lies_within_the_length() {
    for len in [1usize, 2, 7] {
        for _ in 0..200 {
            assert!(random_index(len) < len);
        }
    }
    let seen: std::collections::HashSet<usize> = (0..400).map(|_| random_index(4)).collect();
    assert_eq!(seen.len(), 4);
}

#[test]
fn random_characters_come_from_the_alphabet() {
    let mut text = String::from("id-");
    push_random_chars(&mut text, "xyz", 40);
    assert_eq!(text.len(), 43);
    assert!(text.starts_with("id-"));
    assert!(text[3..].chars().all(|c| "xyz".contains(c)));
    push_random_chars(&mut text, "q", 0);
    assert_eq!(text.len(), 43);
    let mut other = String::new();
    push_random_chars(&mut other, "0123456789abcdef", 40);
    assert_ne!(other, "0".repeat(40));
}

#[test]
fn a_filter_accepts_by_every_field_it_sets() {
    let sample = SpeedMeasurement {
        id: None,
        timestamp: WEDNESDAY + 20 * 3_600 + 5,
        download_kbps: 1,
        upload_kbps: 1,
        latency_ms: 1,
        optimization_active: true,
        confidence: 1,
    };
    let all = SampleFilter::all();
    assert!(all.accepts(&sample));
    assert!(SampleFilter { optimized: Some(true), ..all }.accepts(&sample));
    assert!(!SampleFilter { optimized: Some(false), ..all }.accepts(&sample));
    assert!(SampleFilter { since: Some(sample.timestamp), ..all }.accepts(&sample));
    assert!(!SampleFilter { since: Some(sample.timestamp + 1), ..all }.accepts(&sample));
    assert!(!SampleFilter { after: Some(sample.timestamp), ..all }.accepts(&sample));
    assert!(SampleFilter { after: Some(sample.timestamp - 1), ..all }.accepts(&sample));
    assert!(SampleFilter { until: Some(sample.timestamp), ..all }.accepts(&sample));
    assert!(!SampleFilter { until: Some(sample.timestamp - 1), ..all }.accepts(&sample));
    assert!(SampleFilter { hour: Some(20), ..all }.accepts(&sample));
    assert!(!SampleFilter { hour: Some(21), ..all }.accepts(&sample));
    assert!(SampleFilter { weekday: Some(Weekday::Wed), ..all }.accepts(&sample));
    assert!(!SampleFilter { weekday: Some(Weekday::Thu), ..all }.accepts(&sample));
}

#[test]
fn days_are_read_from_their_numbers() {
    assert_eq!(
        days_of(&vec![1, 7, 3, 0, 8, 3]),
        vec![Weekday::Mon, Weekday::Sun, Weekday::Wed, Weekday::Wed]
    );
    assert_eq!(days_of(&vec![]), Vec::<Weekday>::new());
    assert!(contains_day(&vec![Weekday::Mon, Weekday::Sun], Weekday::Sun));
    assert!(!contains_day(&vec![Weekday::Mon, Weekday::Sun], Weekday::Tue));
    assert!(!contains_day(&vec![], Weekday::Tue));
}

#[test]
fn a_strategy_is_stored_and_read_back_field_by_field() {
    for level in [StealthLevel::Low, StealthLevel::Medium, StealthLevel::High, StealthLevel::Maximum] {
        let strategy = OptimizationStrategy {
            id: Some(42),
            name: "Evening".to_string(),
            server_rotation_interval_minutes: 7,
            packet_timing_min_ms: 12_345,
            packet_timing_max_ms: 67_890,
            connection_count: 4,
            traffic_intensity: 333_333,
            stealth_level: level,
            effectiveness_score: Some(654_321),
            created_at: WEDNESDAY,
        };
        let row = strategy.to_row();
        assert_eq!(row.id, Some(42));
        assert_eq!(row.name, "Evening");
        assert_eq!(row.stealth_level, level.to_string());
        assert_eq!(row.traffic_intensity, 333_333);
        let read = OptimizationStrategy::from_row(&row);
        assert_eq!(read.id, strategy.id);
        assert_eq!(read.name, strategy.name);
        assert_eq!(read.server_rotation_interval_minutes, 7);
        assert_eq!(read.packet_timing_min_ms, 12_345);
        assert_eq!(read.packet_timing_max_ms, 67_890);
        assert_eq!(read.connection_count, 4);
        assert_eq!(read.traffic_intensity, 333_333);
        assert_eq!(read.stealth_level, level);
        assert_eq!(read.effectiveness_score, Some(654_321));
        assert_eq!(read.created_at, WEDNESDAY);
    }
    let fresh = OptimizationStrategy::default_strategy();
    let read = OptimizationStrategy::from_row(&fresh.to_row());
    assert_eq!(read.id, None);
    assert_eq!(read.effectiveness_score, None);
    assert_eq!(read.created_at, fresh.created_at);
    // A level that the store does not know reads as the middle one.
    let odd = StrategyRow { stealth_level: "Invisible".to_string(), ..fresh.to_row() };
    assert_eq!(OptimizationStrategy::from_row(&odd).stealth_level, StealthLevel::Medium);
}

#[test]
fn a_measurement_read_back_from_the_store_has_every_field() {
    for (latency_ms, optimization_active) in [(0u32, false), (45, true), (u32::MAX, true)] {
        let m = SpeedMeasurement {
            id: Some(9),
            timestamp: -86_401,
            download_kbps: 25_500,
            upload_kbps: 5_250,
            latency_ms,
            optimization_active,
            confidence: 850_000,
        };
        let row = m.to_row();
        assert_eq!(
            row,
            MeasurementRow {
                id: Some(9),
                timestamp: -86_401,
                download_kbps: 25_500,
                upload_kbps: 5_250,
                latency_ms: latency_ms as i64,
                optimization_active: optimization_active as i64,
                confidence: 850_000,
            }
        );
        assert_eq!(SpeedMeasurement::from_row(&row), m);
    }
    let odd = MeasurementRow {
        id: None,
        timestamp: 0,
        download_kbps: -1,
        upload_kbps: i64::MAX,
        latency_ms: -3,
        optimization_active: 7,
        confidence: 2_000_000,
    };
    let read = SpeedMeasurement::from_row(&odd);
    assert_eq!((read.id, read.timestamp, read.download_kbps, read.upload_kbps), (None, 0, -1, i64::MAX));
    assert_eq!((read.latency_ms, read.optimization_active, read.confidence), (0, true, 2_000_000));
    let slow = MeasurementRow { latency_ms: 4_294_967_296, optimization_active: 0, ..odd };
    let read = SpeedMeasurement::from_row(&slow);
    assert_eq!((read.latency_ms, read.optimization_active), (u32::MAX, false));
}

#[test]
fn a_pattern_is_worded_with_its_sign() {
    let pattern = ThrottlingPattern::new(1, 19, 0, 22, 5, vec![Weekday::Mon, Weekday::Tue], 800_000);
    assert_eq!(pattern.description(), "19:00-22:05 on Mon, Tue (severity: 80.0%)");
    let pattern = ThrottlingPattern::new(1, 7, 30, 9, 0, vec![], 123_456);
    assert_eq!(pattern.description(), "07:30-09:00 on  (severity: 12.3%)");
    let pattern = ThrottlingPattern::new(1, 7, 30, 9, 0, vec![Weekday::Sun], 123_500);
    assert_eq!(pattern.description(), "07:30-09:00 on Sun (severity: 12.4%)");
    let pattern = ThrottlingPattern::new(1, 0, 0, 0, 0, vec![Weekday::Sun], -250_000);
    assert_eq!(pattern.description(), "00:00-00:00 on Sun (severity: -25.0%)");
    let pattern = ThrottlingPattern::new(1, 0, 0, 0, 0, vec![Weekday::Sun], i64::MIN);
    assert_eq!(pattern.description(), "00:00-00:00 on Sun (severity: -922337203685477.6%)");
}

#[test]
fn a_copy_of_a_server_is_the_server() {
    let mut server = SpeedtestServer::new(
        "1".to_string(),
        "host.example".to_string(),
        8080,
        "One".to_string(),
        "Iceland".to_string(),
        "Sponsor".to_string(),
    );
    server.distance_m = Some(1_500);
    server.latency_us = Some(20_000);
    server.last_used = Some(WEDNESDAY);
    let copy = server.duplicate();
    assert_eq!(copy.server_id, "1");
    assert_eq!(copy.host, "host.example");
    assert_eq!(copy.port, 8080);
    assert_eq!(copy.name, "One");
    assert_eq!(copy.country, "Iceland");
    assert_eq!(copy.sponsor, "Sponsor");
    assert_eq!(copy.distance_m, Some(1_500));
    assert_eq!(copy.latency_us, Some(20_000));
    assert_eq!(copy.last_used, Some(WEDNESDAY));
    assert!(copy.is_active);
}

#[test]
fn servers_are_arranged_as_the_order_says() {
    let servers = load_fallback_servers();
    let hosts = |list: &Vec<SpeedtestServer>| list.iter().map(|s| s.host.clone()).collect::<Vec<_>>();
    let picked = arrange(&servers, &vec![4, 0, 2], 5);
    assert_eq!(hosts(&picked), vec!["lg-sin.fdcservers.net", "speedtest.dialog.lk", "speedtest.slt.lk"]);
    let picked = arrange(&servers, &vec![4, 0, 2], 2);
    assert_eq!(hosts(&picked), vec!["lg-sin.fdcservers.net", "speedtest.dialog.lk"]);
    assert!(arrange(&servers, &vec![4, 0, 2], 0).is_empty());
    assert!(arrange(&servers, &vec![], 3).is_empty());
}

#[test]
fn the_stand_in_catalogue_is_as_listed() {
    let servers = load_fallback_servers();
    let listed: Vec<(&str, &str, &str, &str, &str)> = servers
        .iter()
        .map(|s| {
            (s.server_id.as_str(), s.host.as_str(), s.name.as_str(), s.country.as_str(), s.sponsor.as_str())
        })
        .collect();
    assert_eq!(
        listed,
        vec![
            ("21541", "speedtest.dialog.lk", "Dialog Axiata", "Sri Lanka", "Dialog Axiata PLC"),
            ("24037", "speedtest-sin1.digitalocean.com", "Singapore", "Singapore", "DigitalOcean"),
            ("13623", "speedtest.slt.lk", "Sri Lanka Telecom", "Sri Lanka", "Sri Lanka Telecom PLC"),
            ("28910", "speedtest-blr1.digitalocean.com", "Bangalore", "India", "DigitalOcean"),
            ("15322", "lg-sin.fdcservers.net", "Singapore", "Singapore", "FDC Servers"),
        ]
    );
    for server in &servers {
        assert_eq!(server.port, 8080);
        assert!(server.is_active);
        assert!(server.id.is_none() && server.distance_m.is_none() && server.latency_us.is_none());
        assert!(server.last_used.is_none());
        assert!(server.validate().is_ok());
    }
}

#[test]
fn a_rotation_interval_lies_within_a_quarter_of_the_base() {
    for (level, base) in [
        (StealthLevel::Low, 900),
        (StealthLevel::Medium, 600),
        (StealthLevel::High, 300),
        (StealthLevel::Maximum, 180),
    ] {
        let mut seen = std::collections::HashSet::new();
        for _ in 0..200 {
            let interval = draw_rotation_interval(level);
            assert!(interval >= base - base / 4 && interval < base + base / 4);
            seen.insert(interval);
        }
        assert!(seen.len() > 1);
    }
}

#[test]
fn hours_are_listed_with_commas() {
    let mut text = String::from("[");
    push_hour_items(&mut text, &vec![19, 20, 7]);
    text.push(']');
    assert_eq!(text, "[19, 20, 7]");
    let mut text = String::new();
    push_hour_items(&mut text, &vec![]);
    assert_eq!(text, "");
    push_hour_items(&mut text, &vec![0]);
    assert_eq!(text, "0");
}

fn rated(improvement: u64) -> StrategyEffectiveness {
    StrategyEffectiveness {
        avg_improvement: improvement,
        sample_count: 10,
        success_rate: 1_000_000,
        confidence: 500_000,
        trend: 0,
        last_used: 0,
    }
}

#[test]
fn the_best_strategy_is_the_last_of_the_highest() {
    assert_eq!(best_strategy(&vec![]), None);
    assert_eq!(best_strategy(&vec![rated(5)]), Some(0));
    assert_eq!(best_strategy(&vec![rated(5), rated(9), rated(7)]), Some(1));
    assert_eq!(best_strategy(&vec![rated(9), rated(5), rated(9), rated(7)]), Some(2));
}

#[test]
fn the_engine_compares_and_rates_through_its_own_functions() {
    let engine = DefaultIntelligenceCore::new();
    let baseline = vec![20_000, 20_000, 20_000, 20_000];
    let optimized = vec![30_000, 30_000];
    assert_eq!(
        engine.calculate_baseline_comparison(&baseline, &optimized),
        BaselineComparison {
            baseline_speed: 20_000,
            optimized_speed: 30_000,
            improvement_factor: 1_500_000,
            significance: 0,
        }
    );
    assert_eq!(engine.calculate_statistical_significance(&baseline, &optimized), 0);
    // Speeds that do not vary within their groups say nothing of significance.
    assert_eq!(
        engine.calculate_statistical_significance(&vec![20_000; 6], &vec![30_000; 6]),
        0
    );
    // Groups that lie far apart are as significant as can be.
    assert_eq!(
        engine.calculate_statistical_significance(
            &vec![20_000, 20_010, 19_990, 20_005, 19_995],
            &vec![30_000, 30_010, 29_990, 30_005, 29_995]
        ),
        1_000_000
    );
    let metrics = EffectivenessMetrics {
        improvement_factor: 1_500_000,
        baseline_speed: 20_000,
        optimized_speed: 30_000,
        confidence: 500_000,
        last_updated: 0,
    };
    // A blank model adds nothing; 250 samples are half the volume.
    assert_eq!(engine.calculate_analysis_confidence(250, &metrics), 400_000);
    assert_eq!(engine.calculate_analysis_confidence(0, &metrics), 200_000);
    assert_eq!(engine.calculate_analysis_confidence(5_000, &metrics), 600_000);
    assert_eq!(engine.best_improvement(), 1_000_000);
}

#[test]
fn the_schema_is_written_in_whole_numbers() {
    let manager = MigrationManager::new("sqlite::memory:".to_string());
    let samples = manager.get_speed_measurements_table_sql();
    assert!(samples.starts_with("CREATE TABLE IF NOT EXISTS speed_measurements ("));
    for column in ["timestamp INTEGER NOT NULL", "download_kbps INTEGER NOT NULL", "upload_kbps INTEGER NOT NULL", "latency_ms INTEGER NOT NULL", "optimization_active BOOLEAN NOT NULL", "confidence INTEGER NOT NULL DEFAULT 1000000"] {
        assert!(samples.contains(column), "{}", column);
    }
    assert!(!samples.contains("REAL"));
    let strategies = manager.get_optimization_strategies_table_sql();
    for column in ["name TEXT NOT NULL", "server_rotation_interval_minutes INTEGER NOT NULL", "packet_timing_min_ms INTEGER NOT NULL", "packet_timing_max_ms INTEGER NOT NULL", "connection_count INTEGER NOT NULL", "traffic_intensity INTEGER NOT NULL", "stealth_level TEXT NOT NULL", "effectiveness_score INTEGER,", "created_at INTEGER NOT NULL"] {
        assert!(strategies.contains(column), "{}", column);
    }
    assert!(manager.get_isp_profiles_table_sql().contains("isp_profiles (id INTEGER PRIMARY KEY AUTOINCREMENT, name TEXT NOT NULL, region TEXT NOT NULL"));
    assert!(manager.get_throttling_patterns_table_sql().contains("FOREIGN KEY (isp_profile_id) REFERENCES isp_profiles (id)"));
    assert!(manager.get_speedtest_servers_table_sql().contains("server_id TEXT NOT NULL UNIQUE"));
    assert!(manager.get_app_config_table_sql().contains("data_retention_days INTEGER NOT NULL DEFAULT 30"));
    assert_eq!(manager.get_performance_indexes_sql().matches("CREATE INDEX IF NOT EXISTS").count(), 5);
    let all = manager.get_all_migrations();
    assert_eq!(all[0].sql, samples);
    assert_eq!(all[3].sql, strategies);
    assert_eq!(all[6].sql, manager.get_performance_indexes_sql());
}

#[test]
fn a_speed_test_knows_its_addresses_and_its_length() {
    let config = SpeedtestRunnerConfig {
        enabled: true,
        download_duration_s: 0,
        upload_duration_s: 8,
        parallel_connections: 0,
    };
    assert_eq!(config.download_seconds(), 1);
    assert_eq!(config.upload_seconds(), 8);
    assert_eq!(config.connections(), 1);
    assert_eq!(
        config.done(12_000, 3_000),
        SpeedtestProgressPayload { phase: SpeedtestPhase::Done, down_kbps: 12_000, up_kbps: 3_000, elapsed_s: 9 }
    );
    let long = SpeedtestRunnerConfig { download_duration_s: u32::MAX, ..config };
    assert_eq!(long.done(0, 0).elapsed_s, u32::MAX);
    assert_eq!(SpeedtestPhase::Download.name(), "download");
    assert_eq!(SpeedtestPhase::Upload.name(), "upload");
    assert_eq!(SpeedtestPhase::Done.name(), "done");

    assert_eq!(elapsed_of(10, 10), 0);
    assert_eq!(elapsed_of(10, 11), 0);
    assert_eq!(elapsed_of(10, 3), 7);
    assert_eq!(elapsed_of(10, 0), 10);

    assert_eq!(
        download_address("http://speedtest.slt.lk:8080/", 7),
        "http://speedtest.slt.lk:8080/speedtest/random4000x4000.jpg?r=7"
    );
    assert_eq!(
        download_address("https://speed.cloudflare.com/", 12),
        "https://speed.cloudflare.com/__down?bytes=16777216&seed=12"
    );
    assert_eq!(upload_address("http://speedtest.slt.lk:8080/"), "http://speedtest.slt.lk:8080/speedtest/upload.php");
    assert_eq!(upload_address("https://speed.cloudflare.com/"), "https://speed.cloudflare.com/__up");
}

#[test]
fn the_disguise_waits_and_connections_are_tried_twice_over() {
    let on = DisguiseModeConfig { enabled: true };
    let off = DisguiseModeConfig { enabled: false };
    assert_eq!(disguise_wait_s(&on, false), 5);
    assert_eq!(disguise_wait_s(&on, true), 10);
    assert_eq!(disguise_wait_s(&off, false), 10);
    assert_eq!(disguise_wait_s(&off, true), 10);

    assert_eq!(connection_attempts(3, 10), 6);
    assert_eq!(connection_attempts(3, 5), 5);
    assert_eq!(connection_attempts(3, 6), 6);
    assert_eq!(connection_attempts(0, 6), 0);
    assert_eq!(connection_attempts(usize::MAX, 6), 6);
    assert_eq!(connection_attempts(3, 0), 0);
    assert!(attempts_go_on(3, 10, 0, 0));
    assert!(attempts_go_on(3, 10, 5, 2));
    assert!(!attempts_go_on(3, 10, 6, 2));
    assert!(!attempts_go_on(3, 10, 4, 3));
    assert!(!attempts_go_on(3, 0, 0, 0));
}

#[test]
fn the_status_line_is_worded_for_its_place() {
    let broken = SystemStatus {
        state: SystemState::Error("no route".to_string()),
        message: String::new(),
        data_collection_progress: None,
        effectiveness: None,
    };
    assert_eq!(format_status_line(StatusPlace::Window, &broken), "Error: no route");
    assert_eq!(format_status_line(StatusPlace::Tooltip, &broken), "SpeedKarma - Error: no route");
    assert_eq!(format_status_line(StatusPlace::MenuItem, &broken), "◉ SpeedKarma — Error: no route");
    let idle = SystemStatus { state: SystemState::Inactive, ..broken.clone() };
    assert_eq!(format_status_line(StatusPlace::Window, &idle), "Inactive");
    let learning = SystemStatus::learning(3, 7);
    assert_eq!(
        format_status_line(StatusPlace::Window, &learning),
        "Learning your network patterns — 3/7 days (43%)"
    );
    assert_eq!(
        format_status_line(StatusPlace::MenuItem, &learning),
        "◉ SpeedKarma — Learning patterns (3 of 7 days)"
    );
    assert_eq!(
        format_status_line(StatusPlace::Tooltip, &learning),
        "SpeedKarma - Learning patterns (43% complete)"
    );
}

#[test]
fn the_tray_takes_a_status_and_says_what_to_show() {
    let mut tray = SystemTray::new();
    assert!(matches!(tray.get_current_status().state, SystemState::Learning));
    assert_eq!(tray.get_current_status().message, "Initializing...");

    let optimizing = SystemStatus::optimizing(EffectivenessMetrics {
        improvement_factor: 1_800_000,
        baseline_speed: 20_000,
        optimized_speed: 36_000,
        confidence: 900_000,
        last_updated: 0,
    });
    let update = tray.update_status(optimizing);
    assert_eq!(update.tooltip, "SpeedKarma - Optimizing (1.80x improvement)");
    assert_eq!(update.menu_text, "◉ SpeedKarma — Optimizing (1.80x)");
    assert_eq!(update.toggle.title, "Disable Optimization");
    assert!(update.toggle.enabled && update.toggle.selected);
    assert_eq!(update.notice, Some(TransitionNotice::Started));
    assert!(matches!(tray.get_current_status().state, SystemState::Optimizing));

    let update = tray.update_status(SystemStatus::monitoring());
    assert_eq!(update.tooltip, "SpeedKarma - Monitoring network");
    assert_eq!(update.menu_text, "◉ SpeedKarma — Monitoring");
    assert_eq!(update.toggle.title, "Enable Optimization");
    assert!(update.toggle.enabled && !update.toggle.selected);
    assert_eq!(update.notice, Some(TransitionNotice::Paused));

    let update = tray.update_status(SystemStatus::learning(1, 7));
    assert!(!update.toggle.enabled);
    assert_eq!(update.notice, None);
    assert_eq!(tray.get_current_status().message, "Learning your network patterns (1 of 7 days)");
}

#[test]
fn the_optimizer_switches_on_and_off() {
    let optimizer = DefaultNetworkOptimizer::new();
    let mut state = AppControlState::default();
    let mut stealth = StealthEngine::new(StealthLevel::Medium, 0);
    let empty = ServerPool::new();
    assert_eq!(
        optimizer.start_optimization(&mut state, &mut stealth, &empty, 0),
        Err(StealthError::NoSuitableEndpoints)
    );
    // The switch is on even so.
    assert_eq!(state.optimization_mode, OptimizationMode::Enabled);
    assert!(!stealth.is_active);

    let mut pool = ServerPool::new();
    pool.set_servers(load_fallback_servers());
    assert_eq!(optimizer.start_optimization(&mut state, &mut stealth, &pool, 0), Ok(()));
    assert!(stealth.is_active);
    assert_eq!(stealth.rotation_state.servers_in_rotation.len(), 5);
    assert_eq!(optimizer.start_optimization(&mut state, &mut stealth, &empty, 0), Ok(()));
    assert_eq!(stealth.rotation_state.servers_in_rotation.len(), 5);

    optimizer.stop_optimization(&mut state, &mut stealth);
    assert_eq!(state.optimization_mode, OptimizationMode::Disabled);
    assert!(!stealth.is_active);
    optimizer.stop_optimization(&mut state, &mut stealth);
    assert!(!stealth.is_active);
}

#[test]
fn a_provider_known_to_shape_begins_with_the_quieter_strategy() {
    for name in ["Hutch", "DIALOG Axiata", "Sri Lanka Mobitel", "airtel lanka"] {
        let strategy = OptimizationStrategy::initial_strategy(name);
        assert_eq!(strategy.name, "High Stealth");
        assert_eq!(strategy.stealth_level, StealthLevel::High);
        assert_eq!(strategy.server_rotation_interval_minutes, 5);
        assert_eq!(strategy.connection_count, 2);
        assert_eq!(strategy.effectiveness_score, Some(600_000));
        assert!(strategy.validate().is_ok());
    }
    for name in ["SLT", "", "Unknown ISP"] {
        let strategy = OptimizationStrategy::initial_strategy(name);
        assert_eq!(strategy.name, "Default");
        assert_eq!(strategy.stealth_level, StealthLevel::Medium);
        assert_eq!(strategy.server_rotation_interval_minutes, 10);
        assert_eq!(strategy.connection_count, 3);
        assert_eq!(strategy.effectiveness_score, Some(600_000));
        assert!(!strategy.is_effective());
    }
}

#[test]
fn a_status_of_error_names_its_cause() {
    let status = SystemStatus::error("store is locked".to_string());
    assert!(matches!(&status.state, SystemState::Error(cause) if cause == "store is locked"));
    assert_eq!(status.message, "Error obtaining status");
    assert!(status.data_collection_progress.is_none());
    assert!(status.effectiveness.is_none());
    assert_eq!(format_status_line(StatusPlace::Tooltip, &status), "SpeedKarma - Error: store is locked");
}

#[test]
fn events_at_the_tray_call_for_their_actions() {
    assert_eq!(
        handle_tray_event(&TrayEvent::LeftClick { x: 1_000, y: 20 }),
        TrayAction::TogglePanel { left: 604, top: 28 }
    );
    assert_eq!(
        handle_tray_event(&TrayEvent::LeftClick { x: 10, y: -50 }),
        TrayAction::TogglePanel { left: 8, top: 8 }
    );
    assert_eq!(
        handle_tray_event(&TrayEvent::LeftClick { x: i32::MAX, y: i32::MAX }),
        TrayAction::TogglePanel { left: i32::MAX as i64 - 396, top: i32::MAX as i64 + 8 }
    );
    assert_eq!(handle_tray_event(&TrayEvent::RightClick), TrayAction::Nothing);
    assert_eq!(handle_tray_event(&TrayEvent::DoubleClick), TrayAction::Nothing);
    assert_eq!(handle_tray_event(&TrayEvent::Other), TrayAction::Nothing);
    for (id, action) in [
        ("toggle_opt", MenuAction::ToggleOptimization),
        ("run_speedtest", MenuAction::RunSpeedtest),
        ("quit", MenuAction::Quit),
        ("status", MenuAction::Ignore),
        ("", MenuAction::Ignore),
    ] {
        assert_eq!(
            handle_tray_event(&TrayEvent::MenuItemClick { id: id.to_string() }),
            TrayAction::Menu(action)
        );
    }
}

#[test]
fn the_switch_has_a_name() {
    assert_eq!(OptimizationMode::Enabled.name(), "Enabled");
    assert_eq!(OptimizationMode::Disabled.name(), "Disabled");
    assert_eq!(OptimizationMode::Disabled.toggled().name(), "Enabled");
}

fn live_sample(timestamp: i64, download_kbps: i64, upload_kbps: i64, optimized: bool) -> SpeedMeasurement {
    SpeedMeasurement {
        id: None,
        timestamp,
        download_kbps,
        upload_kbps,
        latency_ms: 10,
        optimization_active: optimized,
        confidence: 1_000_000,
    }
}

#[test]
fn the_broadcaster_walks_through_its_phases() {
    let now = WEDNESDAY + 3_600;
    let history = vec![
        // Twenty minutes ago, without optimization.
        live_sample(now - 1_200, 10_000, 2_000, false),
        live_sample(now - 1_100, 20_000, 2_000, false),
        // Within the last two minutes.
        live_sample(now - 100, 30_000, 4_000, true),
        live_sample(now - 50, 60_000, 8_000, true),
        // Too old for either.
        live_sample(now - 2_000, 1, 1, false),
    ];
    let mut state = BroadcastState::new(Some(1));
    assert_eq!(
        state,
        BroadcastState { since_enabled_ms: None, next_rotation_s: 60, rotation_seconds: 60 }
    );

    let event = state.tick(false, 5_000, &history, now, "t0".to_string());
    assert_eq!(event.phase, ProgressPhase::Inactive);
    assert_eq!(event.phase_percent, 0);
    assert_eq!(event.server.host, "");
    assert_eq!(event.server.stealth_level, None);
    assert_eq!(event.metrics, inactive_metrics());
    assert_eq!(event.next_rotation_s, 0);
    assert_eq!(event.confidence, 0);
    assert_eq!(event.timestamp, "t0");
    assert_eq!(state.since_enabled_ms, None);

    let event = state.tick(true, 10_000, &history, now, "t1".to_string());
    assert_eq!((event.phase, event.phase_percent), (ProgressPhase::Resolving, 0));
    assert_eq!(event.server.host, "Auto route");
    assert_eq!(event.server.region, "");
    assert_eq!(event.server.ip, None);
    assert_eq!(event.server.stealth_level.as_deref(), Some("High"));
    assert_eq!(
        event.metrics,
        LiveMetrics { down_kbps: 45_000, up_kbps: 6_000, latency_ms: 0, improvement: 3_000_000 }
    );
    assert_eq!(event.next_rotation_s, 60);
    assert_eq!(event.confidence, 200_000);
    assert_eq!(state.since_enabled_ms, Some(10_000));

    let event = state.tick(true, 12_000, &history, now, "t2".to_string());
    assert_eq!((event.phase, event.phase_percent), (ProgressPhase::Resolving, 20));
    let event = state.tick(true, 15_000, &history, now, "t3".to_string());
    assert_eq!((event.phase, event.phase_percent), (ProgressPhase::Connecting, 50));
    let event = state.tick(true, 18_500, &history, now, "t4".to_string());
    assert_eq!((event.phase, event.phase_percent), (ProgressPhase::Tuning, 82));
    assert_eq!(event.next_rotation_s, 60);

    // From ten seconds on the countdown runs, two seconds an event, and starts over.
    let event = state.tick(true, 20_000, &history, now, "t5".to_string());
    assert_eq!((event.phase, event.phase_percent), (ProgressPhase::Optimizing, 100));
    assert_eq!(event.next_rotation_s, 58);
    for _ in 0..28 {
        state.tick(true, 22_000, &history, now, String::new());
    }
    assert_eq!(state.next_rotation_s, 2);
    let event = state.tick(true, 80_000, &history, now, String::new());
    assert_eq!(event.next_rotation_s, 60);

    // Switched off and on again, the phases begin anew.
    state.tick(false, 90_000, &history, now, String::new());
    let event = state.tick(true, 95_000, &history, now, String::new());
    assert_eq!(event.phase, ProgressPhase::Resolving);
    assert_eq!(state.since_enabled_ms, Some(95_000));
    assert_eq!(BroadcastState::new(None).rotation_seconds, 600);
    assert_eq!(BroadcastState::new(Some(0)).rotation_seconds, 600);
}

#[test]
fn the_speeds_of_the_moment_are_means_of_the_last_minutes() {
    let now = WEDNESDAY + 3_600;
    assert_eq!(live_metrics(&vec![], now), inactive_metrics());
    // Without a baseline the improvement is shown as one whole.
    let history = vec![live_sample(now - 10, 30_000, 4_000, true)];
    assert_eq!(
        live_metrics(&history, now),
        LiveMetrics { down_kbps: 30_000, up_kbps: 4_000, latency_ms: 0, improvement: 1_000_000 }
    );
    // The improvement is kept between a half and five.
    let history = vec![
        live_sample(now - 10, 100_000, 4_000, true),
        live_sample(now - 1_000, 10_000, 4_000, false),
    ];
    assert_eq!(live_metrics(&history, now).improvement, 5_000_000);
    let history = vec![
        live_sample(now - 10, 1_000, 4_000, true),
        live_sample(now - 1_000, 10_000, 4_000, false),
    ];
    assert_eq!(live_metrics(&history, now).improvement, 500_000);
}

#[test]
fn the_menu_is_laid_out_in_six_lines() {
    let menu = create_tray_menu();
    let lines: Vec<Option<(&str, &str, bool)>> = menu
        .iter()
        .map(|entry| match entry {
            TrayMenuEntry::Item { id, title, enabled } => Some((*id, *title, *enabled)),
            TrayMenuEntry::Separator => None,
        })
        .collect();
    assert_eq!(
        lines,
        vec![
            Some(("status", "◉ SpeedKarma", false)),
            None,
            Some(("toggle_opt", "Enable Optimization", true)),
            Some(("run_speedtest", "Run Speedtest Now", true)),
            None,
            Some(("quit", "Quit SpeedKarma", true)),
        ]
    );
    // Every item that can be clicked calls for an action of its own.
    for line in lines.into_iter().flatten() {
        assert_eq!(handle_menu_click(line.0) != MenuAction::Ignore, line.2);
    }
}

#[test]
fn a_click_hides_the_panel_or_shows_it_below() {
    assert_eq!(PanelInterface::toggle_at_tray_position(true, 1_000, 20), PanelAction::Hide);
    assert_eq!(
        PanelInterface::toggle_at_tray_position(false, 1_000, 20),
        PanelAction::ShowAt { left: 604, top: 28 }
    );
    assert_eq!(
        PanelInterface::toggle_at_tray_position(false, 0, 0),
        PanelAction::ShowAt { left: 8, top: 8 }
    );
    assert_eq!(PanelInterface::position_for(428, 0), (32, 8));
}

#[test]
fn the_optimizer_is_reached_through_its_interface_too() {
    let optimizer = DefaultNetworkOptimizer::new();
    let mut state = AppControlState::default();
    let mut stealth = StealthEngine::new(StealthLevel::Low, 0);
    let mut pool = ServerPool::new();
    pool.set_servers(load_fallback_servers());
    assert!(NetworkOptimizer::start_optimization(&optimizer, &mut state, &mut stealth, &pool, 0).is_ok());
    assert!(state.optimization_mode.is_enabled() && stealth.is_active);
    let metrics = NetworkOptimizer::get_effectiveness(&optimizer, &Vec::new(), WEDNESDAY);
    assert_eq!(metrics.improvement_factor, 1_000_000);
    assert_eq!((metrics.baseline_speed, metrics.optimized_speed, metrics.confidence), (0, 0, 0));
    NetworkOptimizer::stop_optimization(&optimizer, &mut state, &mut stealth);
    assert!(!state.optimization_mode.is_enabled() && !stealth.is_active);
}

#[test]
fn a_strategy_of_which_nothing_is_known_is_the_default_record() {
    let record = StrategyEffectiveness::default();
    assert_eq!(record, StrategyEffectiveness::unknown(record.last_used));
    assert_eq!(record.avg_improvement, 1_000_000);
    assert_eq!((record.sample_count, record.success_rate, record.confidence, record.trend), (0, 0, 0, 0));
    assert!(record.last_used > 1_600_000_000);
    assert_eq!(SystemTray::create_tray_menu().len(), 6);
    assert_eq!(
        SystemTray::new().handle_tray_event(&TrayEvent::MenuItemClick { id: "quit".to_string() }),
        TrayAction::Menu(MenuAction::Quit)
    );
}
