use isp_speedkarma::app_state::OptimizationMode;
use isp_speedkarma::clock::{instant_of, unix_now, WallClock, Weekday};
use isp_speedkarma::fixed::{isqrt, mean_of, sample_variance_of, sum_of, variance_of};
use isp_speedkarma::intelligence::SystemState;
use isp_speedkarma::migrations::MigrationManager;
use isp_speedkarma::optimizer::{throughput_kbps, DefaultNetworkOptimizer, SpeedStatistics};
use isp_speedkarma::order::stable_order;
use isp_speedkarma::progress::{
    countdown, inactive_metrics, phase_at, rotation_seconds, shown_confidence,
    shown_improvement, ProgressPhase,
};
use isp_speedkarma::tables::{NameTable, WeightTable};
use isp_speedkarma::text::{find_char_from, is_blank, parse_u8_range, str_eq};
use isp_speedkarma::tray::{
    handle_menu_click, handle_optimization_toggle, maybe_notify_transition, update_menu_items,
    MenuAction, PanelInterface, SystemTrayMenuItems, TransitionNotice,
};
use isp_speedkarma::models::{ISPProfile, SpeedMeasurement, SpeedtestServer};
use isp_speedkarma::servers::ServerPool;

#[test]
fn the_calendar_reads_hour_minute_and_day() {
    // 2023-11-14 22:13:20 UTC, a Tuesday.
    let clock = WallClock::at(1_700_000_000);
    assert_eq!(clock, WallClock { hour: 22, minute: 13, weekday: Weekday::Tue });
    assert_eq!(clock.minute_of_day(), 22 * 60 + 13);
    // 1970-01-01 was a Thursday.
    assert_eq!(WallClock::at(0), WallClock { hour: 0, minute: 0, weekday: Weekday::Thu });
    // 1969-12-31 23:59:59.
    assert_eq!(WallClock::at(-1), WallClock { hour: 23, minute: 59, weekday: Weekday::Wed });
    // 2000-02-29 12:34:56, a Tuesday.
    assert_eq!(WallClock::at(951_827_696), WallClock { hour: 12, minute: 34, weekday: Weekday::Tue });
    let now = WallClock::now();
    assert!(now.hour < 24 && now.minute < 60);
    for (n, day) in [Weekday::Mon, Weekday::Tue, Weekday::Wed, Weekday::Thu, Weekday::Fri, Weekday::Sat, Weekday::Sun].into_iter().enumerate() {
        assert_eq!(day.index() as usize, n);
        assert_eq!(day.number_from_monday() as usize, n + 1);
        assert_eq!(Weekday::from_number(n as u8 + 1), Some(day));
    }
    assert_eq!(Weekday::from_number(0), None);
    assert_eq!(Weekday::from_number(8), None);
    assert_eq!(Weekday::Sat.short_name(), "Sat");
}

#[test]
fn statistics_have_their_exact_values() {
    let values = vec![2, 4, 4, 4, 5, 5, 7, 9];
    assert_eq!(sum_of(&values), 40);
    assert_eq!(mean_of(&values), 5);
    assert_eq!(variance_of(&values), 4);
    assert_eq!(sample_variance_of(&values), 4);
    assert_eq!(mean_of(&vec![]), 0);
    assert_eq!(variance_of(&vec![]), 0);
    assert_eq!(sample_variance_of(&vec![7]), 0);
    assert_eq!(mean_of(&vec![1, 2]), 1);
    assert_eq!(sum_of(&vec![u64::MAX, u64::MAX]), 2 * (u64::MAX as u128));
    assert_eq!(mean_of(&vec![u64::MAX, u64::MAX]), u64::MAX);
    assert_eq!(isqrt(0), 0);
    assert_eq!(isqrt(15), 3);
    assert_eq!(isqrt(16), 4);
    assert_eq!(isqrt(u128::MAX), u64::MAX);
    assert_eq!(isqrt(1_000_000_000_000), 1_000_000);
}

#[test]
fn ordering_is_stable() {
    let keys = vec![5, 1, 5, 9, 1, 0];
    assert_eq!(stable_order(&keys, true), vec![3, 0, 2, 1, 4, 5]);
    assert_eq!(stable_order(&keys, false), vec![5, 1, 4, 0, 2, 3]);
    assert_eq!(stable_order(&vec![], true), Vec::<usize>::new());
}

#[test]
fn text_is_compared_searched_and_parsed() {
    assert!(str_eq("abc", "abc"));
    assert!(!str_eq("abc", "abd"));
    assert!(!str_eq("abc", "ab"));
    assert!(str_eq("", ""));
    assert!(is_blank(""));
    assert!(is_blank(" \t\n\u{3000}"));
    assert!(!is_blank(" x "));
    assert_eq!(find_char_from("a:b:c", ':', 0), 1);
    assert_eq!(find_char_from("a:b:c", ':', 2), 3);
    assert_eq!(find_char_from("a:b:c", ':', 4), 5);
    assert_eq!(parse_u8_range("x255y", 1, 4), Some(255));
    assert_eq!(parse_u8_range("x256y", 1, 4), None);
    assert_eq!(parse_u8_range("+0", 0, 2), Some(0));
    assert_eq!(parse_u8_range("+", 0, 1), None);
    assert_eq!(parse_u8_range("-1", 0, 2), None);
    assert_eq!(parse_u8_range("1 ", 0, 2), None);
    assert_eq!(parse_u8_range("12", 1, 1), None);
}

#[test]
fn tables_hold_what_is_put_in() {
    let mut weights = WeightTable::new(3);
    assert_eq!((weights.size(), weights.len()), (3, 0));
    weights.insert(1, 7);
    weights.insert(1, 8);
    assert_eq!(weights.len(), 1);
    assert_eq!((weights.get(0), weights.get(1), weights.get(3)), (None, Some(8), None));

    let mut names: NameTable<u8> = NameTable::new();
    assert!(names.is_empty());
    names.insert("a".to_string(), 1);
    names.insert("b".to_string(), 2);
    names.insert("a".to_string(), 3);
    assert_eq!(names.len(), 2);
    assert_eq!((names.get("a"), names.get("b"), names.get("c")), (Some(3), Some(2), None));
    assert_eq!(names.find("b"), Some(1));
    names.remove("a");
    names.remove("zzz");
    assert_eq!(names.len(), 1);
    assert_eq!((names.get("a"), names.get("b")), (None, Some(2)));
}

#[test]
fn the_tray_answers_to_states_and_clicks() {
    let error = || SystemState::Error("x".to_string());
    assert_eq!(maybe_notify_transition(&SystemState::Learning, &SystemState::Optimizing), Some(TransitionNotice::Started));
    assert_eq!(maybe_notify_transition(&SystemState::Monitoring, &SystemState::Optimizing), Some(TransitionNotice::Enabled));
    assert_eq!(maybe_notify_transition(&SystemState::Optimizing, &SystemState::Monitoring), Some(TransitionNotice::Paused));
    assert_eq!(maybe_notify_transition(&SystemState::Optimizing, &SystemState::Inactive), Some(TransitionNotice::Paused));
    assert_eq!(maybe_notify_transition(&SystemState::Optimizing, &error()), Some(TransitionNotice::ErrorDetected));
    assert_eq!(maybe_notify_transition(&error(), &error()), None);
    assert_eq!(maybe_notify_transition(&SystemState::Inactive, &SystemState::Optimizing), None);
    assert_eq!(maybe_notify_transition(&SystemState::Learning, &SystemState::Learning), None);
    assert_eq!(TransitionNotice::Paused.message(), "Optimization paused");

    let item = update_menu_items(&SystemState::Optimizing);
    assert_eq!((item.title, item.enabled, item.selected), ("Disable Optimization", true, true));
    let item = update_menu_items(&SystemState::Learning);
    assert_eq!((item.title, item.enabled, item.selected), ("Enable Optimization", false, false));
    let item = update_menu_items(&SystemState::Inactive);
    assert_eq!((item.title, item.enabled, item.selected), ("Enable Optimization", true, false));
    assert!(!update_menu_items(&error()).enabled);

    let outcome = handle_optimization_toggle(&SystemState::Optimizing);
    assert_eq!((outcome.mode, outcome.notice), (Some(OptimizationMode::Disabled), "Optimization disabled"));
    let outcome = handle_optimization_toggle(&SystemState::Monitoring);
    assert_eq!((outcome.mode, outcome.notice), (Some(OptimizationMode::Enabled), "Optimization enabled"));
    let outcome = handle_optimization_toggle(&SystemState::Learning);
    assert_eq!((outcome.mode, outcome.notice), (None, "Still learning network patterns"));
    assert_eq!(handle_optimization_toggle(&error()).mode, None);

    let items = SystemTrayMenuItems::default();
    assert_eq!(handle_menu_click(items.toggle_optimization), MenuAction::ToggleOptimization);
    assert_eq!(handle_menu_click(items.run_speedtest), MenuAction::RunSpeedtest);
    assert_eq!(handle_menu_click(items.quit), MenuAction::Quit);
    assert_eq!(handle_menu_click(items.status_item), MenuAction::Ignore);
    let _panel = PanelInterface::new();
    assert_eq!(PanelInterface::position_for(1_000, 20), (604, 28));
    assert_eq!(PanelInterface::position_for(100, -50), (8, 8));
    assert_eq!(PanelInterface::position_for(i32::MAX, i32::MAX), (2_147_483_251, 2_147_483_655));
}

#[test]
fn progress_moves_through_its_phases() {
    assert_eq!(phase_at(0), (ProgressPhase::Resolving, 0));
    assert_eq!(phase_at(1_500), (ProgressPhase::Resolving, 15));
    assert_eq!(phase_at(2_999), (ProgressPhase::Resolving, 29));
    assert_eq!(phase_at(3_000), (ProgressPhase::Connecting, 30));
    assert_eq!(phase_at(5_000), (ProgressPhase::Connecting, 50));
    assert_eq!(phase_at(7_000), (ProgressPhase::Tuning, 70));
    assert_eq!(phase_at(9_999), (ProgressPhase::Tuning, 94));
    assert_eq!(phase_at(10_000), (ProgressPhase::Optimizing, 100));
    assert_eq!(phase_at(u64::MAX), (ProgressPhase::Optimizing, 100));
    assert_eq!(ProgressPhase::Tuning.name(), "tuning");
    assert_eq!(rotation_seconds(Some(10)), 600);
    assert_eq!(rotation_seconds(Some(0)), 600);
    assert_eq!(rotation_seconds(None), 600);
    assert_eq!(rotation_seconds(Some(u32::MAX)), u32::MAX);
    assert_eq!(countdown(ProgressPhase::Optimizing, 600, 600), 598);
    assert_eq!(countdown(ProgressPhase::Optimizing, 2, 600), 600);
    assert_eq!(countdown(ProgressPhase::Optimizing, 1, 600), 600);
    assert_eq!(countdown(ProgressPhase::Tuning, 600, 300), 600);
    assert_eq!(countdown(ProgressPhase::Tuning, 0, 300), 300);
    assert_eq!(shown_improvement(30_000, 10_000), 3_000_000);
    assert_eq!(shown_improvement(90_000, 10_000), 5_000_000);
    assert_eq!(shown_improvement(1_000, 10_000), 500_000);
    assert_eq!(shown_improvement(0, 10_000), 1_000_000);
    assert_eq!(shown_improvement(10_000, 0), 1_000_000);
    assert_eq!(shown_confidence(3), 300_000);
    assert_eq!(shown_confidence(30), 1_000_000);
    assert_eq!(inactive_metrics().improvement, 1_000_000);
}

#[test]
fn the_schema_comes_in_seven_steps() {
    let manager = MigrationManager::new(":memory:".to_string());
    assert_eq!(manager.database_url, ":memory:");
    let all = manager.get_all_migrations();
    assert_eq!(all.len(), 7);
    for (i, migration) in all.iter().enumerate() {
        assert_eq!(migration.version as usize, i + 1);
        assert!(migration.applied_at.is_none());
        assert!(migration.sql.starts_with("CREATE "));
    }
    assert_eq!(all[0].name, "create_speed_measurements_table");
    assert_eq!(all[6].name, "add_indexes_for_performance");
    for table in ["speed_measurements", "isp_profiles", "throttling_patterns", "optimization_strategies", "speedtest_servers", "app_config"] {
        assert!(all.iter().any(|m| m.sql.contains(&format!("CREATE TABLE IF NOT EXISTS {} (", table))));
    }
    assert!(manager.get_migrations_table_sql().contains("schema_migrations"));
    assert_eq!(manager.pending_migrations(&all, &vec![]), vec![0, 1, 2, 3, 4, 5, 6]);
    assert_eq!(manager.pending_migrations(&all, &vec![1, 2, 3, 9]), vec![3, 4, 5, 6]);
    assert_eq!(manager.pending_migrations(&all, &vec![7, 6, 5, 4, 3, 2, 1]), Vec::<usize>::new());
}

#[test]
fn effectiveness_is_taken_from_the_last_six_hours() {
    let at = |timestamp: i64, download_kbps: i64, optimized: bool| SpeedMeasurement {
        id: None,
        timestamp,
        download_kbps,
        upload_kbps: 1_000,
        latency_ms: 10,
        optimization_active: optimized,
        confidence: 1_000_000,
    };
    let now = 1_700_000_000;
    let samples = vec![
        at(now - 21_601, 1, false),
        at(now - 21_600, 20_000, false),
        at(now - 100, 40_000, false),
        at(now - 50, 45_000, true),
    ];
    let optimizer = DefaultNetworkOptimizer::new();
    let metrics = optimizer.get_effectiveness(&samples, now);
    assert_eq!(metrics.baseline_speed, 30_000);
    assert_eq!(metrics.optimized_speed, 45_000);
    assert_eq!(metrics.improvement_factor, 1_500_000);
    assert_eq!(metrics.confidence, 30_000);
    let none = optimizer.get_effectiveness(&vec![at(now, 5, false)], now);
    assert_eq!(none.improvement_factor, 1_000_000);
    assert_eq!(none.optimized_speed, 0);

    let mut statistics = SpeedStatistics {
        total_measurements: 2,
        avg_download_kbps: 0,
        max_download_kbps: 0,
        min_download_kbps: 0,
        avg_upload_kbps: 0,
        avg_latency_us: 0,
        avg_optimized_download_kbps: Some(75_000),
        avg_baseline_download_kbps: Some(50_000),
        improvement_factor: None,
    };
    statistics.calculate_improvement_factor();
    assert_eq!(statistics.improvement_factor, Some(1_500_000));
    statistics.avg_baseline_download_kbps = Some(0);
    statistics.improvement_factor = None;
    statistics.calculate_improvement_factor();
    assert_eq!(statistics.improvement_factor, None);
    assert_eq!(throughput_kbps(1_000_000, 1_000), 8_000);
    assert_eq!(throughput_kbps(125, 0), 1_000);
    assert_eq!(throughput_kbps(u64::MAX, 1), u64::MAX);
}

#[test]
fn the_calendar_agrees_with_plain_division() {
    let days = [
        Weekday::Mon,
        Weekday::Tue,
        Weekday::Wed,
        Weekday::Thu,
        Weekday::Fri,
        Weekday::Sat,
        Weekday::Sun,
    ];
    let mut instants: Vec<i64> = vec![
        -8_000_000_000_000,
        8_000_000_000_000,
        -1,
        0,
        1,
        86_399,
        86_400,
        -86_400,
        -86_401,
        951_782_400,
        4_102_444_800,
        -2_208_988_800,
    ];
    let mut step: i64 = 1;
    while step < 1_000_000_000_000 {
        instants.push(step * 3 + 7);
        instants.push(-step * 5 - 11);
        step *= 7;
    }
    for seconds in instants {
        let clock = WallClock::at(seconds);
        assert_eq!(clock.hour as i64, seconds.rem_euclid(86_400) / 3_600, "{}", seconds);
        assert_eq!(clock.minute as i64, seconds.rem_euclid(3_600) / 60, "{}", seconds);
        // The first day of 1970 was a Thursday, three days after a Monday.
        let index = (seconds.div_euclid(86_400) + 3).rem_euclid(7);
        assert_eq!(clock.weekday, days[index as usize], "{}", seconds);
    }
}

#[test]
fn white_space_is_what_unicode_says_it_is() {
    let spaces = "\t\n\u{b}\u{c}\r \u{85}\u{a0}\u{1680}\u{2000}\u{2001}\u{2002}\u{2003}\u{2004}\u{2005}\u{2006}\u{2007}\u{2008}\u{2009}\u{200a}\u{2028}\u{2029}\u{202f}\u{205f}\u{3000}";
    assert!(is_blank(spaces));
    for c in spaces.chars() {
        assert!(is_blank(&c.to_string()));
    }
    for other in ["\u{8}", "\u{e}", "\u{1c}", "\u{1f}", "\u{84}", "\u{86}", "\u{180e}", "\u{200b}", "\u{200c}", "\u{2060}", "\u{feff}", "_", "\u{0}"] {
        assert!(!is_blank(other), "{:?}", other);
        assert!(!is_blank(&format!(" {} ", other)), "{:?}", other);
    }
}

#[test]
fn countries_are_compared_by_their_ascii_letters_only() {
    let mut pool = ServerPool::new();
    let countries = ["SRI LANKA", "sri lanka", "Sri  Lanka", "\u{130}stanbul", "\u{212a}enya", "Kenya"];
    pool.set_servers(
        countries
            .iter()
            .enumerate()
            .map(|(i, country)| {
                SpeedtestServer::new(
                    i.to_string(),
                    "h".to_string(),
                    1,
                    "n".to_string(),
                    country.to_string(),
                    "s".to_string(),
                )
            })
            .collect(),
    );
    let found = |country: &str| -> Vec<String> {
        pool.get_regional_servers(country).into_iter().map(|s| s.server_id).collect()
    };
    assert_eq!(found("Sri Lanka"), vec!["0", "1"]);
    assert_eq!(found("istanbul"), Vec::<String>::new());
    assert_eq!(found("i\u{307}stanbul"), Vec::<String>::new());
    assert_eq!(found("\u{130}STANBUL"), vec!["3"]);
    assert_eq!(found("kenya"), vec!["5"]);
    assert_eq!(found("\u{212a}ENYA"), vec!["4"]);
}

#[test]
fn providers_are_known_by_a_part_of_their_name_in_lower_case() {
    let known = |name: &str| {
        ISPProfile::new(name.to_string(), "r".to_string(), "m".to_string()).is_known_throttling_isp()
    };
    assert!(known("Hutch"));
    assert!(known("xHUTCHx"));
    assert!(known("Sri Lanka MobiTel (pvt)"));
    assert!(known("\u{e9}dialog\u{e9}"));
    assert!(!known("Hutc h"));
    assert!(!known("\u{ff28}\u{ff35}\u{ff34}\u{ff23}\u{ff28}"));
    assert!(!known("hut\u{441}h"));
    assert!(!known(""));
    // The capital letter with a dot above becomes an `i` and a mark.
    assert!(known("D\u{130}alog") == "d\u{130}alog".to_lowercase().contains("dialog"));
    assert!(known("A\u{130}RTEL") == "a\u{130}rtel".to_lowercase().contains("airtel"));
}

#[test]
fn a_clock_set_before_1970_reads_as_its_start() {
    assert_eq!(instant_of(None), 0);
    assert_eq!(instant_of(Some(0)), 0);
    assert_eq!(instant_of(Some(1_700_000_000)), 1_700_000_000);
    assert_eq!(instant_of(Some(8_000_000_000_000)), 8_000_000_000_000);
    assert_eq!(instant_of(Some(8_000_000_000_001)), 8_000_000_000_000);
    assert_eq!(instant_of(Some(u64::MAX)), 8_000_000_000_000);
    let now = unix_now();
    assert!(1_600_000_000 < now && now <= 8_000_000_000_000);
    assert_eq!(instant_of(Some(now as u64)), now);
}
