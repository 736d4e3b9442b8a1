use isp_speedkarma::burst::{build_headers, perform_burst, pick_server, pick_target_url};
use isp_speedkarma::keeper::{
    after_attempt, backoff_secs, budget_stretch, choose_burst_size_kb, drop_detected,
    is_quiet_hour, jitter_secs, recent_metrics, should_quiet_hour, AttemptOutcome, KeeperCadence,
    KeeperState, ThroughputKeeperConfig, TickInput,
};
use isp_speedkarma::models::{SpeedMeasurement, StealthLevel};

fn config(budget_kb: u64, sizes: Vec<u32>) -> ThroughputKeeperConfig {
    ThroughputKeeperConfig {
        enabled: true,
        hourly_budget_kb: budget_kb,
        burst_sizes_kb: sizes,
        quiet_hours: None,
        tighten_threshold_drop: 300_000,
        relax_threshold_stability_s: 60,
    }
}

fn input(now_s: u64) -> TickInput {
    TickInput { mode_enabled: true, hour: 12, now_s, trend: 1_000_000, entropy: 0 }
}

#[test]
fn a_halved_trend_turns_steady_into_recovery() {
    let cfg = config(10_240, vec![64, 128, 256]);
    let mut state = KeeperState::new(0);
    state.cadence = KeeperCadence::Steady;
    state.last_burst_kb = 64;
    let plan = state.begin_tick(&cfg, TickInput { trend: 500_000, ..input(5) });
    assert_eq!(state.cadence, KeeperCadence::Recovery);
    assert_eq!(state.last_cadence_change, 5);
    assert_eq!(plan.burst_kb, 128);
    assert_eq!(plan.sleep_s, 5);
    // At the threshold itself the drop counts; just above it does not.
    assert!(drop_detected(700_000, 300_000));
    assert!(!drop_detected(700_001, 300_000));
    assert!(!drop_detected(0, 1_000_001));
}

#[test]
fn the_cadence_warms_up_steadies_and_recovers() {
    let cfg = config(10_240, vec![128, 64, 256]);
    let mut state = KeeperState::new(0);
    let plan = state.begin_tick(&cfg, input(0));
    assert_eq!(state.cadence, KeeperCadence::Warmup);
    assert_eq!((plan.burst_kb, plan.sleep_s), (64, 5));
    assert_eq!(plan.progress.cadence, KeeperCadence::Warmup);
    let progress = state.complete_burst(&cfg, &plan, true);
    assert_eq!(progress.hour_used_kb, 64);
    assert_eq!(progress.hour_budget_kb, 10_240);
    assert_eq!(progress.last_burst_kb, 64);
    assert_eq!(progress.next_burst_in_s, 5);

    let plan = state.begin_tick(&cfg, input(59));
    assert_eq!(state.cadence, KeeperCadence::Warmup);
    state.complete_burst(&cfg, &plan, true);

    let plan = state.begin_tick(&cfg, input(60));
    assert_eq!(state.cadence, KeeperCadence::Steady);
    assert_eq!(state.last_cadence_change, 60);
    assert_eq!((plan.burst_kb, plan.sleep_s), (64, 10));
    state.complete_burst(&cfg, &plan, true);

    let plan = state.begin_tick(&cfg, TickInput { trend: 600_000, ..input(70) });
    assert_eq!(state.cadence, KeeperCadence::Recovery);
    assert_eq!(plan.burst_kb, 128);
    state.complete_burst(&cfg, &plan, true);
    let plan = state.begin_tick(&cfg, TickInput { trend: 600_000, ..input(80) });
    assert_eq!(state.cadence, KeeperCadence::Recovery);
    assert_eq!(plan.burst_kb, 256);
    state.complete_burst(&cfg, &plan, false);
    assert_eq!(state.last_burst_kb, 128);
    assert_eq!(state.hourly_budget_used_kb, 64 + 64 + 64 + 128);
    let plan = state.begin_tick(&cfg, input(130));
    assert_eq!(state.cadence, KeeperCadence::Steady);
    assert_eq!(plan.burst_kb, 128);
}

#[test]
fn a_suspended_keeper_sends_nothing_and_warms_up_afterwards() {
    let mut cfg = config(10_240, vec![64]);
    let mut state = KeeperState::new(0);
    state.cadence = KeeperCadence::Steady;
    let plan = state.begin_tick(&cfg, TickInput { mode_enabled: false, ..input(10) });
    assert_eq!(state.cadence, KeeperCadence::Suspended);
    // The base interval of the suspended phase, unmoved by an entropy of nothing.
    assert_eq!((plan.burst_kb, plan.sleep_s), (0, 15));
    assert_eq!(plan.progress.next_burst_in_s, 0);
    assert_eq!(plan.progress.last_burst_kb, 0);
    assert_eq!(plan.progress.cadence, KeeperCadence::Suspended);

    cfg.enabled = false;
    let plan = state.begin_tick(&cfg, TickInput { entropy: 5, ..input(20) });
    assert_eq!(state.cadence, KeeperCadence::Suspended);
    // Fifteen seconds moved by 5 % 3 = 2 seconds, later for an odd number.
    assert_eq!((plan.burst_kb, plan.sleep_s), (0, 17));

    cfg.enabled = true;
    cfg.quiet_hours = Some(vec![1, 12]);
    let plan = state.begin_tick(&cfg, TickInput { entropy: 4, ..input(30) });
    assert_eq!(state.cadence, KeeperCadence::Suspended);
    // Earlier for an even number, by 4 % 3 = 1 second.
    assert_eq!((plan.burst_kb, plan.sleep_s), (0, 14));

    // Suspended past nine tenths of the budget, the interval is stretched as in any phase.
    state.hourly_budget_used_kb = 10_000;
    let plan = state.begin_tick(&cfg, input(40));
    assert_eq!((plan.burst_kb, plan.sleep_s), (0, 30));
    assert_eq!(state.tick_interval(cfg.hourly_budget_kb, 0), 30);
    state.hourly_budget_used_kb = 8_500;
    let plan = state.begin_tick(&cfg, input(50));
    assert_eq!((plan.burst_kb, plan.sleep_s), (0, 20));
    state.hourly_budget_used_kb = 0;

    // Long after the suspension began, the first phase is still the warm-up.
    let plan = state.begin_tick(&cfg, TickInput { hour: 13, ..input(5_000) });
    assert_eq!(state.cadence, KeeperCadence::Warmup);
    assert_eq!(plan.burst_kb, 64);
}

#[test]
fn the_budget_is_overdrawn_by_one_burst_at_most_and_renewed_hourly() {
    let cfg = config(100, vec![64]);
    let mut state = KeeperState::new(0);
    let plan = state.begin_tick(&cfg, input(0));
    state.complete_burst(&cfg, &plan, true);
    assert_eq!(state.hourly_budget_used_kb, 64);
    let plan = state.begin_tick(&cfg, input(5));
    assert_eq!(plan.burst_kb, 64);
    state.complete_burst(&cfg, &plan, true);
    assert_eq!(state.hourly_budget_used_kb, 128);
    assert!(state.hourly_budget_used_kb < cfg.hourly_budget_kb + 64);

    let plan = state.begin_tick(&cfg, input(10));
    assert_eq!(state.cadence, KeeperCadence::Suspended);
    // Fifteen seconds for the suspended phase and fifteen for the spent budget.
    assert_eq!((plan.burst_kb, plan.sleep_s), (0, 30));
    assert_eq!(plan.progress.hour_used_kb, 128);
    let plan = state.begin_tick(&cfg, input(3_599));
    assert_eq!(plan.burst_kb, 0);
    assert_eq!(state.last_budget_reset, 0);

    let plan = state.begin_tick(&cfg, input(3_600));
    assert_eq!(state.last_budget_reset, 3_600);
    assert_eq!(state.hourly_budget_used_kb, 0);
    assert_eq!(state.cadence, KeeperCadence::Warmup);
    assert_eq!(plan.burst_kb, 64);
    state.complete_burst(&cfg, &plan, true);
    state.begin_tick(&cfg, input(7_199));
    assert_eq!(state.last_budget_reset, 3_600);
    assert_eq!(state.hourly_budget_used_kb, 64);

    let mut direct = KeeperState::new(100);
    direct.hourly_budget_used_kb = 9;
    assert!(!direct.reset_budget_if_needed(3_699));
    assert!(direct.reset_budget_if_needed(3_700));
    assert_eq!((direct.hourly_budget_used_kb, direct.last_budget_reset), (0, 3_700));
    assert!(!direct.reset_budget_if_needed(50));
}

#[test]
fn the_interval_stretches_as_the_budget_runs_out() {
    assert_eq!(budget_stretch(80, 100), 0);
    assert_eq!(budget_stretch(81, 100), 5);
    assert_eq!(budget_stretch(90, 100), 5);
    assert_eq!(budget_stretch(91, 100), 15);
    assert_eq!(budget_stretch(0, 0), 0);
    assert_eq!(budget_stretch(1, 0), 15);
    let cfg = config(1_000, vec![64]);
    let mut state = KeeperState::new(0);
    state.hourly_budget_used_kb = 950;
    state.cadence = KeeperCadence::Steady;
    let plan = state.begin_tick(&cfg, TickInput { entropy: 7, ..input(1) });
    // 10 + 15 seconds, moved by 7 % 4 = 3 seconds, later for an odd number.
    assert_eq!(plan.sleep_s, 28);
    assert_eq!(plan.progress.next_burst_in_s, 28);
}

#[test]
fn jitter_moves_the_interval_by_a_share_of_itself() {
    assert_eq!(jitter_secs(5, 150_000, 123), 5);
    assert_eq!(jitter_secs(10, 150_000, 2), 10);
    assert_eq!(jitter_secs(10, 150_000, 3), 11);
    assert_eq!(jitter_secs(20, 150_000, 6), 18);
    assert_eq!(jitter_secs(20, 150_000, 7), 23);
    assert_eq!(jitter_secs(1, 1_000_000, 1), 2);
    assert_eq!(jitter_secs(1, 1_000_000, 4), 1);
    assert_eq!(jitter_secs(0, 150_000, 4), 1);
    for entropy in 0..200u64 {
        let moved = jitter_secs(25, 150_000, entropy);
        assert!((22..=28).contains(&moved));
    }
}

#[test]
fn burst_sizes_follow_the_phase() {
    let sizes = vec![256, 64, 128];
    assert_eq!(choose_burst_size_kb(&sizes, KeeperCadence::Warmup, 7), 64);
    assert_eq!(choose_burst_size_kb(&sizes, KeeperCadence::Recovery, 64), 128);
    assert_eq!(choose_burst_size_kb(&sizes, KeeperCadence::Recovery, 200), 256);
    assert_eq!(choose_burst_size_kb(&sizes, KeeperCadence::Recovery, u32::MAX), 256);
    assert_eq!(choose_burst_size_kb(&sizes, KeeperCadence::Steady, 200), 200);
    assert_eq!(choose_burst_size_kb(&sizes, KeeperCadence::Suspended, 200), 0);
    assert_eq!(choose_burst_size_kb(&vec![32, 16], KeeperCadence::Warmup, 0), 16);
    assert_eq!(choose_burst_size_kb(&vec![512], KeeperCadence::Warmup, 0), 512);
    assert_eq!(choose_burst_size_kb(&vec![], KeeperCadence::Warmup, 0), 64);
    assert_eq!(choose_burst_size_kb(&vec![], KeeperCadence::Recovery, 200), 256);
}

#[test]
fn a_burst_is_tried_three_times_with_growing_waits() {
    assert_eq!(after_attempt(0, true), AttemptOutcome::Sent);
    assert_eq!(after_attempt(0, false), AttemptOutcome::RetryAfter { secs: 1 });
    assert_eq!(after_attempt(1, false), AttemptOutcome::RetryAfter { secs: 2 });
    assert_eq!(after_attempt(2, false), AttemptOutcome::GiveUpAfter { secs: 4 });
    assert_eq!(after_attempt(2, true), AttemptOutcome::Sent);
    assert_eq!((backoff_secs(0), backoff_secs(1), backoff_secs(2)), (1, 2, 4));
}

#[test]
fn quiet_hours_are_those_listed() {
    assert!(is_quiet_hour(&Some(vec![1, 2, 23]), 23));
    assert!(!is_quiet_hour(&Some(vec![1, 2, 23]), 3));
    assert!(!is_quiet_hour(&Some(vec![]), 3));
    assert!(!is_quiet_hour(&None, 3));
    assert!(!should_quiet_hour(&config(1, vec![])));
    let mut always = config(1, vec![]);
    always.quiet_hours = Some((0..24).collect());
    assert!(should_quiet_hour(&always));
    // Hours that no day has are never the present one.
    let mut never = config(1, vec![]);
    never.quiet_hours = Some((24..=255).collect());
    assert!(!should_quiet_hour(&never));
}

#[test]
fn cadence_names_round_trip() {
    for cadence in [
        KeeperCadence::Warmup,
        KeeperCadence::Steady,
        KeeperCadence::Recovery,
        KeeperCadence::Suspended,
    ] {
        assert_eq!(KeeperCadence::from_name(cadence.name()), Some(cadence));
    }
    assert_eq!(KeeperCadence::Recovery.name(), "recovery");
    assert_eq!(KeeperCadence::from_name("Warmup"), None);
    assert_eq!(KeeperCadence::Steady.base_interval(), 10);
    assert_eq!(KeeperCadence::Suspended.base_interval(), 15);
}

#[test]
fn the_trend_compares_the_last_two_windows() {
    let at = |timestamp: i64, download_kbps: i64| SpeedMeasurement {
        id: None,
        timestamp,
        download_kbps,
        upload_kbps: 1_000,
        latency_ms: 10,
        optimization_active: false,
        confidence: 1_000_000,
    };
    let now = 1_700_000_000;
    let samples = vec![
        at(now - 39, 40_000),
        at(now - 30, 60_000),
        at(now - 20, 50_000),
        at(now - 19, 30_000),
        at(now - 1, 20_000),
    ];
    assert_eq!(recent_metrics(&samples, now), (25_000, 500_000));
    assert_eq!(recent_metrics(&vec![], now), (0, 1_000_000));
    assert_eq!(recent_metrics(&vec![at(now - 5, 9_000)], now), (9_000, 1_000_000));
    assert_eq!(recent_metrics(&vec![at(now - 25, 9_000)], now), (0, 0));
    assert_eq!(recent_metrics(&vec![at(now - 25, 0), at(now, 5)], now), (5, 1_000_000));
}

#[test]
fn bursts_go_to_the_server_or_the_fallback() {
    assert_eq!(
        pick_target_url(Some("speed.example"), 8080, StealthLevel::High, 0x1_0000_002a),
        "http://speed.example:8080/download?nocache=42"
    );
    assert_eq!(
        pick_target_url(Some("speed.example"), 443, StealthLevel::Maximum, 7),
        "https://speed.example:443/download?nocache=7"
    );
    assert_eq!(
        pick_target_url(None, 1, StealthLevel::Low, 7),
        "https://speed.cloudflare.com/__down?bytes=262144"
    );
    assert_eq!(pick_server(Some("h"), 80, StealthLevel::Low), "http://h:80/");
    assert_eq!(pick_server(None, 80, StealthLevel::Low), "https://speed.cloudflare.com/");
    let mut probes = 0;
    for entropy in 0..100u64 {
        let request = perform_burst(64, 2_048 + entropy);
        assert_eq!(request.range, format!("bytes={}-{}", entropy, entropy + 65_535));
        assert!((20..80).contains(&request.pause_ms));
        if request.head_first {
            probes += 1;
        }
    }
    assert!(probes > 0 && probes < 100);
    assert_eq!(perform_burst(0, 5).range, "bytes=5-5");
    let headers = build_headers();
    assert_eq!(headers.len(), 7);
    assert_eq!(headers[3], ("accept-encoding", "identity"));
    assert_eq!(headers[5], ("pragma", "no-cache"));
}

#[test]
fn a_phase_moves_on_as_the_table_says() {
    let warmup = KeeperCadence::Warmup;
    let steady = KeeperCadence::Steady;
    let recovery = KeeperCadence::Recovery;
    let suspended = KeeperCadence::Suspended;
    for drop in [false, true] {
        assert_eq!(warmup.next(drop, false), warmup);
        assert_eq!(warmup.next(drop, true), steady);
        assert_eq!(recovery.next(drop, false), recovery);
        assert_eq!(recovery.next(drop, true), steady);
        for stable in [false, true] {
            assert_eq!(suspended.next(drop, stable), warmup);
        }
    }
    for stable in [false, true] {
        assert_eq!(steady.next(false, stable), steady);
        assert_eq!(steady.next(true, stable), recovery);
    }
}

#[test]
fn the_smallest_and_largest_sizes_have_defaults() {
    assert_eq!(isp_speedkarma::keeper::smallest_of(&vec![128, 32, 256]), 32);
    assert_eq!(isp_speedkarma::keeper::largest_of(&vec![128, 32, 256]), 256);
    assert_eq!(isp_speedkarma::keeper::smallest_of(&vec![]), 64);
    assert_eq!(isp_speedkarma::keeper::largest_of(&vec![]), 256);
    assert_eq!(isp_speedkarma::keeper::smallest_of(&vec![7]), 7);
    assert_eq!(isp_speedkarma::keeper::largest_of(&vec![7]), 7);
    assert!(isp_speedkarma::keeper::contains_u8(&vec![1, 2, 3], 2));
    assert!(!isp_speedkarma::keeper::contains_u8(&vec![1, 2, 3], 4));
    assert!(!isp_speedkarma::keeper::contains_u8(&vec![], 0));
}

#[test]
fn the_scheduler_runs_one_loop_at_most() {
    let mut keeper = isp_speedkarma::keeper::ThroughputKeeper::new(config(1_000, vec![64]), 10);
    assert!(!keeper.is_running);
    assert_eq!(keeper.state, KeeperState::new(10));
    assert!(keeper.start());
    assert!(keeper.is_running);
    assert!(!keeper.start());
    keeper.stop();
    assert!(!keeper.is_running);
    keeper.stop();
    assert!(!keeper.is_running);
    assert!(keeper.start());
    assert_eq!(keeper.state, KeeperState::new(10));
}

#[test]
fn the_scheduler_ticks_with_its_own_settings() {
    let mut keeper = isp_speedkarma::keeper::ThroughputKeeper::new(config(100, vec![64, 128]), 0);
    let mut state = KeeperState::new(0);

    let plan = keeper.tick(input(1));
    let expected = state.begin_tick(&config(100, vec![64, 128]), input(1));
    assert_eq!(plan.burst_kb, 64);
    assert_eq!(plan.burst_kb, expected.burst_kb);
    assert_eq!(plan.sleep_s, expected.sleep_s);
    assert_eq!(keeper.state, state);

    let progress = keeper.emit_progress(&plan, true);
    assert_eq!(progress, state.complete_burst(&config(100, vec![64, 128]), &expected, true));
    assert_eq!(progress.hour_used_kb, 64);
    assert_eq!(progress.hour_budget_kb, 100);
    assert_eq!(keeper.state.hourly_budget_used_kb, 64);

    // A burst that failed is not charged.
    let plan = keeper.tick(input(2));
    assert_eq!(plan.burst_kb, 64);
    let progress = keeper.emit_progress(&plan, false);
    assert_eq!(progress.hour_used_kb, 64);

    // New settings take effect with the next tick; the state stays.
    let used = keeper.state;
    keeper.update_config(config(64, vec![64, 128]));
    assert_eq!(keeper.state, used);
    assert_eq!(keeper.config.hourly_budget_kb, 64);
    let plan = keeper.tick(input(3));
    assert_eq!(plan.burst_kb, 0);
    assert_eq!(keeper.state.cadence, KeeperCadence::Suspended);
}
