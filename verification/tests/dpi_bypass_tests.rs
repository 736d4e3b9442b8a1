use isp_speedkarma::models::{SpeedtestServer, StealthLevel};
use isp_speedkarma::servers::{load_fallback_servers, ServerPool};
use isp_speedkarma::stealth::DetectionRisk;
use isp_speedkarma::stealth_engine::StealthEngine;

fn ppm(ratio: f64) -> u64 {
    (ratio * 1_000_000.0).round() as u64
}

#[test]
fn test_detection_risk_assessment() {
    let mut stealth_engine = StealthEngine::new(StealthLevel::High, 0);

    // Initial risk should be low
    let initial_risk = stealth_engine.assess_detection_risk();
    assert_eq!(initial_risk, DetectionRisk::Low);

    // Simulate failures to increase risk
    for _ in 0..3 {
        stealth_engine.record_connection_result(false, None);
    }

    let medium_risk = stealth_engine.assess_detection_risk();
    assert_eq!(medium_risk, DetectionRisk::Medium);

    // Simulate more failures for high risk
    for _ in 0..4 {
        stealth_engine.record_connection_result(false, None);
    }

    let high_risk = stealth_engine.assess_detection_risk();
    assert_eq!(high_risk, DetectionRisk::High);
}

#[test]
fn test_adaptive_stealth_strategy() {
    let mut stealth_engine = StealthEngine::new(StealthLevel::Medium, 0);

    // Record multiple failures to trigger adaptation
    for _ in 0..6 {
        stealth_engine.record_connection_result(false, None);
    }

    // Adaptation should change rotation interval
    let initial_rotation = stealth_engine.rotation_state.rotation_interval;

    stealth_engine.adapt_stealth_strategy(0);

    let adapted_rotation = stealth_engine.rotation_state.rotation_interval;

    // High risk should result in faster rotation
    assert!(adapted_rotation < initial_rotation);
}

#[test]
fn test_header_obfuscation() {
    let stealth_engine = StealthEngine::new(StealthLevel::High, 0);

    let headers = stealth_engine.create_obfuscated_headers();

    // Should have User-Agent header
    assert!(!headers.user_agent.is_empty());

    // Should have Accept-Encoding header
    assert!(!headers.accept_encoding.is_empty());

    // Should have Connection header
    assert!(!headers.connection.is_empty());

    // Should have Cache-Control header
    assert!(!headers.cache_control.is_empty());

    // Many calls produce more than one user agent (randomization)
    let agents: std::collections::HashSet<&str> =
        (0..200).map(|_| stealth_engine.create_obfuscated_headers().user_agent).collect();
    assert!(agents.len() > 1);
}

#[test]
fn test_dns_pattern_replication() {
    let stealth_engine = StealthEngine::new(StealthLevel::High, 0);

    let server = SpeedtestServer::new(
        "test123".to_string(),
        "speedtest.example.com".to_string(),
        8080,
        "Test Server".to_string(),
        "Test Country".to_string(),
        "Test Sponsor".to_string(),
    );

    let lookups = stealth_engine.replicate_dns_patterns(&server);
    let planned: u64 = lookups.iter().map(|lookup| lookup.delay_ms).sum();

    // DNS pattern replication should take some time due to simulated lookups
    assert_eq!(lookups.len(), 4);
    assert!(planned >= 40); // At least 4 queries * 10ms minimum
}

#[test]
fn test_effectiveness_tracking() {
    let mut stealth_engine = StealthEngine::new(StealthLevel::Medium, 0);

    // Initial effectiveness should be 1.0
    let initial_stats = stealth_engine.get_dpi_bypass_stats();
    assert_eq!(initial_stats.effectiveness_score, ppm(1.0));

    // Record successful connections with varying effectiveness
    stealth_engine.record_connection_result(true, Some(ppm(0.8)));
    stealth_engine.record_connection_result(true, Some(ppm(0.6)));

    let updated_stats = stealth_engine.get_dpi_bypass_stats();

    // Effectiveness should be updated with exponential moving average
    assert!(updated_stats.effectiveness_score < ppm(1.0));
    assert!(updated_stats.effectiveness_score > ppm(0.5));
    assert_eq!(updated_stats.effectiveness_score, 838_000);

    // Record failure
    stealth_engine.record_connection_result(false, None);

    let failure_stats = stealth_engine.get_dpi_bypass_stats();
    assert_eq!(failure_stats.consecutive_failures, 1);
    assert!(failure_stats.effectiveness_score < updated_stats.effectiveness_score);
}

#[test]
fn test_stealth_level_upgrade() {
    let mut stealth_engine = StealthEngine::new(StealthLevel::Low, 0);

    // Initial configuration should be low stealth
    let initial_stats = stealth_engine.get_dpi_bypass_stats();
    assert!(!initial_stats.packet_fragmentation_enabled);
    assert!(!initial_stats.header_obfuscation_enabled);

    // Upgrade to maximum stealth
    stealth_engine.update_stealth_level(StealthLevel::Maximum);

    let upgraded_stats = stealth_engine.get_dpi_bypass_stats();
    assert!(upgraded_stats.packet_fragmentation_enabled);
    assert!(upgraded_stats.header_obfuscation_enabled);
    assert!(upgraded_stats.dns_pattern_replication_enabled);
}

#[test]
fn test_traffic_pattern_configuration() {
    let stealth_engine = StealthEngine::new(StealthLevel::High, 0);

    // High stealth level should enable advanced features
    assert!(stealth_engine.traffic_pattern.fragmentation_enabled);
    assert!(stealth_engine.traffic_pattern.header_modification_enabled);
    assert!(stealth_engine.traffic_pattern.dscp_marking_enabled);
    assert!(stealth_engine.traffic_pattern.tcp_window_scaling);

    // Packet size range should be appropriate for stealth
    let (min_size, max_size) = stealth_engine.traffic_pattern.packet_size_range;
    assert!(min_size >= 500);
    assert!(max_size <= 1200);
    assert!(min_size < max_size);
}

#[test]
fn test_raw_http_request_creation() {
    let stealth_engine = StealthEngine::new(StealthLevel::Maximum, 0);

    let server = SpeedtestServer::new(
        "test456".to_string(),
        "test.speedtest.net".to_string(),
        8080,
        "Test Server".to_string(),
        "Test Country".to_string(),
        "Test Sponsor".to_string(),
    );

    let request_str = stealth_engine.create_raw_http_request(&server);

    // Should be valid HTTP request
    assert!(request_str.starts_with("GET /speedtest/latency.txt"));
    assert!(request_str.contains("HTTP/1.1"));
    assert!(request_str.contains("Host: test.speedtest.net:8080"));
    assert!(request_str.contains("User-Agent:"));
    assert!(request_str.ends_with("\r\n\r\n"));
}

// The whole of one evasion, from start to stop
#[test]
fn dpi_bypass_tests_test_complete_dpi_bypass_workflow() {
    let mut server_pool = ServerPool::new();
    server_pool.set_servers(load_fallback_servers());
    let mut stealth_engine = StealthEngine::new(StealthLevel::High, 0);

    // Start stealth engine
    stealth_engine.start(&server_pool, 0).unwrap();

    // Get initial stats
    let initial_stats = stealth_engine.get_stealth_stats(0);
    assert_eq!(initial_stats.dpi_bypass_stats.detection_risk, DetectionRisk::Low);
    assert_eq!(initial_stats.dpi_bypass_stats.consecutive_failures, 0);

    // Simulate detection risk increase
    for _ in 0..5 {
        stealth_engine.record_connection_result(false, None);
    }

    // Adapt strategy
    stealth_engine.adapt_stealth_strategy(0);

    // Check updated stats
    let updated_stats = stealth_engine.get_stealth_stats(0);
    assert_eq!(updated_stats.dpi_bypass_stats.detection_risk, DetectionRisk::Medium);
    assert_eq!(updated_stats.dpi_bypass_stats.consecutive_failures, 5);
    assert!(updated_stats.dpi_bypass_stats.adaptation_count > 0);

    // Stop stealth engine
    stealth_engine.stop();
}
