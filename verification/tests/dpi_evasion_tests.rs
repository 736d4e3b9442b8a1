use isp_speedkarma::models::{SpeedtestServer, StealthLevel};
use isp_speedkarma::servers::ServerPool;
use isp_speedkarma::stealth::DetectionRisk;
use isp_speedkarma::stealth_engine::StealthEngine;

fn ppm(ratio: f64) -> u64 {
    (ratio * 1_000_000.0).round() as u64
}

// Helper function to create test servers
fn create_test_server(id: &str, host: &str, country: &str) -> SpeedtestServer {
    SpeedtestServer::new(
        id.to_string(),
        host.to_string(),
        8080,
        format!("{} Test Server", country),
        country.to_string(),
        "Test Sponsor".to_string(),
    )
}

/// Test DPI evasion effectiveness by simulating various network conditions
#[test]
fn test_dpi_evasion_under_throttling() {
    // Add test servers
    let test_servers = vec![
        create_test_server("sg1", "speedtest.singapore.com", "Singapore"),
        create_test_server("in1", "speedtest.mumbai.com", "India"),
        create_test_server("lk1", "speedtest.colombo.com", "Sri Lanka"),
    ];

    // Initialize with test servers
    let mut pool = ServerPool::new();
    pool.set_servers(test_servers);
    let mut stealth_engine = StealthEngine::new(StealthLevel::High, 0);
    stealth_engine.start(&pool, 0).expect("Failed to start stealth engine");

    // Simulate DPI detection scenario: none of the servers exists, so every round fails
    let mut detection_attempts = 0;
    let max_attempts = 10;

    while detection_attempts < max_attempts {
        // Plan stealth traffic
        let plan = stealth_engine.begin_cycle(detection_attempts);
        assert!(plan.target.is_some());

        // Failure - record negative result and adapt
        stealth_engine.record_connection_result(false, None);

        // Trigger adaptation
        stealth_engine.adapt_stealth_strategy(detection_attempts);

        detection_attempts += 1;

        // Check if we've adapted to high detection risk
        let current_risk = stealth_engine.assess_detection_risk();
        if current_risk == DetectionRisk::High {
            break;
        }
    }

    // Verify that stealth engine adapted appropriately
    let final_stats = stealth_engine.get_stealth_stats(detection_attempts);
    let dpi_stats = &final_stats.dpi_bypass_stats;
    assert_eq!(detection_attempts, 6);
    assert_eq!(dpi_stats.detection_risk, DetectionRisk::High);

    // Should have enabled advanced features under high detection risk
    if dpi_stats.detection_risk == DetectionRisk::High {
        assert!(dpi_stats.packet_fragmentation_enabled);
        assert!(dpi_stats.header_obfuscation_enabled);
        assert!(dpi_stats.dns_pattern_replication_enabled);
    }

    stealth_engine.stop();
}

/// Test packet fragmentation effectiveness
#[test]
fn test_packet_fragmentation_patterns() {
    let stealth_engine = StealthEngine::new(StealthLevel::Maximum, 0);

    // Test different payload sizes with fragmentation
    let payload_sizes = vec![500, 1000, 1500, 2000];

    for size in payload_sizes {
        let payload = stealth_engine.generate_speedtest_payload(size);
        assert!(payload.len() <= size);

        // Verify payload structure
        assert!(payload.starts_with("content1="));

        // Test that payload contains varied data (not all same character)
        let data_part = &payload[9..]; // Skip "content1=" prefix
        let unique_chars: std::collections::HashSet<char> = data_part.chars().collect();
        assert!(unique_chars.len() > 10, "Payload should contain varied characters");
    }
}

/// Test header obfuscation patterns
#[test]
fn test_header_obfuscation_variety() {
    let stealth_engine = StealthEngine::new(StealthLevel::High, 0);

    let mut user_agents = std::collections::HashSet::new();
    let mut accept_encodings = std::collections::HashSet::new();
    let mut connections = std::collections::HashSet::new();

    // Generate multiple header sets to test randomization
    for _ in 0..20 {
        let headers = stealth_engine.create_obfuscated_headers();
        user_agents.insert(headers.user_agent.to_string());
        accept_encodings.insert(headers.accept_encoding.to_string());
        connections.insert(headers.connection.to_string());
    }

    // Should have multiple variations due to randomization
    assert!(user_agents.len() > 1, "Should have multiple User-Agent variations");
    assert!(accept_encodings.len() > 1, "Should have multiple Accept-Encoding variations");
    assert!(connections.len() > 1, "Should have multiple Connection variations");
}

/// Test DNS pattern replication timing
#[test]
fn test_dns_pattern_timing() {
    let stealth_engine = StealthEngine::new(StealthLevel::High, 0);

    let test_server = create_test_server("dns_test", "speedtest.example.com", "Test");

    // Sum the waits of the simulated lookups
    let lookups = stealth_engine.replicate_dns_patterns(&test_server);
    let planned_ms: u64 = lookups.iter().map(|lookup| lookup.delay_ms).sum();

    // Should take reasonable time for multiple DNS lookups
    assert!(planned_ms >= 40, "DNS replication should take time for multiple queries");
    assert!(planned_ms <= 2_000, "DNS replication should not take too long");
}

/// Test adaptive stealth under simulated DPI detection
#[test]
fn test_adaptive_stealth_under_detection() {
    let mut stealth_engine = StealthEngine::new(StealthLevel::Medium, 0);

    // Initial state should be low risk
    assert_eq!(stealth_engine.assess_detection_risk(), DetectionRisk::Low);

    // Simulate gradual detection increase
    let detection_scenarios = vec![
        (2, DetectionRisk::Low),       // 2 failures -> still low
        (3, DetectionRisk::Medium),    // 3 failures -> medium
        (6, DetectionRisk::High),      // 6 failures -> high
        (12, DetectionRisk::Critical), // 12 failures -> critical
    ];

    for (failure_count, expected_risk) in detection_scenarios {
        // Simulate failures; they add to those of the scenarios before
        for _ in 0..failure_count {
            stealth_engine.record_connection_result(false, None);
        }

        let current_risk = stealth_engine.assess_detection_risk();
        assert_eq!(current_risk, expected_risk, "Risk assessment failed for {} failures", failure_count);

        // Test adaptation
        stealth_engine.adapt_stealth_strategy(0);

        let stats = stealth_engine.get_dpi_bypass_stats();
        assert!(stats.adaptation_count > 0, "Should have adapted strategy");
    }
}

/// Test effectiveness measurement and learning
#[test]
fn test_effectiveness_learning() {
    let mut stealth_engine = StealthEngine::new(StealthLevel::High, 0);

    // Initial effectiveness should be 1.0
    let initial_stats = stealth_engine.get_dpi_bypass_stats();
    assert_eq!(initial_stats.effectiveness_score, ppm(1.0));

    // Simulate mixed results with effectiveness feedback
    let test_scenarios = vec![
        (true, Some(ppm(0.9))), // High effectiveness success
        (true, Some(ppm(0.7))), // Medium effectiveness success
        (false, None),          // Failure
        (true, Some(ppm(0.8))), // Good effectiveness success
        (false, None),          // Another failure
        (true, Some(ppm(0.6))), // Lower effectiveness success
    ];

    for (success, effectiveness) in test_scenarios {
        stealth_engine.record_connection_result(success, effectiveness);
    }

    let final_stats = stealth_engine.get_dpi_bypass_stats();

    // Effectiveness should be updated based on feedback
    assert!(final_stats.effectiveness_score < ppm(1.0), "Effectiveness should decrease with mixed results");
    assert!(final_stats.effectiveness_score > 0, "Effectiveness should not go to zero");

    // Should have some failures recorded
    assert!(final_stats.consecutive_failures > 0, "Should have recorded consecutive failures");
}

/// Test raw HTTP request generation for maximum stealth
#[test]
fn test_raw_http_request_generation() {
    let stealth_engine = StealthEngine::new(StealthLevel::Maximum, 0);

    let test_server = create_test_server("raw_test", "raw.speedtest.net", "Test");

    let request_str = stealth_engine.create_raw_http_request(&test_server);

    // Validate HTTP request structure
    assert!(request_str.starts_with("GET /speedtest/latency.txt"), "Should start with GET request");
    assert!(request_str.contains("HTTP/1.1"), "Should specify HTTP/1.1");
    assert!(request_str.contains("Host: raw.speedtest.net:8080"), "Should include correct Host header");
    assert!(request_str.contains("User-Agent:"), "Should include User-Agent header");
    assert!(request_str.ends_with("\r\n\r\n"), "Should end with proper HTTP termination");

    // Should include query parameter for cache busting
    assert!(request_str.contains("?r="), "Should include random query parameter");
}

/// Test complete DPI bypass workflow integration
#[test]
fn dpi_evasion_tests_test_complete_dpi_bypass_workflow() {
    // Add test servers
    let test_servers = vec![
        create_test_server("workflow1", "w1.speedtest.net", "Singapore"),
        create_test_server("workflow2", "w2.speedtest.net", "India"),
    ];

    let mut pool = ServerPool::new();
    pool.set_servers(test_servers);
    let mut stealth_engine = StealthEngine::new(StealthLevel::High, 0);

    // Start stealth engine
    stealth_engine.start(&pool, 0).expect("Failed to start stealth engine");

    // Run complete workflow multiple times; rounds go through and fail in turn
    for iteration in 1..=5u64 {
        // Record result and adapt
        if iteration % 2 == 1 {
            stealth_engine.record_connection_result(true, Some(ppm(0.75)));
        } else {
            stealth_engine.record_connection_result(false, None);
        }

        // Adapt strategy based on results
        stealth_engine.adapt_stealth_strategy(iteration);

        // Rotate servers if needed
        if stealth_engine.should_rotate_servers(iteration) {
            stealth_engine.rotate_servers(iteration);
        }
    }

    // Final verification
    let final_stats = stealth_engine.get_stealth_stats(5);
    let final_dpi_stats = &final_stats.dpi_bypass_stats;

    // Should have some activity recorded
    assert!(final_dpi_stats.adaptation_count > 0, "Should have performed adaptations");
    assert_eq!(final_dpi_stats.adaptation_count, 5);
    assert_eq!(final_dpi_stats.consecutive_failures, 2);

    // DPI bypass features should be enabled for high stealth level
    assert!(final_dpi_stats.packet_fragmentation_enabled, "Packet fragmentation should be enabled");
    assert!(final_dpi_stats.header_obfuscation_enabled, "Header obfuscation should be enabled");
    assert!(final_dpi_stats.dns_pattern_replication_enabled, "DNS pattern replication should be enabled");

    stealth_engine.stop();
}
