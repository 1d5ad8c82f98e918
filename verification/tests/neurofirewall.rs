use icarus::neurofirewall::{
    decide, decide_on, extract, feature_labels, FirewallDecision, FirewallError, NetworkPacket,
    NeuroFireWall, NeuroFireWallConfig, NeuroFireWallState, ObservationBuffer, ScoringOutcome,
    TrafficType,
};
use icarus::table::Metadata;
use std::time::SystemTime;

fn unix_now() -> u64 {
    SystemTime::now().duration_since(SystemTime::UNIX_EPOCH).unwrap().as_secs()
}

fn create_test_packet() -> NetworkPacket {
    NetworkPacket {
        id: format!("packet-{}", uuid::Uuid::new_v4()),
        source_ip: "192.168.1.100".to_string(),
        destination_ip: "192.168.1.1".to_string(),
        source_port: 12345,
        destination_port: 80,
        protocol: "TCP".to_string(),
        size: 1024,
        timestamp: unix_now(),
        traffic_type: TrafficType::Web,
        payload_sample: vec![0, 1, 2, 3, 4],
        metadata: Metadata::new(),
    }
}

fn named_packet(id: &str) -> NetworkPacket {
    let mut packet = create_test_packet();
    packet.id = id.to_string();
    packet
}

fn operational(config: NeuroFireWallConfig) -> NeuroFireWall {
    let mut firewall = NeuroFireWall::new(config);
    firewall.initialize().unwrap();
    firewall
}

#[test]
fn test_neurofirewall_initialization() {
    let config = NeuroFireWallConfig::default();
    let mut firewall = NeuroFireWall::new(config);

    assert_eq!(firewall.get_state(), NeuroFireWallState::Initializing);

    let result = firewall.initialize();
    assert!(result.is_ok());

    assert_eq!(firewall.get_state(), NeuroFireWallState::Operational);
}

#[test]
fn test_analyze_normal_packet() {
    let config = NeuroFireWallConfig::default();
    let mut firewall = NeuroFireWall::new(config);
    firewall.initialize().unwrap();

    let packet = create_test_packet();

    // The oracle finds the packet ordinary.
    let result = firewall.analyze_packet(packet, ScoringOutcome::Score(100_000));
    assert!(result.is_ok());

    let (decision, event) = result.unwrap();
    assert_eq!(decision, FirewallDecision::Allow);
    assert!(event.is_none());

    let stats = firewall.get_stats();
    assert_eq!(stats.total_packets_analyzed, 1);
    assert_eq!(stats.packets_allowed, 1);
}

#[test]
fn mod_test_extract_features() {
    let config = NeuroFireWallConfig::default();
    let mut firewall = NeuroFireWall::new(config);
    firewall.initialize().unwrap();

    let packet = create_test_packet();

    let result = firewall.extract_features(&packet);
    assert!(result.is_ok());

    let features = result.unwrap();
    assert_eq!(features.packet_id, packet.id);
    assert_eq!(features.features.len(), 10);
    assert_eq!(features.feature_labels.len(), 10);
}

#[test]
fn test_learning_cycle() {
    let mut config = NeuroFireWallConfig::default();
    config.enable_continuous_learning = true;

    let mut firewall = NeuroFireWall::new(config);
    firewall.initialize().unwrap();

    let result = firewall.run_learning_cycle();
    assert!(result.is_ok());

    let stats = firewall.get_stats();
    assert_eq!(stats.learning_cycles, 1);
}

#[test]
fn default_settings_of_the_firewall() {
    let config = NeuroFireWallConfig::default();
    assert_eq!(config.buffer_size, 10000);
    assert_eq!(config.anomaly_threshold, 850_000);
    assert_eq!(config.learning_interval, 3600);
    assert!(config.enable_continuous_learning);
    assert!(!config.strict_mode);
    assert_eq!(config.sensitivity, 750_000);
    assert_eq!(config.log_level, 3);
    assert_eq!(config.neural_layers, 4);
    assert_eq!(config.hidden_layer_size, 256);
    assert_eq!(config.max_threshold_step, 50_000);
    assert_eq!(config.target_false_positive_rate, 1_000);
}

#[test]
fn features_of_a_packet_have_the_documented_values() {
    let packet = create_test_packet();
    let features = extract(&packet);
    assert_eq!(
        features.features,
        vec![1_220, 188_372, 682_666, 100_000, 100_000, 0, 3_921, 7_843, 11_764, 15_686]
    );
    assert_eq!(
        features.feature_labels,
        vec![
            "destination_port",
            "source_port",
            "packet_size",
            "protocol",
            "traffic_type",
            "payload_byte_0",
            "payload_byte_1",
            "payload_byte_2",
            "payload_byte_3",
            "payload_byte_4"
        ]
    );
    assert_eq!(feature_labels(), features.feature_labels);
    assert_eq!(features.anomaly_score, 0);
}

#[test]
fn features_keep_their_number_whatever_the_payload() {
    for length in [0usize, 1, 4, 5, 6, 2048] {
        let mut packet = create_test_packet();
        packet.payload_sample = vec![255; length];
        let features = extract(&packet);
        assert_eq!(features.features.len(), 10);
        assert_eq!(features.feature_labels.len(), 10);
        for i in 0..5 {
            let expected = if i < length { 1_000_000 } else { 0 };
            assert_eq!(features.features[5 + i], expected);
        }
    }
}

#[test]
fn features_of_protocols_and_traffic_classes() {
    let protocols = [
        ("TCP", 100_000),
        ("UDP", 200_000),
        ("ICMP", 300_000),
        ("HTTP", 400_000),
        ("HTTPS", 500_000),
        ("SCTP", 900_000),
        ("tcp", 900_000),
    ];
    for (protocol, value) in protocols {
        let mut packet = create_test_packet();
        packet.protocol = protocol.to_string();
        assert_eq!(extract(&packet).features[3], value);
    }
    let classes = [
        (TrafficType::Web, 100_000),
        (TrafficType::Dns, 200_000),
        (TrafficType::Ssh, 300_000),
        (TrafficType::Ftp, 400_000),
        (TrafficType::Smtp, 500_000),
        (TrafficType::Database, 600_000),
        (TrafficType::IoT, 700_000),
        (TrafficType::Api, 800_000),
        (TrafficType::Unknown, 900_000),
    ];
    for (class, value) in classes {
        let mut packet = create_test_packet();
        packet.traffic_type = class;
        assert_eq!(extract(&packet).features[4], value);
    }
    let mut big = create_test_packet();
    big.size = usize::MAX;
    big.destination_port = 65535;
    let features = extract(&big);
    assert_eq!(features.features[0], 1_000_000);
    assert_eq!(features.features[2], u32::MAX);
}

#[test]
fn decisions_by_score_threshold_and_mode() {
    let threshold = 850_000;
    assert_eq!(decide(0, threshold, false), FirewallDecision::Allow);
    assert_eq!(decide(679_999, threshold, false), FirewallDecision::Allow);
    assert_eq!(decide(680_000, threshold, false), FirewallDecision::Alert);
    assert_eq!(decide(849_999, threshold, false), FirewallDecision::Alert);
    assert_eq!(decide(850_000, threshold, false), FirewallDecision::Quarantine);
    assert_eq!(decide(850_000, threshold, true), FirewallDecision::Block);
    assert_eq!(decide(949_999, threshold, false), FirewallDecision::Quarantine);
    assert_eq!(decide(950_000, threshold, false), FirewallDecision::Block);
    assert_eq!(decide(1_000_000, threshold, false), FirewallDecision::Block);
    // The hard ceiling does not depend on the threshold.
    assert_eq!(decide(950_000, 1_000_000, false), FirewallDecision::Block);
    assert_eq!(decide(949_999, 1_000_000, false), FirewallDecision::Alert);
    assert_eq!(decide(799_999, 1_000_000, true), FirewallDecision::Allow);
    // With a threshold of 0 every score reaches it.
    assert_eq!(decide(0, 0, false), FirewallDecision::Quarantine);
    assert_eq!(decide(0, 0, true), FirewallDecision::Block);
}

#[test]
fn decisions_never_get_milder_as_the_score_rises() {
    for strict in [false, true] {
        for threshold in [0u32, 1, 300_000, 850_000, 950_000, 1_000_000] {
            let mut last = 0;
            let mut score = 0u32;
            while score <= 1_000_000 {
                let rank = decide(score, threshold, strict).severity_rank();
                assert!(rank >= last);
                last = rank;
                score += 2_500;
            }
        }
    }
}

#[test]
fn a_failing_oracle_is_answered_by_policy() {
    assert_eq!(decide_on(ScoringOutcome::Timeout, 850_000, true), FirewallDecision::Block);
    assert_eq!(decide_on(ScoringOutcome::Unavailable, 850_000, true), FirewallDecision::Block);
    assert_eq!(decide_on(ScoringOutcome::Timeout, 850_000, false), FirewallDecision::Alert);
    assert_eq!(decide_on(ScoringOutcome::Unavailable, 850_000, false), FirewallDecision::Alert);
    assert_eq!(decide_on(ScoringOutcome::Score(10), 850_000, true), FirewallDecision::Allow);

    let mut firewall = operational(NeuroFireWallConfig::default());
    let (decision, event) =
        firewall.analyze_packet(create_test_packet(), ScoringOutcome::Timeout).unwrap();
    assert_eq!(decision, FirewallDecision::Alert);
    assert!(event.is_none());
    let stats = firewall.get_stats();
    assert_eq!(stats.scoring_failures, 1);
    assert_eq!(stats.packets_alerted, 1);
    assert_eq!(stats.detection_events, 0);

    let mut config = NeuroFireWallConfig::default();
    config.strict_mode = true;
    let mut strict = operational(config);
    let (decision, event) =
        strict.analyze_packet(create_test_packet(), ScoringOutcome::Unavailable).unwrap();
    assert_eq!(decision, FirewallDecision::Block);
    assert!(event.is_none());
    assert_eq!(strict.get_stats().packets_blocked, 1);
}

#[test]
fn the_order_of_severity_of_decisions() {
    let ordered = [FirewallDecision::Allow, FirewallDecision::Alert, FirewallDecision::RateLimit, FirewallDecision::Quarantine, FirewallDecision::Redirect, FirewallDecision::Block];
    for (rank, decision) in ordered.iter().enumerate() {
        assert_eq!(decision.severity_rank() as usize, rank);
    }
    assert_eq!(FirewallDecision::Alert.more_severe(FirewallDecision::Quarantine), FirewallDecision::Quarantine);
    assert_eq!(FirewallDecision::Block.more_severe(FirewallDecision::Redirect), FirewallDecision::Block);
    assert_eq!(FirewallDecision::Allow.more_severe(FirewallDecision::Allow), FirewallDecision::Allow);
}

#[test]
fn an_event_is_raised_exactly_when_the_threshold_is_reached() {
    let mut firewall = operational(NeuroFireWallConfig::default());
    let below = firewall
        .analyze_packet_at(named_packet("p1"), ScoringOutcome::Score(849_999), "u1", 7, 3)
        .unwrap();
    assert_eq!(below.0, FirewallDecision::Alert);
    assert!(below.1.is_none());
    let at = firewall
        .analyze_packet_at(named_packet("p2"), ScoringOutcome::Score(850_000), "u2", 8, 5)
        .unwrap();
    assert_eq!(at.0, FirewallDecision::Quarantine);
    let event = at.1.unwrap();
    assert_eq!(event.id, "event-u2");
    assert_eq!(event.timestamp, 8);
    assert_eq!(event.anomaly_score, 850_000);
    assert_eq!(event.threshold, 850_000);
    assert_eq!(event.score().score, 850_000);
    assert_eq!(event.score().threshold, 850_000);
    assert_eq!(event.decision, FirewallDecision::Quarantine);
    assert_eq!(event.related_packets, vec!["p2"]);
    assert_eq!(event.trigger_features, feature_labels());
    assert_eq!(event.description, "Anomalie détectée avec un score de 0.85");
    let stats = firewall.get_stats();
    assert_eq!(stats.total_packets_analyzed, 2);
    assert_eq!(stats.packets_alerted, 1);
    assert_eq!(stats.packets_quarantined, 1);
    assert_eq!(stats.detection_events, 1);
    assert_eq!(stats.total_analysis_time_us, 8);
    assert_eq!(stats.avg_analysis_time_us(), 4);
}

#[test]
fn a_score_at_the_ceiling_but_below_the_threshold_blocks_without_an_event() {
    let mut config = NeuroFireWallConfig::default();
    config.anomaly_threshold = 990_000;
    let mut firewall = operational(config);
    let (decision, event) =
        firewall.analyze_packet(create_test_packet(), ScoringOutcome::Score(960_000)).unwrap();
    assert_eq!(decision, FirewallDecision::Block);
    assert!(event.is_none());
}

#[test]
fn a_random_event_identifier_has_a_prefix_and_36_characters() {
    let mut firewall = operational(NeuroFireWallConfig::default());
    let (_, event) =
        firewall.analyze_packet(create_test_packet(), ScoringOutcome::Score(999_000)).unwrap();
    let event = event.unwrap();
    assert!(event.id.starts_with("event-"));
    assert_eq!(event.id.chars().count(), 6 + 36);
    assert_eq!(event.description, "Anomalie détectée avec un score de 1.00");
}

#[test]
fn packets_are_refused_unless_the_firewall_analyses() {
    let states = [
        NeuroFireWallState::Initializing,
        NeuroFireWallState::Degraded,
        NeuroFireWallState::Maintenance,
        NeuroFireWallState::Error("model".to_string()),
        NeuroFireWallState::Shutdown,
    ];
    for state in states {
        let mut firewall = operational(NeuroFireWallConfig::default());
        firewall.set_state(state.clone());
        let result = firewall.analyze_packet(create_test_packet(), ScoringOutcome::Score(0));
        assert_eq!(result.unwrap_err(), FirewallError::NotOperational(state));
        assert_eq!(firewall.get_stats().total_packets_analyzed, 0);
        assert_eq!(firewall.buffered(), 0);
    }
    let mut learning = operational(NeuroFireWallConfig::default());
    learning.begin_learning_cycle().unwrap();
    assert_eq!(learning.get_state(), NeuroFireWallState::Learning);
    assert!(learning.analyze_packet(create_test_packet(), ScoringOutcome::Score(0)).is_ok());
    learning.shutdown().unwrap();
    assert_eq!(learning.get_state(), NeuroFireWallState::Shutdown);
}

#[test]
fn the_buffer_keeps_the_newest_packets() {
    let mut buffer = ObservationBuffer::new(3);
    assert_eq!(buffer.capacity(), 3);
    assert!(buffer.push(named_packet("a")).is_none());
    assert!(buffer.push(named_packet("b")).is_none());
    assert!(buffer.push(named_packet("c")).is_none());
    assert_eq!(buffer.len(), 3);
    let evicted = buffer.push(named_packet("d")).unwrap();
    assert_eq!(evicted.id, "a");
    assert_eq!(buffer.len(), 3);
    assert_eq!(buffer.get(0).unwrap().id, "b");
    assert_eq!(buffer.get(1).unwrap().id, "c");
    assert_eq!(buffer.get(2).unwrap().id, "d");
    assert!(buffer.get(3).is_none());

    let mut none = ObservationBuffer::new(0);
    assert_eq!(none.push(named_packet("x")).unwrap().id, "x");
    assert_eq!(none.len(), 0);
}

#[test]
fn the_firewall_buffers_no_more_than_its_settings_allow() {
    let mut config = NeuroFireWallConfig::default();
    config.buffer_size = 4;
    let mut firewall = operational(config);
    for i in 0..10 {
        firewall
            .analyze_packet(named_packet(&format!("p{}", i)), ScoringOutcome::Score(0))
            .unwrap();
        assert!(firewall.buffered() <= 4);
    }
    assert_eq!(firewall.buffered(), 4);
    assert_eq!(firewall.get_stats().total_packets_analyzed, 10);
}

#[test]
fn learning_moves_thresholds_by_one_step_at_most() {
    let mut firewall = operational(NeuroFireWallConfig::default());
    assert_eq!(firewall.current_threshold(TrafficType::Web), 850_000);
    // Many false positives: the threshold rises by the excess, one step at most.
    firewall.report_feedback(500_000, 0);
    firewall.run_learning_cycle().unwrap();
    assert_eq!(firewall.current_threshold(TrafficType::Web), 900_000);
    assert_eq!(firewall.current_threshold(TrafficType::Unknown), 900_000);
    // A small excess moves it by that excess only.
    firewall.report_feedback(11_000, 0);
    firewall.run_learning_cycle().unwrap();
    assert_eq!(firewall.current_threshold(TrafficType::Dns), 910_000);
    // False negatives outnumber false positives: the threshold falls.
    firewall.report_feedback(0, 30_000);
    firewall.run_learning_cycle().unwrap();
    assert_eq!(firewall.current_threshold(TrafficType::Dns), 880_000);
    // Rates at the target change nothing.
    firewall.report_feedback(1_000, 1_000);
    firewall.run_learning_cycle().unwrap();
    assert_eq!(firewall.current_threshold(TrafficType::Dns), 880_000);
    let stats = firewall.get_stats();
    assert_eq!(stats.learning_cycles, 4);
    assert_eq!(stats.false_positive_rate, 1_000);
    assert_eq!(firewall.get_state(), NeuroFireWallState::Operational);
    assert_eq!(firewall.make_decision(880_000, TrafficType::Dns), FirewallDecision::Quarantine);
    assert_eq!(firewall.make_decision(879_999, TrafficType::Dns), FirewallDecision::Alert);
}

#[test]
fn thresholds_stay_in_the_unit_interval_after_many_cycles() {
    let mut firewall = operational(NeuroFireWallConfig::default());
    firewall.report_feedback(u32::MAX, 0);
    for _ in 0..10_000 {
        firewall.run_learning_cycle().unwrap();
        assert!(firewall.current_threshold(TrafficType::Web) <= 1_000_000);
    }
    assert_eq!(firewall.current_threshold(TrafficType::Web), 1_000_000);
    firewall.report_feedback(0, u32::MAX);
    for _ in 0..10_000 {
        firewall.run_learning_cycle().unwrap();
        assert!(firewall.current_threshold(TrafficType::Api) <= 1_000_000);
    }
    assert_eq!(firewall.current_threshold(TrafficType::Api), 0);
    assert_eq!(firewall.get_stats().learning_cycles, 20_000);
}

#[test]
fn readers_see_the_committed_threshold_while_a_cycle_runs() {
    let mut firewall = operational(NeuroFireWallConfig::default());
    firewall.report_feedback(900_000, 0);
    firewall.begin_learning_cycle().unwrap();
    assert_eq!(firewall.current_threshold(TrafficType::Web), 850_000);
    assert_eq!(
        firewall.begin_learning_cycle().unwrap_err(),
        FirewallError::LearningInProgress
    );
    assert_eq!(firewall.run_learning_cycle().unwrap_err(), FirewallError::LearningInProgress);
    let (decision, _) =
        firewall.analyze_packet(create_test_packet(), ScoringOutcome::Score(860_000)).unwrap();
    assert_eq!(decision, FirewallDecision::Quarantine);
    firewall.complete_learning_cycle().unwrap();
    assert_eq!(firewall.current_threshold(TrafficType::Web), 900_000);
    assert_eq!(firewall.complete_learning_cycle().unwrap_err(), FirewallError::NotLearning);
    let (decision, _) =
        firewall.analyze_packet(create_test_packet(), ScoringOutcome::Score(860_000)).unwrap();
    assert_eq!(decision, FirewallDecision::Alert);
}

#[test]
fn learning_can_be_switched_off() {
    let mut config = NeuroFireWallConfig::default();
    config.enable_continuous_learning = false;
    let mut firewall = operational(config);
    assert_eq!(firewall.run_learning_cycle().unwrap_err(), FirewallError::LearningDisabled);
    assert_eq!(firewall.get_stats().learning_cycles, 0);
    assert_eq!(firewall.get_state(), NeuroFireWallState::Operational);
    assert!(!firewall.is_learning_due(1_000_000));
    let on = operational(NeuroFireWallConfig::default());
    assert!(!on.is_learning_due(3599));
    assert!(on.is_learning_due(3600));
}

#[test]
fn a_threshold_above_one_is_taken_as_one() {
    let mut config = NeuroFireWallConfig::default();
    config.anomaly_threshold = 3_000_000;
    let firewall = operational(config);
    assert_eq!(firewall.current_threshold(TrafficType::Ssh), 1_000_000);
}

#[test]
fn a_copy_of_a_packet_holds_the_same_values() {
    let mut packet = create_test_packet();
    packet.metadata.insert("vlan".to_string(), "7".to_string());
    let copy = packet.clone();
    assert_eq!(copy.id, packet.id);
    assert_eq!(copy.source_ip, packet.source_ip);
    assert_eq!(copy.destination_ip, packet.destination_ip);
    assert_eq!(copy.source_port, packet.source_port);
    assert_eq!(copy.destination_port, packet.destination_port);
    assert_eq!(copy.protocol, packet.protocol);
    assert_eq!(copy.size, packet.size);
    assert_eq!(copy.timestamp, packet.timestamp);
    assert_eq!(copy.traffic_type, packet.traffic_type);
    assert_eq!(copy.payload_sample, packet.payload_sample);
    assert_eq!(copy.metadata.get("vlan").unwrap(), "7");
}

#[test]
fn an_answer_that_comes_too_late_is_a_timeout() {
    use_budget(ScoringOutcome::Score(10), 200, ScoringOutcome::Score(10));
    use_budget(ScoringOutcome::Score(10), 201, ScoringOutcome::Timeout);
    use_budget(ScoringOutcome::Unavailable, 0, ScoringOutcome::Unavailable);
    use_budget(ScoringOutcome::Unavailable, 500, ScoringOutcome::Timeout);
    use_budget(ScoringOutcome::Timeout, 1, ScoringOutcome::Timeout);
}

fn use_budget(outcome: ScoringOutcome, elapsed_us: u64, expected: ScoringOutcome) {
    assert_eq!(
        icarus::neurofirewall::judge_latency(
            outcome,
            elapsed_us,
            icarus::neurofirewall::DEFAULT_SCORING_BUDGET_US
        ),
        expected
    );
}
