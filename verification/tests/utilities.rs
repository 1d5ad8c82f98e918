use icarus::aegis::{ThreatSeverity, ThreatType};
use icarus::fixed::{accumulate, bump, clamp_unit, product, ratio};
use icarus::neurofirewall::{DetectionEvent, FirewallDecision};
use icarus::normalizer::{
    decision_text, normalize, normalize_collective, severity_of, strongest,
};
use icarus::table::{Metadata, StringTable};
use icarus::text::{copy_texts, decimal, join, two_decimals};

#[test]
fn numbers_in_decimal() {
    assert_eq!(decimal(0), "0");
    assert_eq!(decimal(7), "7");
    assert_eq!(decimal(10), "10");
    assert_eq!(decimal(255), "255");
    assert_eq!(decimal(1_234_567_890), "1234567890");
    assert_eq!(decimal(u64::MAX), "18446744073709551615");
    for n in [9u64, 99, 100, 101, 1000, 65535, 4_294_967_295] {
        assert_eq!(decimal(n), n.to_string());
    }
}

#[test]
fn fractions_with_two_decimals() {
    assert_eq!(two_decimals(0), "0.00");
    assert_eq!(two_decimals(4_999), "0.00");
    assert_eq!(two_decimals(5_000), "0.01");
    assert_eq!(two_decimals(850_000), "0.85");
    assert_eq!(two_decimals(994_999), "0.99");
    assert_eq!(two_decimals(995_000), "1.00");
    assert_eq!(two_decimals(1_000_000), "1.00");
    assert_eq!(two_decimals(12_345_678), "12.35");
    assert_eq!(two_decimals(u32::MAX), "4294.97");
}

#[test]
fn texts_joined_and_copied() {
    assert_eq!(join("plan-", "x"), "plan-x");
    assert_eq!(join("", ""), "");
    assert_eq!(join("é", "ü"), "éü");
    let list = vec!["a".to_string(), "".to_string(), "çà".to_string()];
    assert_eq!(copy_texts(&list), list);
}

#[test]
fn fixed_point_arithmetic() {
    assert_eq!(clamp_unit(0), 0);
    assert_eq!(clamp_unit(1_000_000), 1_000_000);
    assert_eq!(clamp_unit(1_000_001), 1_000_000);
    assert_eq!(clamp_unit(u64::MAX), 1_000_000);
    assert_eq!(ratio(1, 3), 333_333);
    assert_eq!(ratio(2, 3), 666_666);
    assert_eq!(ratio(3, 3), 1_000_000);
    assert_eq!(ratio(0, 5), 0);
    assert_eq!(ratio(5, 0), 0);
    assert_eq!(ratio(u64::MAX, 1), u32::MAX);
    assert_eq!(ratio(u64::MAX, u64::MAX), 1_000_000);
    assert_eq!(product(850_000, 750_000), 637_500);
    assert_eq!(product(1_000_000, 1_000_000), 1_000_000);
    assert_eq!(product(u32::MAX, u32::MAX), 18_446_744_065_119);
    assert_eq!(bump(0), 1);
    assert_eq!(bump(u64::MAX - 1), u64::MAX);
    assert_eq!(bump(u64::MAX), u64::MAX);
    assert_eq!(accumulate(1, 2), 3);
    assert_eq!(accumulate(u64::MAX - 1, 1), u64::MAX);
    assert_eq!(accumulate(u64::MAX - 1, 2), u64::MAX);
    assert_eq!(accumulate(u64::MAX, u64::MAX), u64::MAX);
}

#[test]
fn a_table_keeps_one_value_for_each_key() {
    let mut table: StringTable<u32> = StringTable::new();
    assert!(table.is_empty());
    assert_eq!(table.insert("a".to_string(), 1), None);
    assert_eq!(table.insert("b".to_string(), 2), None);
    assert_eq!(table.insert("c".to_string(), 3), None);
    assert_eq!(table.insert("b".to_string(), 20), Some(2));
    assert_eq!(table.len(), 3);
    assert_eq!(table.position("a"), Some(0));
    assert_eq!(table.position("b"), Some(1));
    assert_eq!(table.position("z"), None);
    assert_eq!(table.get("b"), Some(&20));
    assert_eq!(table.get("z"), None);
    assert!(table.contains_key("c"));
    assert!(!table.contains_key(""));
    assert_eq!(table.key_at(2), "c");
    assert_eq!(*table.value_at(2), 3);
    assert_eq!(table.replace_value_at(0, 10), 1);
    assert_eq!(table.remove("a"), Some(10));
    assert_eq!(table.remove("a"), None);
    assert_eq!(table.len(), 2);
    assert_eq!(table.key_at(0), "b");
    assert_eq!(table.key_at(1), "c");
    let mut metadata = Metadata::new();
    metadata.insert("k".to_string(), "v".to_string());
    let copy = metadata.clone();
    metadata.insert("k".to_string(), "w".to_string());
    assert_eq!(copy.get("k").unwrap(), "v");
    assert_eq!(metadata.get("k").unwrap(), "w");
}

fn detection(id: &str, score: u32, decision: FirewallDecision) -> DetectionEvent {
    DetectionEvent {
        id: id.to_string(),
        timestamp: 77,
        anomaly_score: score,
        threshold: 850_000,
        decision,
        related_packets: vec!["p".to_string()],
        trigger_features: vec![],
        description: String::new(),
    }
}

#[test]
fn a_detection_becomes_a_threat() {
    let event = detection("event-1", 920_000, FirewallDecision::Quarantine);
    let threat = normalize(&event, ThreatType::SqlInjection, "10.0.0.9", "10.0.0.1");
    assert_eq!(threat.id, "threat-event-1");
    assert_eq!(threat.threat_type, ThreatType::SqlInjection);
    assert_eq!(threat.severity, ThreatSeverity::High);
    assert_eq!(threat.confidence, 920_000);
    assert_eq!(threat.source, "10.0.0.9");
    assert_eq!(threat.target, "10.0.0.1");
    assert_eq!(threat.timestamp, 77);
    assert_eq!(threat.metadata.len(), 2);
    assert_eq!(threat.metadata.get("detection_id").unwrap(), "event-1");
    assert_eq!(threat.metadata.get("decision").unwrap(), "Quarantine");
    let over = normalize(&detection("e", 2_000_000, FirewallDecision::Block), ThreatType::Xss, "", "");
    assert_eq!(over.confidence, 1_000_000);
    assert_eq!(over.severity, ThreatSeverity::Critical);
}

#[test]
fn severity_by_score() {
    assert_eq!(severity_of(0), ThreatSeverity::Info);
    assert_eq!(severity_of(499_999), ThreatSeverity::Info);
    assert_eq!(severity_of(500_000), ThreatSeverity::Low);
    assert_eq!(severity_of(799_999), ThreatSeverity::Low);
    assert_eq!(severity_of(800_000), ThreatSeverity::Medium);
    assert_eq!(severity_of(899_999), ThreatSeverity::Medium);
    assert_eq!(severity_of(900_000), ThreatSeverity::High);
    assert_eq!(severity_of(949_999), ThreatSeverity::High);
    assert_eq!(severity_of(950_000), ThreatSeverity::Critical);
    assert_eq!(decision_text(FirewallDecision::Allow), "Allow");
    assert_eq!(decision_text(FirewallDecision::Block), "Block");
    assert_eq!(decision_text(FirewallDecision::Quarantine), "Quarantine");
    assert_eq!(decision_text(FirewallDecision::Redirect), "Redirect");
    assert_eq!(decision_text(FirewallDecision::RateLimit), "RateLimit");
    assert_eq!(decision_text(FirewallDecision::Alert), "Alert");
}

#[test]
fn the_strongest_of_several_detections_stands_for_all() {
    let events = vec![
        detection("a", 900_000, FirewallDecision::Quarantine),
        detection("b", 960_000, FirewallDecision::Quarantine),
        detection("c", 960_000, FirewallDecision::Block),
        detection("d", 960_000, FirewallDecision::Block),
        detection("e", 100_000, FirewallDecision::Block),
    ];
    assert_eq!(strongest(&events), Some(2));
    let threat = normalize_collective(&events, ThreatType::Malware, "s", "t").unwrap();
    assert_eq!(threat.id, "threat-c");
    assert_eq!(threat.metadata.get("decision").unwrap(), "Block");
    assert_eq!(strongest(&vec![]), None);
    assert!(normalize_collective(&vec![], ThreatType::Malware, "s", "t").is_none());
    assert_eq!(strongest(&vec![detection("only", 0, FirewallDecision::Allow)]), Some(0));
}
