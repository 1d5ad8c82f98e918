use icarus::aegis::{
    AegisConfig, AegisOrchestrator, ResponseAction, ResponsePlanStatus, ThreatEvent,
    ThreatSeverity, ThreatType,
};
use icarus::crypto::quantum_vault::{QuantumVault, QuantumVaultConfig};
use icarus::dashboard::{Dashboard, DashboardConfig, VisualizationType};
use icarus::neural_net::{NeuralNetConfig, NeuralNetEngine};
use icarus::neurofirewall::{
    NetworkPacket, NeuroFireWall, NeuroFireWallConfig, ScoringOutcome, TrafficType,
};
use icarus::table::Metadata;
use icarus::warpshield::{VirtualEnvironmentType, WarpShield, WarpShieldConfig};
use std::time::SystemTime;

fn unix_now() -> u64 {
    SystemTime::now().duration_since(SystemTime::UNIX_EPOCH).unwrap().as_secs()
}

/// The oracle that these tests score with: every weight is 0.1, there are
/// 256 hidden units, and the sum goes through a sigmoid.
fn reference_score(features: &[u32]) -> ScoringOutcome {
    let mut sum = 0.0f32;
    for &feature in features {
        for _ in 0..256 {
            sum += (feature as f32 / 1_000_000.0) * 0.1;
        }
    }
    let score = 1.0 / (1.0 + (-sum).exp());
    ScoringOutcome::Score((score * 1_000_000.0) as u32)
}

fn hex(bytes: &[u8]) -> String {
    let mut out = String::new();
    for byte in bytes {
        out.push_str(&format!("{:02x}", byte));
    }
    out
}

#[test]
fn test_neural_net_aegis_integration() {
    let neural_net_config = NeuralNetConfig::default();
    let _neural_net = NeuralNetEngine::new(neural_net_config);

    let aegis_config = AegisConfig::default();
    let mut aegis = AegisOrchestrator::new(aegis_config);
    aegis.initialize().expect("Échec de l'initialisation d'AEGIS");

    let threat_event = ThreatEvent {
        id: String::from("threat-test-1"),
        threat_type: ThreatType::PortScan,
        severity: ThreatSeverity::Medium,
        confidence: 850_000,
        source: String::from("192.168.1.100"),
        target: String::from("192.168.1.1"),
        timestamp: unix_now(),
        metadata: Metadata::new(),
    };

    let response_plan = aegis
        .process_threat_event(threat_event.clone())
        .expect("Échec du traitement de l'événement de menace");

    assert_eq!(response_plan.threat_event.id, threat_event.id);
    assert!(response_plan.actions.contains(&ResponseAction::BlockIp));

    let mut plan = response_plan.clone();
    aegis.execute_response_plan(&mut plan).expect("Échec de l'exécution du plan de réponse");

    assert_eq!(plan.status, ResponsePlanStatus::Completed);
}

#[test]
fn test_quantum_vault_aegis_integration() {
    let quantum_config = QuantumVaultConfig::default();
    let quantum = QuantumVault::new(quantum_config);

    let aegis_config = AegisConfig::default();
    let mut aegis = AegisOrchestrator::new(aegis_config);
    aegis.initialize().expect("Échec de l'initialisation d'AEGIS");

    let keypair = quantum
        .generate_encryption_keypair()
        .expect("Échec de la génération de la paire de clés");

    let message = b"Message secret pour le test d'integration";
    let encryption_result =
        quantum.encrypt(message, &keypair.public_key).expect("Échec du chiffrement");

    let mut metadata = Metadata::new();
    metadata.insert("encrypted_data".to_string(), hex(&encryption_result.ciphertext));

    let threat_event = ThreatEvent {
        id: String::from("threat-test-2"),
        threat_type: ThreatType::DataExfiltration,
        severity: ThreatSeverity::High,
        confidence: 920_000,
        source: String::from("192.168.1.200"),
        target: String::from("192.168.1.1"),
        timestamp: unix_now(),
        metadata,
    };

    let response_plan = aegis
        .process_threat_event(threat_event)
        .expect("Échec du traitement de l'événement de menace");

    assert_eq!(response_plan.priority, 70);
    assert_eq!(
        response_plan.threat_event.metadata.get("encrypted_data").unwrap(),
        &hex(message)
    );
}

#[test]
fn test_dashboard_aegis_integration() {
    let dashboard_config = DashboardConfig::default();
    let mut dashboard = Dashboard::new(dashboard_config);
    dashboard.start().expect("Échec du démarrage du dashboard");

    let aegis_config = AegisConfig::default();
    let mut aegis = AegisOrchestrator::new(aegis_config);
    aegis.initialize().expect("Échec de l'initialisation d'AEGIS");

    let threat_event = ThreatEvent {
        id: String::from("threat-test-3"),
        threat_type: ThreatType::SqlInjection,
        severity: ThreatSeverity::Critical,
        confidence: 980_000,
        source: String::from("192.168.1.150"),
        target: String::from("192.168.1.5"),
        timestamp: unix_now(),
        metadata: Metadata::new(),
    };

    let response_plan = aegis
        .process_threat_event(threat_event)
        .expect("Échec du traitement de l'événement de menace");

    let scene = dashboard
        .process_threat_for_visualization(
            &response_plan.id,
            "sql_injection",
            5,
            &response_plan.threat_event.source,
            &response_plan.threat_event.target,
        )
        .expect("Échec de la création de la visualisation");

    assert_eq!(scene.visualization_type, VisualizationType::Network3D);
    assert!(!scene.elements.is_empty());
}

#[test]
fn test_warpshield_neurofirewall_integration() {
    let warpshield_config = WarpShieldConfig::default();
    let mut warpshield = WarpShield::new(warpshield_config);
    warpshield.initialize().expect("Échec de l'initialisation de WarpShield");

    let neurofirewall_config = NeuroFireWallConfig::default();
    let mut neurofirewall = NeuroFireWall::new(neurofirewall_config);
    neurofirewall.initialize().expect("Échec de l'initialisation de NeuroFireWall");

    let env = warpshield
        .create_virtual_environment(VirtualEnvironmentType::WebServer)
        .expect("Échec de la création de l'environnement virtuel");

    warpshield
        .activate_environment(&env.id, "192.168.1.100")
        .expect("Échec de l'activation de l'environnement");

    let packet = NetworkPacket {
        id: String::from("packet-test-1"),
        source_ip: "192.168.1.100".to_string(),
        destination_ip: env.virtual_ip.clone(),
        source_port: 12345,
        destination_port: 80,
        protocol: "TCP".to_string(),
        size: 1024,
        timestamp: unix_now(),
        traffic_type: TrafficType::Web,
        payload_sample: vec![0, 1, 2, 3, 4],
        metadata: Metadata::new(),
    };

    let features = neurofirewall.extract_features(&packet).unwrap();
    let (decision, _) = neurofirewall
        .analyze_packet(packet, reference_score(&features.features))
        .expect("Échec de l'analyse du paquet");

    let mut data = Metadata::new();
    data.insert("decision".to_string(), format!("{:?}", decision));

    let attack_event = warpshield
        .record_attack_event(&env.id, "web_scan", data)
        .expect("Échec de l'enregistrement de l'événement d'attaque");

    assert_eq!(attack_event.environment_id, env.id);
    assert_eq!(attack_event.attack_type, "web_scan");
}

#[test]
fn test_full_system_integration() {
    let neural_net_config = NeuralNetConfig::default();
    let _neural_net = NeuralNetEngine::new(neural_net_config);

    let quantum_config = QuantumVaultConfig::default();
    let _quantum = QuantumVault::new(quantum_config);

    let aegis_config = AegisConfig::default();
    let mut aegis = AegisOrchestrator::new(aegis_config);
    aegis.initialize().expect("Échec de l'initialisation d'AEGIS");

    let dashboard_config = DashboardConfig::default();
    let mut dashboard = Dashboard::new(dashboard_config);
    dashboard.start().expect("Échec du démarrage du dashboard");

    let warpshield_config = WarpShieldConfig::default();
    let mut warpshield = WarpShield::new(warpshield_config);
    warpshield.initialize().expect("Échec de l'initialisation de WarpShield");

    let neurofirewall_config = NeuroFireWallConfig::default();
    let mut neurofirewall = NeuroFireWall::new(neurofirewall_config);
    neurofirewall.initialize().expect("Échec de l'initialisation de NeuroFireWall");

    let env = warpshield
        .create_virtual_environment(VirtualEnvironmentType::WebServer)
        .expect("Échec de la création de l'environnement virtuel");
    warpshield
        .activate_environment(&env.id, "192.168.1.100")
        .expect("Échec de l'activation de l'environnement");

    let packet = NetworkPacket {
        id: String::from("packet-test-full"),
        source_ip: "192.168.1.100".to_string(),
        destination_ip: env.virtual_ip.clone(),
        source_port: 12345,
        destination_port: 80,
        protocol: "TCP".to_string(),
        size: 1024,
        timestamp: unix_now(),
        traffic_type: TrafficType::Web,
        payload_sample: vec![0, 1, 2, 3, 4],
        metadata: Metadata::new(),
    };

    let features = neurofirewall.extract_features(&packet).unwrap();
    let (decision, _detection_event) = neurofirewall
        .analyze_packet(packet, reference_score(&features.features))
        .expect("Échec de l'analyse du paquet");

    let mut data = Metadata::new();
    data.insert("decision".to_string(), format!("{:?}", decision));

    let _attack_event = warpshield
        .record_attack_event(&env.id, "web_attack", data)
        .expect("Échec de l'enregistrement de l'événement d'attaque");

    let threat_event = ThreatEvent {
        id: String::from("threat-test-full"),
        threat_type: ThreatType::SqlInjection,
        severity: ThreatSeverity::Critical,
        confidence: 980_000,
        source: "192.168.1.100".to_string(),
        target: env.virtual_ip.clone(),
        timestamp: unix_now(),
        metadata: Metadata::new(),
    };

    let response_plan = aegis
        .process_threat_event(threat_event)
        .expect("Échec du traitement de l'événement de menace");

    let mut plan = response_plan.clone();
    aegis.execute_response_plan(&mut plan).expect("Échec de l'exécution du plan de réponse");

    let scene = dashboard
        .process_threat_for_visualization(
            &response_plan.id,
            "sql_injection",
            5,
            &response_plan.threat_event.source,
            &response_plan.threat_event.target,
        )
        .expect("Échec de la création de la visualisation");

    let signature = warpshield
        .generate_attack_signature(
            &env.id,
            "SQL Injection Pattern",
            "Signature for SQL injection attacks targeting web servers",
        )
        .expect("Échec de la génération de la signature d'attaque");

    assert_eq!(plan.status, ResponsePlanStatus::Completed);
    assert!(!scene.elements.is_empty());
    assert_eq!(signature.name, "SQL Injection Pattern");

    warpshield
        .terminate_environment(&env.id)
        .expect("Échec de la terminaison de l'environnement");
    dashboard.stop().expect("Échec de l'arrêt du dashboard");
    neurofirewall.shutdown().expect("Échec de l'arrêt de NeuroFireWall");
    aegis.shutdown().expect("Échec de l'arrêt d'AEGIS");
}
