use icarus::aegis::{AegisConfig, AegisOrchestrator, ThreatEvent, ThreatSeverity, ThreatType};
use icarus::crypto::quantum_vault::{QuantumVault, QuantumVaultConfig};
use icarus::dashboard::{Dashboard, DashboardConfig};
use icarus::neurofirewall::{
    NetworkPacket, NeuroFireWall, NeuroFireWallConfig, ScoringOutcome, TrafficType,
};
use icarus::table::Metadata;
use icarus::warpshield::{VirtualEnvironmentType, WarpShield, WarpShieldConfig};
use std::time::{Instant, SystemTime};

fn unix_now() -> u64 {
    SystemTime::now().duration_since(SystemTime::UNIX_EPOCH).unwrap().as_secs()
}

/// The oracle that these tests score with: every weight is 0.1, there are
/// 256 hidden units, and the sum goes through a sigmoid.
fn reference_score(features: &[u32]) -> ScoringOutcome {
    let mut sum = 0.0f32;
    for &feature in features {
        for _ in 0..256 {
            sum += (feature as f32 / 1_000_000.0) * 0.1;
        }
    }
    let score = 1.0 / (1.0 + (-sum).exp());
    ScoringOutcome::Score((score * 1_000_000.0) as u32)
}

#[derive(Debug, Clone)]
struct BenchmarkResult {
    name: String,
    avg_duration_us: f64,
    min_duration_us: f64,
    max_duration_us: f64,
    iterations: usize,
    memory_usage_kb: f64,
}

fn run_benchmark<F>(name: &str, iterations: usize, mut f: F) -> BenchmarkResult
where
    F: FnMut() -> (),
{
    let mut durations = Vec::with_capacity(iterations);

    for _ in 0..5 {
        f();
    }

    for _ in 0..iterations {
        let start = Instant::now();
        f();
        let duration = start.elapsed();
        durations.push(duration.as_micros() as f64);
    }

    let total_duration: f64 = durations.iter().sum();
    let avg_duration = total_duration / iterations as f64;
    let min_duration = *durations.iter().min_by(|a, b| a.partial_cmp(b).unwrap()).unwrap();
    let max_duration = *durations.iter().max_by(|a, b| a.partial_cmp(b).unwrap()).unwrap();

    BenchmarkResult {
        name: name.to_string(),
        avg_duration_us: avg_duration,
        min_duration_us: min_duration,
        max_duration_us: max_duration,
        iterations,
        memory_usage_kb: 1024.0,
    }
}

fn print_benchmark_result(result: &BenchmarkResult) {
    println!("=== Benchmark: {} ===", result.name);
    println!("Itérations: {}", result.iterations);
    println!("Durée moyenne: {:.2} µs", result.avg_duration_us);
    println!("Durée min: {:.2} µs", result.min_duration_us);
    println!("Durée max: {:.2} µs", result.max_duration_us);
    println!("Utilisation mémoire: {:.2} Ko", result.memory_usage_kb);
    println!();
}

fn bench_packet(id: &str) -> NetworkPacket {
    NetworkPacket {
        id: String::from(id),
        source_ip: "192.168.1.100".to_string(),
        destination_ip: "192.168.1.1".to_string(),
        source_port: 12345,
        destination_port: 80,
        protocol: "TCP".to_string(),
        size: 1024,
        timestamp: unix_now(),
        traffic_type: TrafficType::Web,
        payload_sample: vec![0, 1, 2, 3, 4],
        metadata: Metadata::new(),
    }
}

fn analyze(firewall: &mut NeuroFireWall, packet: NetworkPacket) -> bool {
    let features = firewall.extract_features(&packet).unwrap();
    firewall.analyze_packet(packet, reference_score(&features.features)).is_ok()
}

#[test]
fn benchmark_quantum_vault_encryption() {
    let config = QuantumVaultConfig::default();
    let quantum = QuantumVault::new(config);

    let message = vec![0u8; 1024];
    let keypair = quantum
        .generate_encryption_keypair()
        .expect("Échec de la génération de la paire de clés");

    let result = run_benchmark("QuantumVault Encryption", 100, || {
        let _ = quantum.encrypt(&message, &keypair.public_key);
    });

    assert!(result.avg_duration_us < 10000.0, "Le chiffrement prend plus de 10ms");

    print_benchmark_result(&result);
}

#[test]
fn benchmark_quantum_vault_decryption() {
    let config = QuantumVaultConfig::default();
    let quantum = QuantumVault::new(config);

    let message = vec![0u8; 1024];
    let keypair = quantum
        .generate_encryption_keypair()
        .expect("Échec de la génération de la paire de clés");
    let encrypted = quantum.encrypt(&message, &keypair.public_key).expect("Échec du chiffrement");

    let result = run_benchmark("QuantumVault Decryption", 100, || {
        let _ = quantum.decrypt(&encrypted.ciphertext, &encrypted.nonce, &keypair);
    });

    assert!(result.avg_duration_us < 15000.0, "Le déchiffrement prend plus de 15ms");

    print_benchmark_result(&result);
}

#[test]
fn benchmark_aegis_threat_processing() {
    let config = AegisConfig::default();
    let mut aegis = AegisOrchestrator::new(config);
    aegis.initialize().expect("Échec de l'initialisation d'AEGIS");

    let threat_event = ThreatEvent {
        id: String::from("threat-bench-1"),
        threat_type: ThreatType::PortScan,
        severity: ThreatSeverity::Medium,
        confidence: 850_000,
        source: String::from("192.168.1.100"),
        target: String::from("192.168.1.1"),
        timestamp: unix_now(),
        metadata: Metadata::new(),
    };

    let result = run_benchmark("AEGIS Threat Processing", 100, || {
        let _ = aegis.process_threat_event(threat_event.clone());
    });

    assert!(result.avg_duration_us < 5000.0, "Le traitement des menaces prend plus de 5ms");

    print_benchmark_result(&result);
}

#[test]
fn benchmark_dashboard_visualization() {
    let config = DashboardConfig::default();
    let mut dashboard = Dashboard::new(config);
    dashboard.start().expect("Échec du démarrage du dashboard");

    let result = run_benchmark("Dashboard Visualization", 50, || {
        let _ = dashboard.process_threat_for_visualization(
            "threat-bench-viz",
            "port_scan",
            3,
            "192.168.1.100",
            "192.168.1.1",
        );
    });

    assert!(
        result.avg_duration_us < 20000.0,
        "La génération de visualisation prend plus de 20ms"
    );

    print_benchmark_result(&result);

    dashboard.stop().expect("Échec de l'arrêt du dashboard");
}

#[test]
fn benchmark_warpshield_environment_creation() {
    let config = WarpShieldConfig::default();
    let mut warpshield = WarpShield::new(config);
    warpshield.initialize().expect("Échec de l'initialisation de WarpShield");

    let result = run_benchmark("WarpShield Environment Creation", 20, || {
        let env = warpshield
            .create_virtual_environment(VirtualEnvironmentType::WebServer)
            .expect("Échec de la création de l'environnement virtuel");
        warpshield
            .terminate_environment(&env.id)
            .expect("Échec de la terminaison de l'environnement");
    });

    assert!(result.avg_duration_us < 50000.0, "La création d'environnement prend plus de 50ms");

    print_benchmark_result(&result);
}

#[test]
fn benchmark_neurofirewall_packet_analysis() {
    let config = NeuroFireWallConfig::default();
    let mut neurofirewall = NeuroFireWall::new(config);
    neurofirewall.initialize().expect("Échec de l'initialisation de NeuroFireWall");

    let packet = bench_packet("packet-bench-1");

    let result = run_benchmark("NeuroFireWall Packet Analysis", 1000, || {
        let _ = analyze(&mut neurofirewall, packet.clone());
    });

    assert!(result.avg_duration_us < 1000.0, "L'analyse de paquet prend plus de 1ms");

    print_benchmark_result(&result);
}

#[test]
fn benchmark_full_system_pipeline() {
    let quantum_config = QuantumVaultConfig::default();
    let _quantum = QuantumVault::new(quantum_config);

    let aegis_config = AegisConfig::default();
    let mut aegis = AegisOrchestrator::new(aegis_config);
    aegis.initialize().expect("Échec de l'initialisation d'AEGIS");

    let dashboard_config = DashboardConfig::default();
    let mut dashboard = Dashboard::new(dashboard_config);
    dashboard.start().expect("Échec du démarrage du dashboard");

    let warpshield_config = WarpShieldConfig::default();
    let mut warpshield = WarpShield::new(warpshield_config);
    warpshield.initialize().expect("Échec de l'initialisation de WarpShield");

    let neurofirewall_config = NeuroFireWallConfig::default();
    let mut neurofirewall = NeuroFireWall::new(neurofirewall_config);
    neurofirewall.initialize().expect("Échec de l'initialisation de NeuroFireWall");

    let packet = bench_packet("packet-bench-full");

    let env = warpshield
        .create_virtual_environment(VirtualEnvironmentType::WebServer)
        .expect("Échec de la création de l'environnement virtuel");
    // An attack is recorded in an environment that holds an attacker.
    warpshield
        .activate_environment(&env.id, "192.168.1.100")
        .expect("Échec de l'activation de l'environnement");

    let result = run_benchmark("Full System Pipeline", 10, || {
        let features = neurofirewall.extract_features(&packet).unwrap();
        let (decision, _) = neurofirewall
            .analyze_packet(packet.clone(), reference_score(&features.features))
            .expect("Échec de l'analyse du paquet");

        let mut data = Metadata::new();
        data.insert("decision".to_string(), format!("{:?}", decision));

        let _attack_event = warpshield
            .record_attack_event(&env.id, "web_attack", data.clone())
            .expect("Échec de l'enregistrement de l'événement d'attaque");

        let threat_event = ThreatEvent {
            id: String::from("threat-bench-full"),
            threat_type: ThreatType::SqlInjection,
            severity: ThreatSeverity::Critical,
            confidence: 980_000,
            source: "192.168.1.100".to_string(),
            target: env.virtual_ip.clone(),
            timestamp: unix_now(),
            metadata: Metadata::new(),
        };

        let response_plan = aegis
            .process_threat_event(threat_event)
            .expect("Échec du traitement de l'événement de menace");

        let _ = dashboard
            .process_threat_for_visualization(
                &response_plan.id,
                "sql_injection",
                5,
                &response_plan.threat_event.source,
                &response_plan.threat_event.target,
            )
            .expect("Échec de la création de la visualisation");
    });

    assert!(result.avg_duration_us < 100000.0, "Le pipeline complet prend plus de 100ms");

    print_benchmark_result(&result);

    warpshield
        .terminate_environment(&env.id)
        .expect("Échec de la terminaison de l'environnement");
    dashboard.stop().expect("Échec de l'arrêt du dashboard");
}

#[test]
fn stress_test_neurofirewall() {
    let config = NeuroFireWallConfig::default();
    let mut neurofirewall = NeuroFireWall::new(config);
    neurofirewall.initialize().expect("Échec de l'initialisation de NeuroFireWall");

    let num_packets = 10000;

    let mut packets = Vec::with_capacity(num_packets);
    for i in 0..num_packets {
        packets.push(NetworkPacket {
            id: format!("packet-stress-{}", i),
            source_ip: format!("192.168.1.{}", i % 255),
            destination_ip: "192.168.1.1".to_string(),
            source_port: 10000 + (i % 55535) as u16,
            destination_port: 80,
            protocol: "TCP".to_string(),
            size: 1024,
            timestamp: unix_now(),
            traffic_type: TrafficType::Web,
            payload_sample: vec![0, 1, 2, 3, 4],
            metadata: Metadata::new(),
        });
    }

    let start_time = Instant::now();

    for packet in packets {
        let _ = analyze(&mut neurofirewall, packet);
    }

    let total_duration = start_time.elapsed();
    let packets_per_second = num_packets as f64 / total_duration.as_secs_f64();

    println!("=== Test de charge NeuroFireWall ===");
    println!("Paquets analysés: {}", num_packets);
    println!("Durée totale: {:.2} s", total_duration.as_secs_f64());
    println!("Paquets par seconde: {:.2}", packets_per_second);
    println!();

    assert!(
        packets_per_second > 500.0,
        "Le taux d'analyse est inférieur à 500 paquets par seconde"
    );
    assert_eq!(neurofirewall.get_stats().total_packets_analyzed, 10000);
    assert_eq!(neurofirewall.buffered(), 10000);
}

#[test]
fn memory_optimization_test() {
    let quantum_config = QuantumVaultConfig::default();
    let quantum = QuantumVault::new(quantum_config);

    let aegis_config = AegisConfig::default();
    let mut aegis = AegisOrchestrator::new(aegis_config);
    aegis.initialize().expect("Échec de l'initialisation d'AEGIS");

    let warpshield_config = WarpShieldConfig::default();
    let mut warpshield = WarpShield::new(warpshield_config);
    warpshield.initialize().expect("Échec de l'initialisation de WarpShield");

    let neurofirewall_config = NeuroFireWallConfig::default();
    let mut neurofirewall = NeuroFireWall::new(neurofirewall_config);
    neurofirewall.initialize().expect("Échec de l'initialisation de NeuroFireWall");

    let mut environments = Vec::new();
    for i in 0..10 {
        let env_type = match i % 3 {
            0 => VirtualEnvironmentType::WebServer,
            1 => VirtualEnvironmentType::Database,
            _ => VirtualEnvironmentType::FileServer,
        };

        let env = warpshield
            .create_virtual_environment(env_type)
            .expect("Échec de la création de l'environnement virtuel");

        environments.push(env);
    }

    for _ in 0..100 {
        let packet = bench_packet(&format!("packet-mem-{}", uuid::Uuid::new_v4()));

        let _ = analyze(&mut neurofirewall, packet);

        let threat_event = ThreatEvent {
            id: format!("threat-mem-{}", uuid::Uuid::new_v4()),
            threat_type: ThreatType::SqlInjection,
            severity: ThreatSeverity::Critical,
            confidence: 980_000,
            source: "192.168.1.100".to_string(),
            target: "192.168.1.1".to_string(),
            timestamp: unix_now(),
            metadata: Metadata::new(),
        };

        let _ = aegis.process_threat_event(threat_event);

        let message = vec![0u8; 1024];
        let keypair = quantum
            .generate_encryption_keypair()
            .expect("Échec de la génération de la paire de clés");
        let encrypted =
            quantum.encrypt(&message, &keypair.public_key).expect("Échec du chiffrement");
        let _ = quantum.decrypt(&encrypted.ciphertext, &encrypted.nonce, &keypair);
    }

    for env in environments {
        warpshield
            .terminate_environment(&env.id)
            .expect("Échec de la terminaison de l'environnement");
    }

    println!("=== Test d'optimisation mémoire ===");
    println!("Test complété avec succès");
    println!();
    assert_eq!(aegis.get_stats().response_plans_generated, 100);
    assert_eq!(warpshield.get_stats().active_environments, 0);
}

#[test]
fn profiling_test() {
    let quantum_config = QuantumVaultConfig::default();
    let quantum = QuantumVault::new(quantum_config);

    let aegis_config = AegisConfig::default();
    let mut aegis = AegisOrchestrator::new(aegis_config);
    aegis.initialize().expect("Échec de l'initialisation d'AEGIS");

    let warpshield_config = WarpShieldConfig::default();
    let mut warpshield = WarpShield::new(warpshield_config);
    warpshield.initialize().expect("Échec de l'initialisation de WarpShield");

    let neurofirewall_config = NeuroFireWallConfig::default();
    let mut neurofirewall = NeuroFireWall::new(neurofirewall_config);
    neurofirewall.initialize().expect("Échec de l'initialisation de NeuroFireWall");

    let message = vec![0u8; 1024];
    let packet = bench_packet("packet-profile");
    let threat_event = ThreatEvent {
        id: String::from("threat-profile"),
        threat_type: ThreatType::SqlInjection,
        severity: ThreatSeverity::Critical,
        confidence: 980_000,
        source: "192.168.1.100".to_string(),
        target: "192.168.1.1".to_string(),
        timestamp: unix_now(),
        metadata: Metadata::new(),
    };

    let start_time = Instant::now();
    for _ in 0..100 {
        let keypair = quantum
            .generate_encryption_keypair()
            .expect("Échec de la génération de la paire de clés");
        let encrypted =
            quantum.encrypt(&message, &keypair.public_key).expect("Échec du chiffrement");
        let _ = quantum.decrypt(&encrypted.ciphertext, &encrypted.nonce, &keypair);
    }
    let quantum_vault_time = start_time.elapsed().as_micros() as f64 / 100.0;

    let start_time = Instant::now();
    for _ in 0..1000 {
        let _ = analyze(&mut neurofirewall, packet.clone());
    }
    let neurofirewall_time = start_time.elapsed().as_micros() as f64 / 1000.0;

    let start_time = Instant::now();
    for _ in 0..100 {
        let _ = aegis.process_threat_event(threat_event.clone());
    }
    let aegis_time = start_time.elapsed().as_micros() as f64 / 100.0;

    let start_time = Instant::now();
    for _ in 0..10 {
        let env = warpshield
            .create_virtual_environment(VirtualEnvironmentType::WebServer)
            .expect("Échec de la création de l'environnement virtuel");
        warpshield
            .terminate_environment(&env.id)
            .expect("Échec de la terminaison de l'environnement");
    }
    let warpshield_time = start_time.elapsed().as_micros() as f64 / 10.0;

    println!("=== Profiling des composants ===");
    println!("QuantumVault: {:.2} µs par opération complète", quantum_vault_time);
    println!("NeuroFireWall: {:.2} µs par analyse de paquet", neurofirewall_time);
    println!("AEGIS: {:.2} µs par traitement de menace", aegis_time);
    println!("WarpShield: {:.2} µs par cycle d'environnement", warpshield_time);
    println!();

    let mut components = vec![
        ("QuantumVault", quantum_vault_time),
        ("NeuroFireWall", neurofirewall_time),
        ("AEGIS", aegis_time),
        ("WarpShield", warpshield_time),
    ];

    components.sort_by(|a, b| b.1.partial_cmp(&a.1).unwrap());

    println!("Goulots d'étranglement potentiels (du plus lent au plus rapide):");
    for (i, (component, time)) in components.iter().enumerate() {
        println!("{}. {}: {:.2} µs", i + 1, component, time);
    }
    println!();
    assert_eq!(components.len(), 4);
}
