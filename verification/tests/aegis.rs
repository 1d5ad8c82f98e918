use icarus::aegis::{
    ActionFailure, ActionOutcome, ActionReport, AegisConfig, AegisError, AegisOrchestrator,
    AegisState, FailureKind, PolicyRule, ResponseAction, ResponsePlan, ResponsePlanStatus,
    SecurityPolicy, ThreatEvent, ThreatSeverity, ThreatType, select_actions,
};
use icarus::table::Metadata;
use std::time::SystemTime;

fn unix_now() -> u64 {
    SystemTime::now().duration_since(SystemTime::UNIX_EPOCH).unwrap().as_secs()
}

fn threat(id: &str, threat_type: ThreatType, severity: ThreatSeverity) -> ThreatEvent {
    ThreatEvent {
        id: String::from(id),
        threat_type,
        severity,
        confidence: 850_000,
        source: String::from("192.168.1.100"),
        target: String::from("192.168.1.1"),
        timestamp: unix_now(),
        metadata: Metadata::new(),
    }
}

fn operational() -> AegisOrchestrator {
    let mut aegis = AegisOrchestrator::new(AegisConfig::default());
    aegis.initialize().unwrap();
    aegis
}

#[test]
fn test_aegis_initialization() {
    let config = AegisConfig::default();
    let mut aegis = AegisOrchestrator::new(config);

    assert_eq!(aegis.get_state(), AegisState::Initializing);

    let result = aegis.initialize();
    assert!(result.is_ok());

    assert_eq!(aegis.get_state(), AegisState::Operational);
}

#[test]
fn test_process_threat_event() {
    let config = AegisConfig::default();
    let mut aegis = AegisOrchestrator::new(config);
    aegis.initialize().unwrap();

    let event = ThreatEvent {
        id: String::from("threat-1"),
        threat_type: ThreatType::PortScan,
        severity: ThreatSeverity::Medium,
        confidence: 850_000,
        source: String::from("192.168.1.100"),
        target: String::from("192.168.1.1"),
        timestamp: unix_now(),
        metadata: Metadata::new(),
    };

    let result = aegis.process_threat_event(event);
    assert!(result.is_ok());

    let plan = result.unwrap();
    assert_eq!(plan.status, ResponsePlanStatus::Created);
    assert!(plan.actions.contains(&ResponseAction::BlockIp));
}

#[test]
fn test_execute_response_plan() {
    let config = AegisConfig::default();
    let mut aegis = AegisOrchestrator::new(config);
    aegis.initialize().unwrap();

    let event = ThreatEvent {
        id: String::from("threat-1"),
        threat_type: ThreatType::PortScan,
        severity: ThreatSeverity::Medium,
        confidence: 850_000,
        source: String::from("192.168.1.100"),
        target: String::from("192.168.1.1"),
        timestamp: unix_now(),
        metadata: Metadata::new(),
    };

    let mut plan = aegis.process_threat_event(event).unwrap();

    let result = aegis.execute_response_plan(&mut plan);
    assert!(result.is_ok());

    assert_eq!(plan.status, ResponsePlanStatus::Completed);
}

#[test]
fn default_settings_of_the_orchestrator() {
    let config = AegisConfig::default();
    assert_eq!(config.autonomy_level, 800_000);
    assert_eq!(config.policy_update_interval, 300);
    assert_eq!(config.auto_response_threshold, 700_000);
    assert!(config.enable_cross_module_coordination);
    assert!(config.enable_resource_optimization);
    assert!(config.enable_policy_learning);
    assert_eq!(config.log_level, 3);
}

#[test]
fn low_severity_dominates_the_category() {
    let mut aegis = operational();
    let low = aegis
        .process_threat_event(threat("t-low", ThreatType::PortScan, ThreatSeverity::Low))
        .unwrap();
    assert_eq!(low.priority, 30);
    assert_eq!(low.actions, vec![ResponseAction::Monitor, ResponseAction::Alert]);

    let medium = aegis
        .process_threat_event(threat("t-medium", ThreatType::PortScan, ThreatSeverity::Medium))
        .unwrap();
    assert_eq!(medium.priority, 50);
    assert_eq!(medium.actions, vec![ResponseAction::Alert, ResponseAction::BlockIp]);
}

#[test]
fn policy_table_by_category_and_severity() {
    let categories = [
        ThreatType::DenialOfService,
        ThreatType::PortScan,
        ThreatType::DataExfiltration,
        ThreatType::SqlInjection,
        ThreatType::Xss,
        ThreatType::BruteForce,
        ThreatType::Malware,
        ThreatType::CommandAndControl,
        ThreatType::UnknownZeroDay,
    ];
    for category in categories {
        assert_eq!(select_actions(category, ThreatSeverity::Info), vec![ResponseAction::Monitor]);
        assert_eq!(select_actions(category, ThreatSeverity::Low), vec![ResponseAction::Monitor, ResponseAction::Alert]);
    }
    for severity in [ThreatSeverity::Medium, ThreatSeverity::High, ThreatSeverity::Critical] {
        assert_eq!(select_actions(ThreatType::PortScan, severity), vec![ResponseAction::Alert, ResponseAction::BlockIp]);
        assert_eq!(select_actions(ThreatType::BruteForce, severity), vec![ResponseAction::Alert, ResponseAction::BlockIp]);
        assert_eq!(select_actions(ThreatType::Malware, severity), vec![ResponseAction::Alert, ResponseAction::Monitor]);
    }
    assert_eq!(
        select_actions(ThreatType::DenialOfService, ThreatSeverity::Critical),
        vec![ResponseAction::Alert, ResponseAction::BlockIp, ResponseAction::ActiveCountermeasure]
    );
    assert_eq!(
        select_actions(ThreatType::UnknownZeroDay, ThreatSeverity::Critical),
        vec![ResponseAction::Alert, ResponseAction::IsolateSystem, ResponseAction::ActiveCountermeasure]
    );
    assert_eq!(
        select_actions(ThreatType::DenialOfService, ThreatSeverity::High),
        vec![ResponseAction::Alert, ResponseAction::Monitor]
    );
    assert_eq!(
        select_actions(ThreatType::UnknownZeroDay, ThreatSeverity::Medium),
        vec![ResponseAction::Alert, ResponseAction::Monitor]
    );
}

#[test]
fn priority_follows_severity() {
    assert_eq!(ThreatSeverity::Info.priority(), 10);
    assert_eq!(ThreatSeverity::Low.priority(), 30);
    assert_eq!(ThreatSeverity::Medium.priority(), 50);
    assert_eq!(ThreatSeverity::High.priority(), 70);
    assert_eq!(ThreatSeverity::Critical.priority(), 90);
    assert!(ThreatSeverity::Info < ThreatSeverity::Low);
    assert!(ThreatSeverity::High < ThreatSeverity::Critical);
    assert_eq!(ThreatSeverity::Info.rank(), 0);
    assert_eq!(ThreatSeverity::Critical.rank(), 4);
}

#[test]
fn threats_are_refused_in_maintenance() {
    let mut aegis = operational();
    aegis.set_state(AegisState::Maintenance);
    let result =
        aegis.process_threat_event(threat("t", ThreatType::Malware, ThreatSeverity::High));
    assert_eq!(result.unwrap_err(), AegisError::NotOperational(AegisState::Maintenance));
    assert_eq!(aegis.plan_count(), 0);
    let stats = aegis.get_stats();
    assert_eq!(stats.total_threats_detected, 0);
    assert_eq!(stats.response_plans_generated, 0);
}

#[test]
fn threats_are_refused_in_every_state_but_operational() {
    let states = [
        AegisState::Initializing,
        AegisState::Degraded,
        AegisState::Maintenance,
        AegisState::Error("disk".to_string()),
        AegisState::Shutdown,
    ];
    for state in states {
        let mut aegis = operational();
        aegis.set_state(state.clone());
        let result =
            aegis.process_threat_event(threat("t", ThreatType::Xss, ThreatSeverity::Medium));
        assert_eq!(result.unwrap_err(), AegisError::NotOperational(state));
        assert_eq!(aegis.plan_count(), 0);
    }
}

#[test]
fn a_new_plan_has_the_documented_shape() {
    let mut aegis = operational();
    let event = threat("t-7", ThreatType::UnknownZeroDay, ThreatSeverity::Critical);
    let plan = aegis.submit_threat(event, "abc", 1_700_000_000, 12).unwrap();
    assert_eq!(plan.id, "plan-abc");
    assert_eq!(plan.threat_event.id, "t-7");
    assert_eq!(plan.priority, 90);
    assert_eq!(plan.created_at, 1_700_000_000);
    assert_eq!(plan.timeout_seconds, 300);
    assert_eq!(plan.status, ResponsePlanStatus::Created);
    assert_eq!(plan.completed_actions, 0);
    assert_eq!(
        plan.actions,
        vec![
            ResponseAction::Alert,
            ResponseAction::IsolateSystem,
            ResponseAction::ActiveCountermeasure
        ]
    );
    let held = aegis.get_plan("plan-abc").unwrap();
    assert_eq!(held.id, plan.id);
    assert!(aegis.get_plan("plan-other").is_none());
}

#[test]
fn a_random_plan_identifier_has_a_prefix_and_36_characters() {
    let mut aegis = operational();
    let plan =
        aegis.process_threat_event(threat("t", ThreatType::Xss, ThreatSeverity::High)).unwrap();
    assert!(plan.id.starts_with("plan-"));
    assert_eq!(plan.id.chars().count(), 5 + 36);
}

#[test]
fn resubmission_of_a_live_threat_gives_the_same_plan() {
    let mut aegis = operational();
    let first = aegis
        .submit_threat(threat("t", ThreatType::Malware, ThreatSeverity::High), "one", 10, 5)
        .unwrap();
    let second = aegis
        .submit_threat(threat("t", ThreatType::Malware, ThreatSeverity::High), "two", 11, 5)
        .unwrap();
    assert_eq!(second.id, first.id);
    assert_eq!(aegis.plan_count(), 1);
    assert_eq!(aegis.get_stats().response_plans_generated, 1);
    assert_eq!(aegis.get_stats().total_threats_detected, 1);

    aegis.execute(&first.id).unwrap();
    let third = aegis
        .submit_threat(threat("t", ThreatType::Malware, ThreatSeverity::High), "three", 12, 5)
        .unwrap();
    assert_eq!(third.id, "plan-three");
    assert_eq!(aegis.plan_count(), 2);
    assert_eq!(aegis.get_stats().response_plans_generated, 2);
}

#[test]
fn distinct_threats_are_each_counted_once() {
    let mut aegis = operational();
    aegis.submit_threat(threat("a", ThreatType::Xss, ThreatSeverity::Low), "1", 1, 10).unwrap();
    aegis.submit_threat(threat("b", ThreatType::Xss, ThreatSeverity::Low), "2", 1, 20).unwrap();
    aegis.set_state(AegisState::Degraded);
    assert!(aegis
        .submit_threat(threat("c", ThreatType::Xss, ThreatSeverity::Low), "3", 1, 30)
        .is_err());
    let stats = aegis.get_stats();
    assert_eq!(stats.total_threats_detected, 2);
    assert_eq!(stats.response_plans_generated, 2);
    assert_eq!(stats.total_response_time_ms, 30);
    assert_eq!(stats.avg_response_time_ms(), 15);
}

#[test]
fn mean_response_time_of_no_plan_is_zero() {
    let aegis = operational();
    assert_eq!(aegis.get_stats().avg_response_time_ms(), 0);
}

#[test]
fn a_plan_is_executed_once() {
    let mut aegis = operational();
    let mut plan = aegis
        .process_threat_event(threat("t", ThreatType::PortScan, ThreatSeverity::Medium))
        .unwrap();
    aegis.execute_response_plan(&mut plan).unwrap();
    assert_eq!(plan.completed_actions, 2);
    assert_eq!(
        aegis.execute_response_plan(&mut plan).unwrap_err(),
        AegisError::InvalidTransition(ResponsePlanStatus::Completed)
    );
    assert_eq!(
        aegis.execute(&plan.id).unwrap_err(),
        AegisError::InvalidTransition(ResponsePlanStatus::Completed)
    );
    assert_eq!(
        aegis.cancel(&plan.id).unwrap_err(),
        AegisError::InvalidTransition(ResponsePlanStatus::Completed)
    );
    assert_eq!(aegis.get_plan(&plan.id).unwrap().status, ResponsePlanStatus::Completed);
    assert_eq!(aegis.get_stats().response_plans_completed, 1);
}

#[test]
fn execution_needs_an_operational_system_and_a_known_plan() {
    let mut aegis = operational();
    let plan = aegis
        .process_threat_event(threat("t", ThreatType::PortScan, ThreatSeverity::Medium))
        .unwrap();
    assert_eq!(aegis.execute("plan-unknown").unwrap_err(), AegisError::UnknownPlan);
    aegis.shutdown().unwrap();
    assert_eq!(
        aegis.execute(&plan.id).unwrap_err(),
        AegisError::NotOperational(AegisState::Shutdown)
    );
    assert_eq!(aegis.get_plan(&plan.id).unwrap().status, ResponsePlanStatus::Created);
    aegis.cancel(&plan.id).unwrap();
    assert_eq!(aegis.get_plan(&plan.id).unwrap().status, ResponsePlanStatus::Cancelled);
    assert_eq!(aegis.get_stats().response_plans_cancelled, 1);
}

/// The time at which the plans of these tests are started.
const START: u64 = 1_000_000;

/// A report of success, given `elapsed_seconds` seconds after the start.
fn success(elapsed_seconds: u64) -> ActionReport {
    ActionReport { outcome: ActionOutcome::Succeeded, reported_at: START + elapsed_seconds }
}

/// A report of failure, given `elapsed_seconds` seconds after the start.
fn failure(kind: FailureKind, elapsed_seconds: u64) -> ActionReport {
    ActionReport { outcome: ActionOutcome::Failed(kind), reported_at: START + elapsed_seconds }
}

#[test]
fn reports_drive_a_plan_to_completion() {
    let mut aegis = operational();
    let plan = aegis
        .process_threat_event(threat("t", ThreatType::DenialOfService, ThreatSeverity::Critical))
        .unwrap();
    assert_eq!(
        aegis.report_action(&plan.id, success(1)).unwrap_err(),
        AegisError::InvalidTransition(ResponsePlanStatus::Created)
    );
    assert_eq!(aegis.begin_execution(&plan.id, START).unwrap(), ResponsePlanStatus::InProgress);
    assert_eq!(
        aegis.begin_execution(&plan.id, START).unwrap_err(),
        AegisError::InvalidTransition(ResponsePlanStatus::InProgress)
    );
    assert_eq!(aegis.report_action(&plan.id, success(1)).unwrap(), ResponsePlanStatus::InProgress);
    assert_eq!(aegis.report_action(&plan.id, success(2)).unwrap(), ResponsePlanStatus::InProgress);
    assert_eq!(aegis.get_plan(&plan.id).unwrap().completed_actions, 2);
    assert_eq!(aegis.report_action(&plan.id, success(300)).unwrap(), ResponsePlanStatus::Completed);
    assert_eq!(
        aegis.report_action(&plan.id, success(301)).unwrap_err(),
        AegisError::InvalidTransition(ResponsePlanStatus::Completed)
    );
    assert_eq!(aegis.get_stats().response_plans_completed, 1);
}

#[test]
fn a_failing_action_fails_the_plan_at_once() {
    let mut aegis = operational();
    let plan = aegis
        .process_threat_event(threat("t", ThreatType::PortScan, ThreatSeverity::High))
        .unwrap();
    aegis.begin_execution(&plan.id, START).unwrap();
    aegis.report_action(&plan.id, success(1)).unwrap();
    let expected = ActionFailure {
        index: 1,
        action: ResponseAction::BlockIp,
        kind: FailureKind::Unreachable,
    };
    assert_eq!(
        aegis.report_action(&plan.id, failure(FailureKind::Unreachable, 2)).unwrap(),
        ResponsePlanStatus::Failed(expected)
    );
    assert_eq!(
        aegis.report_action(&plan.id, success(3)).unwrap_err(),
        AegisError::InvalidTransition(ResponsePlanStatus::Failed(expected))
    );
    assert_eq!(
        aegis.cancel(&plan.id).unwrap_err(),
        AegisError::InvalidTransition(ResponsePlanStatus::Failed(expected))
    );
    let held = aegis.get_plan(&plan.id).unwrap();
    assert_eq!(held.completed_actions, 1);
    assert_eq!(aegis.get_stats().response_plans_failed, 1);
    assert_eq!(aegis.get_stats().response_plans_completed, 0);
}

#[test]
fn a_plan_times_out_when_its_time_has_run_out() {
    let mut aegis = operational();
    let plan = aegis
        .process_threat_event(threat("t", ThreatType::PortScan, ThreatSeverity::High))
        .unwrap();
    aegis.begin_execution(&plan.id, START).unwrap();
    assert_eq!(aegis.check_deadline(&plan.id, START + 300).unwrap(), ResponsePlanStatus::InProgress);
    assert_eq!(aegis.report_action(&plan.id, success(301)).unwrap(), ResponsePlanStatus::TimedOut);
    assert_eq!(
        aegis.report_action(&plan.id, success(302)).unwrap_err(),
        AegisError::InvalidTransition(ResponsePlanStatus::TimedOut)
    );
    assert_eq!(aegis.get_stats().response_plans_timed_out, 1);
    assert_eq!(aegis.get_stats().response_plans_completed, 0);

    let other = aegis
        .process_threat_event(threat("u", ThreatType::PortScan, ThreatSeverity::High))
        .unwrap();
    assert_eq!(
        aegis.check_deadline(&other.id, START + 1000).unwrap_err(),
        AegisError::InvalidTransition(ResponsePlanStatus::Created)
    );
    aegis.begin_execution(&other.id, START).unwrap();
    assert_eq!(aegis.check_deadline(&other.id, START + 301).unwrap(), ResponsePlanStatus::TimedOut);
    assert_eq!(aegis.get_stats().response_plans_timed_out, 2);
}

#[test]
fn cancellation_is_accepted_until_the_plan_is_terminal() {
    let mut aegis = operational();
    let created = aegis
        .process_threat_event(threat("a", ThreatType::Xss, ThreatSeverity::High))
        .unwrap();
    aegis.cancel(&created.id).unwrap();
    assert_eq!(
        aegis.cancel(&created.id).unwrap_err(),
        AegisError::InvalidTransition(ResponsePlanStatus::Cancelled)
    );
    assert_eq!(
        aegis.execute(&created.id).unwrap_err(),
        AegisError::InvalidTransition(ResponsePlanStatus::Cancelled)
    );
    let running = aegis
        .process_threat_event(threat("b", ThreatType::Xss, ThreatSeverity::High))
        .unwrap();
    aegis.begin_execution(&running.id, START).unwrap();
    aegis.cancel(&running.id).unwrap();
    assert_eq!(aegis.get_plan(&running.id).unwrap().status, ResponsePlanStatus::Cancelled);
    assert_eq!(aegis.cancel("plan-none").unwrap_err(), AegisError::UnknownPlan);
    assert_eq!(aegis.get_stats().response_plans_cancelled, 2);
}

#[test]
fn plan_steps_on_a_plan_of_ones_own() {
    let mut plan = ResponsePlan::for_event(
        threat("t", ThreatType::Malware, ThreatSeverity::Info),
        "p",
        3,
    );
    assert_eq!(plan.actions, vec![ResponseAction::Monitor]);
    assert!(!plan.status.is_terminal());
    assert_eq!(plan.elapsed(START), 0);
    plan.start(START).unwrap();
    assert_eq!(plan.status, ResponsePlanStatus::InProgress);
    assert_eq!(plan.started_at, Some(START));
    assert_eq!(plan.finished_at, None);
    assert_eq!(plan.elapsed(START + 7), 7);
    assert_eq!(plan.elapsed(START - 1), 0);
    assert_eq!(
        plan.start(START + 1).unwrap_err(),
        AegisError::InvalidTransition(ResponsePlanStatus::InProgress)
    );
    plan.check_deadline(START + 10).unwrap();
    assert_eq!(plan.status, ResponsePlanStatus::InProgress);
    plan.report(success(20)).unwrap();
    assert_eq!(plan.status, ResponsePlanStatus::Completed);
    assert_eq!(plan.finished_at, Some(START + 20));
    assert!(plan.status.is_terminal());
    assert_eq!(
        plan.run(START + 30).unwrap_err(),
        AegisError::InvalidTransition(ResponsePlanStatus::Completed)
    );
    assert_eq!(
        plan.cancel(START + 30).unwrap_err(),
        AegisError::InvalidTransition(ResponsePlanStatus::Completed)
    );
    assert_eq!(plan.finished_at, Some(START + 20));
    let mut direct = ResponsePlan::for_event(
        threat("t", ThreatType::Malware, ThreatSeverity::Info),
        "q",
        3,
    );
    direct.run(START).unwrap();
    assert_eq!(direct.status, ResponsePlanStatus::Completed);
    assert_eq!(direct.completed_actions, 1);
    assert_eq!(direct.started_at, Some(START));
    assert_eq!(direct.finished_at, Some(START));
}

#[test]
fn terminal_plans_are_archived_after_their_grace_period() {
    let mut aegis = operational();
    let a = aegis.submit_threat(threat("a", ThreatType::Xss, ThreatSeverity::High), "a", 1, 1);
    let b = aegis.submit_threat(threat("b", ThreatType::Xss, ThreatSeverity::High), "b", 1, 1);
    let c = aegis.submit_threat(threat("c", ThreatType::Xss, ThreatSeverity::High), "c", 1, 1);
    let d = aegis.submit_threat(threat("d", ThreatType::Xss, ThreatSeverity::High), "d", 1, 1);
    let e = aegis.submit_threat(threat("e", ThreatType::Xss, ThreatSeverity::High), "e", 1, 1);
    let (a, b, c, d, e) = (a.unwrap(), b.unwrap(), c.unwrap(), d.unwrap(), e.unwrap());
    aegis.execute_at(&a.id, START).unwrap();
    aegis.begin_execution(&b.id, START).unwrap();
    aegis.cancel_at(&c.id, START + 10).unwrap();
    aegis.execute_at(&e.id, START + 50).unwrap();
    // Sixty seconds of grace: at START + 70 the plans that ended at START and START + 10 are due.
    assert!(aegis.archive_terminal(START + 59, 60).is_empty());
    let archived = aegis.archive_terminal(START + 70, 60);
    let ids: Vec<&str> = archived.iter().map(|p| p.id.as_str()).collect();
    assert_eq!(ids, vec!["plan-a", "plan-c"]);
    assert_eq!(archived[0].status, ResponsePlanStatus::Completed);
    assert_eq!(archived[0].finished_at, Some(START));
    assert_eq!(archived[1].status, ResponsePlanStatus::Cancelled);
    assert_eq!(archived[1].finished_at, Some(START + 10));
    assert_eq!(aegis.plan_count(), 3);
    assert!(aegis.get_plan(&a.id).is_none());
    assert_eq!(aegis.get_plan(&b.id).unwrap().status, ResponsePlanStatus::InProgress);
    assert_eq!(aegis.get_plan(&d.id).unwrap().status, ResponsePlanStatus::Created);
    assert_eq!(aegis.get_plan(&e.id).unwrap().status, ResponsePlanStatus::Completed);
    // A clock that stands before the end of a plan archives nothing.
    assert!(aegis.archive_terminal(START, 0).is_empty());
    let rest = aegis.archive_terminal(START + 50, 0);
    assert_eq!(rest.len(), 1);
    assert_eq!(rest[0].id, "plan-e");
    assert_eq!(aegis.plan_count(), 2);
    assert_eq!(aegis.get_stats().response_plans_generated, 5);
    assert_eq!(aegis.get_stats().response_plans_completed, 2);
}

#[test]
fn the_timeout_is_counted_from_the_start_of_the_plan() {
    let mut aegis = operational();
    let plan = aegis
        .process_threat_event(threat("t", ThreatType::DenialOfService, ThreatSeverity::Critical))
        .unwrap();
    aegis.begin_execution(&plan.id, 5_000).unwrap();
    let at = |seconds: u64| ActionReport {
        outcome: ActionOutcome::Succeeded,
        reported_at: seconds,
    };
    // A report stamped before the start counts as given at the start.
    assert_eq!(aegis.report_action(&plan.id, at(4_000)).unwrap(), ResponsePlanStatus::InProgress);
    assert_eq!(aegis.report_action(&plan.id, at(5_300)).unwrap(), ResponsePlanStatus::InProgress);
    assert_eq!(aegis.report_action(&plan.id, at(5_301)).unwrap(), ResponsePlanStatus::TimedOut);
    let held = aegis.get_plan(&plan.id).unwrap();
    assert_eq!(held.started_at, Some(5_000));
    assert_eq!(held.finished_at, Some(5_301));
    assert_eq!(held.completed_actions, 2);
}

#[test]
fn a_copy_of_a_threat_holds_the_same_values() {
    let mut event = threat("t", ThreatType::DataExfiltration, ThreatSeverity::High);
    event.metadata.insert("k".to_string(), "v".to_string());
    let copy = event.clone();
    assert_eq!(copy.id, event.id);
    assert_eq!(copy.threat_type, event.threat_type);
    assert_eq!(copy.severity, event.severity);
    assert_eq!(copy.confidence, event.confidence);
    assert_eq!(copy.source, event.source);
    assert_eq!(copy.target, event.target);
    assert_eq!(copy.timestamp, event.timestamp);
    assert_eq!(copy.metadata.get("k").unwrap(), "v");
    assert_eq!(copy.metadata.len(), 1);
}

#[test]
fn policies_hold_their_rules() {
    let rule = PolicyRule {
        id: "r1".to_string(),
        condition: "severity >= high".to_string(),
        action: ResponseAction::IsolateSystem,
        priority: 80,
    };
    let policy = SecurityPolicy {
        id: "p1".to_string(),
        name: "isolation".to_string(),
        description: "isolate on high severity".to_string(),
        rules: vec![rule],
        priority: 60,
        created_at: 1,
        updated_at: 2,
        version: 1,
        enabled: true,
    };
    assert_eq!(policy.rules.len(), 1);
    assert_eq!(policy.rules[0].action, ResponseAction::IsolateSystem);
    assert!(policy.enabled);
}

#[test]
fn telemetry_is_merged_into_the_metadata_of_a_threat() {
    let mut event = threat("t", ThreatType::Malware, ThreatSeverity::High);
    event.metadata.insert("source".to_string(), "sensor-1".to_string());
    event.metadata.insert("zone".to_string(), "dmz".to_string());
    let mut telemetry = Metadata::new();
    telemetry.insert("tool".to_string(), "nmap".to_string());
    telemetry.insert("source".to_string(), "10.1.1.1".to_string());
    event.merge_telemetry(&telemetry);
    assert_eq!(event.metadata.len(), 3);
    assert_eq!(event.metadata.key_at(0), "source");
    assert_eq!(event.metadata.key_at(1), "zone");
    assert_eq!(event.metadata.key_at(2), "tool");
    assert_eq!(event.metadata.get("source").unwrap(), "10.1.1.1");
    assert_eq!(event.metadata.get("zone").unwrap(), "dmz");
    assert_eq!(event.metadata.get("tool").unwrap(), "nmap");
    event.merge_telemetry(&Metadata::new());
    assert_eq!(event.metadata.len(), 3);
    assert_eq!(event.id, "t");
}

#[test]
fn an_execution_with_reports_tells_how_the_plan_ended() {
    let mut aegis = operational();
    let done = aegis
        .process_threat_event(threat("a", ThreatType::PortScan, ThreatSeverity::High))
        .unwrap();
    assert_eq!(
        aegis.execute_with(&done.id, START, &[success(1), success(2)]).unwrap(),
        ResponsePlanStatus::Completed
    );
    assert_eq!(
        aegis.execute_with(&done.id, START, &[success(1)]).unwrap_err(),
        AegisError::InvalidTransition(ResponsePlanStatus::Completed)
    );

    let failed = aegis
        .process_threat_event(threat("b", ThreatType::DenialOfService, ThreatSeverity::Critical))
        .unwrap();
    let expected = ActionFailure {
        index: 1,
        action: ResponseAction::BlockIp,
        kind: FailureKind::Rejected,
    };
    // The report after the failure is not looked at.
    assert_eq!(
        aegis.execute_with(&failed.id, START, &[success(1), failure(FailureKind::Rejected, 2), success(3)]
            )
            .unwrap_err(),
        AegisError::ActionFailed(expected)
    );
    let held = aegis.get_plan(&failed.id).unwrap();
    assert_eq!(held.status, ResponsePlanStatus::Failed(expected));
    assert_eq!(held.completed_actions, 1);

    let late = aegis
        .process_threat_event(threat("c", ThreatType::PortScan, ThreatSeverity::High))
        .unwrap();
    assert_eq!(
        aegis.execute_with(&late.id, START, &[success(1), success(301)]).unwrap_err(),
        AegisError::TimedOut
    );
    assert_eq!(aegis.get_plan(&late.id).unwrap().status, ResponsePlanStatus::TimedOut);

    let partial = aegis
        .process_threat_event(threat("d", ThreatType::PortScan, ThreatSeverity::High))
        .unwrap();
    assert_eq!(
        aegis.execute_with(&partial.id, START, &[success(1)]).unwrap(),
        ResponsePlanStatus::InProgress
    );
    assert_eq!(aegis.execute_with(&partial.id, START, &[]).unwrap_err(),
        AegisError::InvalidTransition(ResponsePlanStatus::InProgress));
    assert_eq!(
        aegis.report_action(&partial.id, success(2)).unwrap(),
        ResponsePlanStatus::Completed
    );
    assert_eq!(aegis.execute_with("plan-none", START, &[]).unwrap_err(), AegisError::UnknownPlan);

    let stats = aegis.get_stats();
    assert_eq!(stats.response_plans_completed, 2);
    assert_eq!(stats.response_plans_failed, 1);
    assert_eq!(stats.response_plans_timed_out, 1);
    assert_eq!(stats.response_plans_cancelled, 0);
}

#[test]
fn a_copy_that_has_left_created_is_not_executed() {
    let mut aegis = operational();
    let plan = aegis
        .process_threat_event(threat("t", ThreatType::PortScan, ThreatSeverity::Medium))
        .unwrap();
    // The copy is cancelled on its own; the plan that is held is still `Created`.
    let mut copy = plan.clone();
    copy.cancel(START).unwrap();
    assert_eq!(
        aegis.execute_response_plan(&mut copy).unwrap_err(),
        AegisError::InvalidTransition(ResponsePlanStatus::Cancelled)
    );
    assert_eq!(copy.status, ResponsePlanStatus::Cancelled);
    assert_eq!(copy.finished_at, Some(START));
    assert_eq!(aegis.get_plan(&plan.id).unwrap().status, ResponsePlanStatus::Created);
    assert_eq!(aegis.get_stats().response_plans_completed, 0);

    // A terminal copy of a plan that is not held is refused for its status too.
    let mut stray = ResponsePlan::for_event(
        threat("u", ThreatType::PortScan, ThreatSeverity::Medium),
        "stray",
        1,
    );
    assert_eq!(aegis.execute_response_plan(&mut stray).unwrap_err(), AegisError::UnknownPlan);
    stray.run(START).unwrap();
    assert_eq!(
        aegis.execute_response_plan_at(&mut stray, START + 1).unwrap_err(),
        AegisError::InvalidTransition(ResponsePlanStatus::Completed)
    );
    aegis.set_state(AegisState::Degraded);
    assert_eq!(
        aegis.execute_response_plan(&mut stray).unwrap_err(),
        AegisError::NotOperational(AegisState::Degraded)
    );

    aegis.set_state(AegisState::Operational);
    let mut fresh = plan.clone();
    aegis.execute_response_plan_at(&mut fresh, START + 2).unwrap();
    assert_eq!(fresh.status, ResponsePlanStatus::Completed);
    assert_eq!(fresh.started_at, Some(START + 2));
    assert_eq!(fresh.finished_at, Some(START + 2));
    assert_eq!(aegis.get_stats().response_plans_completed, 1);
}

#[test]
fn the_time_that_planning_took_is_booked_with_the_plan() {
    let mut aegis = operational();
    aegis.process_threat_event(threat("a", ThreatType::Xss, ThreatSeverity::High)).unwrap();
    let after_one = aegis.get_stats().total_response_time_ms;
    // A threat that is answered with its live plan books no time.
    aegis.process_threat_event(threat("a", ThreatType::Xss, ThreatSeverity::High)).unwrap();
    assert_eq!(aegis.get_stats().total_response_time_ms, after_one);
    assert_eq!(aegis.get_stats().response_plans_generated, 1);
    assert!(after_one < 60_000);
}
