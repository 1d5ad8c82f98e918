//! Response orchestration: a threat event is answered by a response plan,
//! and the plan runs through an execution state machine.

use vstd::prelude::*;
use crate::fixed::{accumulate, accumulated, bump, bumped, Ppm};
use crate::host::{clock_micros, random_uuid, UUID_TEXT_LEN};
use crate::table::{
    distinct_keys, has_key, index_of, lemma_index_of, lemma_index_of_keys,
    lemma_index_of_position, lemma_map_values_of, lemma_map_values_of_merged, lookup,
    map_values_of, merged, put, text_entries, text_of, Metadata, StringTable,
};
use crate::text::join;

verus! {

/// Settings of the orchestrator.
#[derive(Debug, Clone, Copy, PartialEq, Eq, Structural)]
pub struct AegisConfig {
    /// How much the orchestrator decides on its own.
    pub autonomy_level: Ppm,
    /// Seconds between two updates of the policies.
    pub policy_update_interval: u64,
    /// Confidence from which a response starts without an operator.
    pub auto_response_threshold: Ppm,
    pub enable_cross_module_coordination: bool,
    pub enable_resource_optimization: bool,
    pub enable_policy_learning: bool,
    /// 0 = none, 1 = errors, 2 = warnings, 3 = info, 4 = debug.
    pub log_level: u8,
}

impl Default for AegisConfig {
    fn default() -> (r: Self)
        ensures
            r == (AegisConfig {
                autonomy_level: 800_000,
                policy_update_interval: 300,
                auto_response_threshold: 700_000,
                enable_cross_module_coordination: true,
                enable_resource_optimization: true,
                enable_policy_learning: true,
                log_level: 3,
            }),
    {
        AegisConfig {
            autonomy_level: 800_000,
            policy_update_interval: 300,
            auto_response_threshold: 700_000,
            enable_cross_module_coordination: true,
            enable_resource_optimization: true,
            enable_policy_learning: true,
            log_level: 3,
        }
    }
}

/// The categories of threat.
#[derive(Debug, Clone, Copy, PartialEq, Eq, Structural)]
pub enum ThreatType {
    DenialOfService,
    PortScan,
    DataExfiltration,
    SqlInjection,
    Xss,
    BruteForce,
    Malware,
    CommandAndControl,
    UnknownZeroDay,
}

/// How grave a threat is, from `Info` up to `Critical`.
#[derive(Debug, Clone, Copy, PartialEq, Eq, PartialOrd, Structural)]
pub enum ThreatSeverity {
    Info,
    Low,
    Medium,
    High,
    Critical,
}

/// The place of a severity in the order from `Info` (0) to `Critical` (4).
pub open spec fn severity_rank(severity: ThreatSeverity) -> nat {
    match severity {
        ThreatSeverity::Info => 0,
        ThreatSeverity::Low => 1,
        ThreatSeverity::Medium => 2,
        ThreatSeverity::High => 3,
        ThreatSeverity::Critical => 4,
    }
}

/// The priority of a plan that answers a threat of the severity given.
pub open spec fn priority_of(severity: ThreatSeverity) -> u8 {
    match severity {
        ThreatSeverity::Info => 10,
        ThreatSeverity::Low => 30,
        ThreatSeverity::Medium => 50,
        ThreatSeverity::High => 70,
        ThreatSeverity::Critical => 90,
    }
}

impl ThreatSeverity {
    /// The place of the severity in the order from `Info` (0) to `Critical` (4).
    pub fn rank(self) -> (r: u8)
        ensures
            r == severity_rank(self),
    {
        match self {
            ThreatSeverity::Info => 0,
            ThreatSeverity::Low => 1,
            ThreatSeverity::Medium => 2,
            ThreatSeverity::High => 3,
            ThreatSeverity::Critical => 4,
        }
    }

    /// The priority of a plan that answers a threat of this severity.
    pub fn priority(self) -> (r: u8)
        ensures
            r == priority_of(self),
            r <= 100,
    {
        match self {
            ThreatSeverity::Info => 10,
            ThreatSeverity::Low => 30,
            ThreatSeverity::Medium => 50,
            ThreatSeverity::High => 70,
            ThreatSeverity::Critical => 90,
        }
    }
}

/// What can be done against a threat.
#[derive(Debug, Clone, Copy, PartialEq, Eq, Structural)]
pub enum ResponseAction {
    Monitor,
    Alert,
    BlockIp,
    BlockPort,
    IsolateSystem,
    RedirectToHoneypot,
    ActiveCountermeasure,
    EmergencyShutdown,
}

/// The actions that answer a threat. The two lowest severities decide
/// alone; above them the category decides, and for two categories a
/// critical threat gets a third action.
pub open spec fn policy_actions(threat_type: ThreatType, severity: ThreatSeverity) -> Seq<
    ResponseAction,
> {
    match (threat_type, severity) {
        (_, ThreatSeverity::Info) => seq![ResponseAction::Monitor],
        (_, ThreatSeverity::Low) => seq![ResponseAction::Monitor, ResponseAction::Alert],
        (ThreatType::PortScan, _) => seq![ResponseAction::Alert, ResponseAction::BlockIp],
        (ThreatType::BruteForce, _) => seq![ResponseAction::Alert, ResponseAction::BlockIp],
        (ThreatType::DenialOfService, ThreatSeverity::Critical) => seq![
            ResponseAction::Alert,
            ResponseAction::BlockIp,
            ResponseAction::ActiveCountermeasure,
        ],
        (ThreatType::UnknownZeroDay, ThreatSeverity::Critical) => seq![
            ResponseAction::Alert,
            ResponseAction::IsolateSystem,
            ResponseAction::ActiveCountermeasure,
        ],
        _ => seq![ResponseAction::Alert, ResponseAction::Monitor],
    }
}

/// For the two lowest severities the category of the threat has no say:
/// an informational threat is monitored, with priority 10, and a low one
/// is monitored and raises an alert, with priority 30.
pub proof fn lemma_low_severities_dominate(threat_type: ThreatType)
    ensures
        policy_actions(threat_type, ThreatSeverity::Info) == seq![ResponseAction::Monitor],
        priority_of(ThreatSeverity::Info) == 10,
        policy_actions(threat_type, ThreatSeverity::Low) == seq![
            ResponseAction::Monitor,
            ResponseAction::Alert,
        ],
        priority_of(ThreatSeverity::Low) == 30,
{
}

/// Selects the actions that answer a threat.
pub fn select_actions(threat_type: ThreatType, severity: ThreatSeverity) -> (r: Vec<ResponseAction>)
    ensures
        r@ == policy_actions(threat_type, severity),
{
    let mut actions: Vec<ResponseAction> = Vec::new();
    match (threat_type, severity) {
        (_, ThreatSeverity::Info) => {
            actions.push(ResponseAction::Monitor);
        },
        (_, ThreatSeverity::Low) => {
            actions.push(ResponseAction::Monitor);
            actions.push(ResponseAction::Alert);
        },
        (ThreatType::PortScan, _) => {
            actions.push(ResponseAction::Alert);
            actions.push(ResponseAction::BlockIp);
        },
        (ThreatType::BruteForce, _) => {
            actions.push(ResponseAction::Alert);
            actions.push(ResponseAction::BlockIp);
        },
        (ThreatType::DenialOfService, ThreatSeverity::Critical) => {
            actions.push(ResponseAction::Alert);
            actions.push(ResponseAction::BlockIp);
            actions.push(ResponseAction::ActiveCountermeasure);
        },
        (ThreatType::UnknownZeroDay, ThreatSeverity::Critical) => {
            actions.push(ResponseAction::Alert);
            actions.push(ResponseAction::IsolateSystem);
            actions.push(ResponseAction::ActiveCountermeasure);
        },
        _ => {
            actions.push(ResponseAction::Alert);
            actions.push(ResponseAction::Monitor);
        },
    }
    assert(actions@ =~= policy_actions(threat_type, severity));
    actions
}

/// A threat in canonical form.
#[derive(Debug)]
pub struct ThreatEvent {
    pub id: String,
    pub threat_type: ThreatType,
    pub severity: ThreatSeverity,
    pub confidence: Ppm,
    pub source: String,
    pub target: String,
    /// Seconds since the Unix epoch.
    pub timestamp: u64,
    pub metadata: Metadata,
}

/// The value of a [`ThreatEvent`].
pub struct ThreatEventView {
    pub id: Seq<char>,
    pub threat_type: ThreatType,
    pub severity: ThreatSeverity,
    pub confidence: Ppm,
    pub source: Seq<char>,
    pub target: Seq<char>,
    pub timestamp: u64,
    pub metadata: Seq<(Seq<char>, Seq<char>)>,
}

impl View for ThreatEvent {
    type V = ThreatEventView;

    open spec fn view(&self) -> ThreatEventView {
        ThreatEventView {
            id: self.id@,
            threat_type: self.threat_type,
            severity: self.severity,
            confidence: self.confidence,
            source: self.source@,
            target: self.target@,
            timestamp: self.timestamp,
            metadata: text_entries(self.metadata@),
        }
    }
}

impl Clone for ThreatEvent {
    fn clone(&self) -> (r: Self)
        ensures
            r@ == self@,
    {
        ThreatEvent {
            id: self.id.clone(),
            threat_type: self.threat_type,
            severity: self.severity,
            confidence: self.confidence,
            source: self.source.clone(),
            target: self.target.clone(),
            timestamp: self.timestamp,
            metadata: self.metadata.clone(),
        }
    }
}

impl ThreatEvent {
    /// Takes what a deception environment has told of the attacker into the
    /// metadata of the threat: each entry is stored under its key, in
    /// order, in place of what stood under that key before.
    pub fn merge_telemetry(&mut self, telemetry: &Metadata)
        ensures
            final(self)@ == (ThreatEventView {
                metadata: merged(old(self)@.metadata, text_entries(telemetry@)),
                ..old(self)@
            }),
    {
        proof {
            lemma_map_values_of_merged(self.metadata@, telemetry@, text_of());
        }
        self.metadata.merge_from(telemetry);
    }
}

/// Why an action could not be applied.
#[derive(Debug, Clone, Copy, PartialEq, Eq, Structural)]
pub enum FailureKind {
    /// The target of the action could not be reached.
    Unreachable,
    /// The target refused the action.
    Rejected,
    /// The action is not available on the target.
    Unsupported,
    /// The executor itself failed.
    Internal,
}

/// Which action of a plan failed, and why.
#[derive(Debug, Clone, Copy, PartialEq, Eq, Structural)]
pub struct ActionFailure {
    /// The place of the action in the plan, counted from 0.
    pub index: usize,
    pub action: ResponseAction,
    pub kind: FailureKind,
}

/// Where a plan stands in its execution.
#[derive(Debug, Clone, Copy, PartialEq, Eq, Structural)]
pub enum ResponsePlanStatus {
    /// Made, not yet started.
    Created,
    /// Started; some actions may be applied.
    InProgress,
    /// Every action was applied in time.
    Completed,
    /// An action failed; no later action was tried.
    Failed(ActionFailure),
    /// Stopped on request.
    Cancelled,
    /// The time allowed ran out.
    TimedOut,
}

/// Whether a plan in this status will never change again.
pub open spec fn is_terminal(status: ResponsePlanStatus) -> bool {
    !(status is Created || status is InProgress)
}

impl ResponsePlanStatus {
    /// Whether a plan in this status will never change again.
    pub fn is_terminal(&self) -> (r: bool)
        ensures
            r == is_terminal(*self),
    {
        match self {
            ResponsePlanStatus::Created => false,
            ResponsePlanStatus::InProgress => false,
            _ => true,
        }
    }
}

/// What the executor says of one action.
#[derive(Debug, Clone, Copy, PartialEq, Eq, Structural)]
pub enum ActionOutcome {
    Succeeded,
    Failed(FailureKind),
}

/// The executor's word on the action that was due, with the time at which
/// it was given, in seconds since the Unix epoch.
#[derive(Debug, Clone, Copy, PartialEq, Eq, Structural)]
pub struct ActionReport {
    pub outcome: ActionOutcome,
    pub reported_at: u64,
}

/// Why the orchestrator refused a request.
#[derive(Debug, PartialEq)]
pub enum AegisError {
    /// The system is in a state that does not allow the request; the state is given.
    NotOperational(AegisState),
    /// The plan is in a status from which the step asked for cannot be taken; the status is given.
    InvalidTransition(ResponsePlanStatus),
    /// An action failed, and with it the plan.
    ActionFailed(ActionFailure),
    /// The time allowed for the plan ran out.
    TimedOut,
    /// No plan has the identifier that was named.
    UnknownPlan,
}

/// The seconds that a plan may take.
pub const DEFAULT_TIMEOUT_SECONDS: u64 = 300;

/// The answer to a threat: actions in the order in which they are applied.
#[derive(Debug)]
pub struct ResponsePlan {
    pub id: String,
    pub threat_event: ThreatEvent,
    pub actions: Vec<ResponseAction>,
    /// From 0, the lowest, to 100.
    pub priority: u8,
    /// Seconds since the Unix epoch.
    pub created_at: u64,
    pub timeout_seconds: u64,
    pub status: ResponsePlanStatus,
    /// How many actions have been applied.
    pub completed_actions: usize,
    /// When the plan was started, in seconds since the Unix epoch.
    pub started_at: Option<u64>,
    /// When the plan reached a terminal status, in seconds since the Unix epoch.
    pub finished_at: Option<u64>,
}

/// The value of a [`ResponsePlan`].
pub struct ResponsePlanView {
    pub id: Seq<char>,
    pub threat_event: ThreatEventView,
    pub actions: Seq<ResponseAction>,
    pub priority: u8,
    pub created_at: u64,
    pub timeout_seconds: u64,
    pub status: ResponsePlanStatus,
    pub completed_actions: usize,
    pub started_at: Option<u64>,
    pub finished_at: Option<u64>,
}

impl View for ResponsePlan {
    type V = ResponsePlanView;

    open spec fn view(&self) -> ResponsePlanView {
        ResponsePlanView {
            id: self.id@,
            threat_event: self.threat_event@,
            actions: self.actions@,
            priority: self.priority,
            created_at: self.created_at,
            timeout_seconds: self.timeout_seconds,
            status: self.status,
            completed_actions: self.completed_actions,
            started_at: self.started_at,
            finished_at: self.finished_at,
        }
    }
}

/// A copy of a list of actions.
fn copy_actions(actions: &Vec<ResponseAction>) -> (r: Vec<ResponseAction>)
    ensures
        r@ == actions@,
{
    let mut out: Vec<ResponseAction> = Vec::new();
    let mut i: usize = 0;
    while i < actions.len()
        invariant
            i <= actions.len(),
            out@ == actions@.subrange(0, i as int),
        decreases actions.len() - i,
    {
        out.push(actions[i]);
        assert(out@ =~= actions@.subrange(0, i + 1));
        i += 1;
    }
    assert(actions@.subrange(0, actions@.len() as int) =~= actions@);
    out
}

impl Clone for ResponsePlan {
    fn clone(&self) -> (r: Self)
        ensures
            r@ == self@,
    {
        ResponsePlan {
            id: self.id.clone(),
            threat_event: self.threat_event.clone(),
            actions: copy_actions(&self.actions),
            priority: self.priority,
            created_at: self.created_at,
            timeout_seconds: self.timeout_seconds,
            status: self.status,
            completed_actions: self.completed_actions,
            started_at: self.started_at,
            finished_at: self.finished_at,
        }
    }
}

/// The plan that answers `event`, made at time `now` under the identifier
/// `plan-` followed by `uuid`.
pub open spec fn planned(event: ThreatEventView, uuid: Seq<char>, now: u64) -> ResponsePlanView {
    ResponsePlanView {
        id: "plan-"@ + uuid,
        threat_event: event,
        actions: policy_actions(event.threat_type, event.severity),
        priority: priority_of(event.severity),
        created_at: now,
        timeout_seconds: DEFAULT_TIMEOUT_SECONDS,
        status: ResponsePlanStatus::Created,
        completed_actions: 0,
        started_at: None,
        finished_at: None,
    }
}

/// A plan in which what `completed_actions` counts are actions of the
/// plan, which is completed exactly when all of them are applied, and
/// whose times of start and end go with its status.
pub open spec fn well_formed(plan: ResponsePlanView) -> bool {
    &&& plan.completed_actions <= plan.actions.len()
    &&& plan.status is Created ==> plan.completed_actions == 0 && plan.started_at is None
    &&& plan.status is Completed ==> plan.completed_actions == plan.actions.len()
    &&& plan.status is InProgress ==> plan.completed_actions < plan.actions.len()
        && plan.started_at is Some
    &&& plan.status matches ResponsePlanStatus::Failed(failure) ==> failure.index
        == plan.completed_actions && failure.index < plan.actions.len() && failure.action
        == plan.actions[failure.index as int]
    &&& is_terminal(plan.status) <==> plan.finished_at is Some
}

/// The seconds that a plan has been running at time `now`, counted from
/// its start: 0 where the plan has not been started or the clock stands
/// before the start.
pub open spec fn elapsed_seconds(plan: ResponsePlanView, now: u64) -> u64 {
    match plan.started_at {
        Some(start) => if now >= start {
            (now - start) as u64
        } else {
            0
        },
        None => 0,
    }
}

/// The plan after it has reached the terminal status `status` at time `now`.
pub open spec fn ended(plan: ResponsePlanView, status: ResponsePlanStatus, now: u64)
    -> ResponsePlanView {
    ResponsePlanView { status, finished_at: Some(now), ..plan }
}

/// The plan after the step `Created -> InProgress` at time `now`; a plan
/// without actions is completed at once. From any other status the step is refused.
pub open spec fn started(plan: ResponsePlanView, now: u64) -> Result<ResponsePlanView, AegisError> {
    if plan.status is Created {
        let running = ResponsePlanView {
            status: ResponsePlanStatus::InProgress,
            started_at: Some(now),
            ..plan
        };
        if plan.actions.len() == 0 {
            Ok(ended(running, ResponsePlanStatus::Completed, now))
        } else {
            Ok(running)
        }
    } else {
        Err(AegisError::InvalidTransition(plan.status))
    }
}

/// The plan after the executor's report on the action that was due. A
/// report that comes when the plan has run for longer than it may makes
/// the plan time out, whatever it says; a failure fails the plan and names
/// the action; a success moves on to the next action, and completes the
/// plan after the last one. Where the plan is not in progress the report
/// is refused.
pub open spec fn reported(plan: ResponsePlanView, report: ActionReport) -> Result<
    ResponsePlanView,
    AegisError,
> {
    if !(plan.status is InProgress) || plan.completed_actions >= plan.actions.len() {
        Err(AegisError::InvalidTransition(plan.status))
    } else if elapsed_seconds(plan, report.reported_at) > plan.timeout_seconds {
        Ok(ended(plan, ResponsePlanStatus::TimedOut, report.reported_at))
    } else {
        match report.outcome {
            ActionOutcome::Failed(kind) => Ok(
                ended(
                    plan,
                    ResponsePlanStatus::Failed(
                        ActionFailure {
                            index: plan.completed_actions,
                            action: plan.actions[plan.completed_actions as int],
                            kind,
                        },
                    ),
                    report.reported_at,
                ),
            ),
            ActionOutcome::Succeeded => {
                let advanced = ResponsePlanView {
                    completed_actions: (plan.completed_actions + 1) as usize,
                    ..plan
                };
                if plan.completed_actions + 1 == plan.actions.len() {
                    Ok(ended(advanced, ResponsePlanStatus::Completed, report.reported_at))
                } else {
                    Ok(advanced)
                }
            },
        }
    }
}

/// The plan after a request to cancel it at time `now`: accepted while the
/// plan is `Created` or `InProgress`, refused once it is terminal.
pub open spec fn cancelled(plan: ResponsePlanView, now: u64) -> Result<ResponsePlanView, AegisError> {
    if is_terminal(plan.status) {
        Err(AegisError::InvalidTransition(plan.status))
    } else {
        Ok(ended(plan, ResponsePlanStatus::Cancelled, now))
    }
}

/// The plan after the clock has been looked at, at time `now`: a plan in
/// progress that has run for longer than it may is timed out, one still in
/// time stays as it is. Where the plan is not in progress the step is refused.
pub open spec fn deadline_checked(plan: ResponsePlanView, now: u64) -> Result<
    ResponsePlanView,
    AegisError,
> {
    if !(plan.status is InProgress) {
        Err(AegisError::InvalidTransition(plan.status))
    } else if elapsed_seconds(plan, now) > plan.timeout_seconds {
        Ok(ended(plan, ResponsePlanStatus::TimedOut, now))
    } else {
        Ok(plan)
    }
}

/// The plan after it has been started at time `now` and every action has
/// succeeded at once.
pub open spec fn run_to_completion(plan: ResponsePlanView, now: u64) -> Result<
    ResponsePlanView,
    AegisError,
> {
    if plan.status is Created {
        Ok(
            ResponsePlanView {
                status: ResponsePlanStatus::Completed,
                completed_actions: plan.actions.len() as usize,
                started_at: Some(now),
                finished_at: Some(now),
                ..plan
            },
        )
    } else {
        Err(AegisError::InvalidTransition(plan.status))
    }
}

impl ResponsePlan {
    /// Makes the plan that answers `event`.
    pub fn for_event(event: ThreatEvent, uuid: &str, now: u64) -> (r: Self)
        ensures
            r@ == planned(event@, uuid@, now),
            well_formed(r@),
    {
        let actions = select_actions(event.threat_type, event.severity);
        let priority = event.severity.priority();
        ResponsePlan {
            id: join("plan-", uuid),
            threat_event: event,
            actions,
            priority,
            created_at: now,
            timeout_seconds: DEFAULT_TIMEOUT_SECONDS,
            status: ResponsePlanStatus::Created,
            completed_actions: 0,
            started_at: None,
            finished_at: None,
        }
    }

    /// The seconds that the plan has been running at time `now`.
    pub fn elapsed(&self, now: u64) -> (r: u64)
        ensures
            r == elapsed_seconds(self@, now),
    {
        match self.started_at {
            Some(start) => {
                if now >= start {
                    now - start
                } else {
                    0
                }
            },
            None => 0,
        }
    }

    /// Whether the plan is due for the archive at time `now`.
    pub fn is_due(&self, now: u64, grace_seconds: u64) -> (r: bool)
        ensures
            r == is_due(self@, now, grace_seconds),
    {
        if !self.status.is_terminal() {
            return false;
        }
        match self.finished_at {
            Some(at) => now >= at && now - at >= grace_seconds,
            None => false,
        }
    }

    /// Starts the plan at time `now`.
    pub fn start(&mut self, now: u64) -> (r: Result<(), AegisError>)
        ensures
            match started(old(self)@, now) {
                Ok(next) => r is Ok && final(self)@ == next,
                Err(e) => r == Err::<(), AegisError>(e) && final(self)@ == old(self)@,
            },
            well_formed(old(self)@) ==> well_formed(final(self)@),
    {
        match self.status {
            ResponsePlanStatus::Created => {
                self.started_at = Some(now);
                if self.actions.len() == 0 {
                    self.status = ResponsePlanStatus::Completed;
                    self.finished_at = Some(now);
                } else {
                    self.status = ResponsePlanStatus::InProgress;
                }
                Ok(())
            },
            other => Err(AegisError::InvalidTransition(other)),
        }
    }

    /// Takes in the executor's report on the action that was due.
    pub fn report(&mut self, report: ActionReport) -> (r: Result<(), AegisError>)
        ensures
            match reported(old(self)@, report) {
                Ok(next) => r is Ok && final(self)@ == next,
                Err(e) => r == Err::<(), AegisError>(e) && final(self)@ == old(self)@,
            },
            well_formed(old(self)@) ==> well_formed(final(self)@),
    {
        let in_progress = match self.status {
            ResponsePlanStatus::InProgress => true,
            _ => false,
        };
        if !in_progress || self.completed_actions >= self.actions.len() {
            return Err(AegisError::InvalidTransition(self.status));
        }
        if self.elapsed(report.reported_at) > self.timeout_seconds {
            self.status = ResponsePlanStatus::TimedOut;
            self.finished_at = Some(report.reported_at);
            return Ok(());
        }
        match report.outcome {
            ActionOutcome::Failed(kind) => {
                self.status = ResponsePlanStatus::Failed(
                    ActionFailure {
                        index: self.completed_actions,
                        action: self.actions[self.completed_actions],
                        kind,
                    },
                );
                self.finished_at = Some(report.reported_at);
            },
            ActionOutcome::Succeeded => {
                self.completed_actions = self.completed_actions + 1;
                if self.completed_actions == self.actions.len() {
                    self.status = ResponsePlanStatus::Completed;
                    self.finished_at = Some(report.reported_at);
                }
            },
        }
        Ok(())
    }

    /// Cancels the plan at time `now`.
    pub fn cancel(&mut self, now: u64) -> (r: Result<(), AegisError>)
        ensures
            match cancelled(old(self)@, now) {
                Ok(next) => r is Ok && final(self)@ == next,
                Err(e) => r == Err::<(), AegisError>(e) && final(self)@ == old(self)@,
            },
            well_formed(old(self)@) ==> well_formed(final(self)@),
    {
        if self.status.is_terminal() {
            return Err(AegisError::InvalidTransition(self.status));
        }
        self.status = ResponsePlanStatus::Cancelled;
        self.finished_at = Some(now);
        Ok(())
    }

    /// Looks at the clock at time `now`.
    pub fn check_deadline(&mut self, now: u64) -> (r: Result<(), AegisError>)
        ensures
            match deadline_checked(old(self)@, now) {
                Ok(next) => r is Ok && final(self)@ == next,
                Err(e) => r == Err::<(), AegisError>(e) && final(self)@ == old(self)@,
            },
            well_formed(old(self)@) ==> well_formed(final(self)@),
    {
        match self.status {
            ResponsePlanStatus::InProgress => {
                if self.elapsed(now) > self.timeout_seconds {
                    self.status = ResponsePlanStatus::TimedOut;
                    self.finished_at = Some(now);
                }
                Ok(())
            },
            other => Err(AegisError::InvalidTransition(other)),
        }
    }

    /// Starts the plan at time `now` and applies every action, each succeeding at once.
    pub fn run(&mut self, now: u64) -> (r: Result<(), AegisError>)
        ensures
            match run_to_completion(old(self)@, now) {
                Ok(next) => r is Ok && final(self)@ == next,
                Err(e) => r == Err::<(), AegisError>(e) && final(self)@ == old(self)@,
            },
            well_formed(old(self)@) ==> well_formed(final(self)@),
    {
        match self.status {
            ResponsePlanStatus::Created => {
                self.status = ResponsePlanStatus::Completed;
                self.completed_actions = self.actions.len();
                self.started_at = Some(now);
                self.finished_at = Some(now);
                Ok(())
            },
            other => Err(AegisError::InvalidTransition(other)),
        }
    }
}

/// Once a plan is terminal, every step is refused with `InvalidTransition`
/// and the plan stays as it is.
pub proof fn lemma_terminal_is_closed(plan: ResponsePlanView, report: ActionReport, now: u64)
    requires
        is_terminal(plan.status),
    ensures
        started(plan, now) == Err::<ResponsePlanView, AegisError>(
            AegisError::InvalidTransition(plan.status),
        ),
        reported(plan, report) == Err::<ResponsePlanView, AegisError>(
            AegisError::InvalidTransition(plan.status),
        ),
        cancelled(plan, now) == Err::<ResponsePlanView, AegisError>(
            AegisError::InvalidTransition(plan.status),
        ),
        deadline_checked(plan, now) == Err::<ResponsePlanView, AegisError>(
            AegisError::InvalidTransition(plan.status),
        ),
        run_to_completion(plan, now) == Err::<ResponsePlanView, AegisError>(
            AegisError::InvalidTransition(plan.status),
        ),
{
}

/// A step changes nothing of a plan but its status, the count of applied
/// actions and the times of start and end, and is never taken from a
/// terminal status.
pub proof fn lemma_steps_keep_the_plan(plan: ResponsePlanView, report: ActionReport, now: u64)
    ensures
        started(plan, now) matches Ok(next) ==> next == (ResponsePlanView {
            status: next.status,
            started_at: next.started_at,
            finished_at: next.finished_at,
            ..plan
        }) && !is_terminal(plan.status),
        reported(plan, report) matches Ok(next) ==> next == (ResponsePlanView {
            status: next.status,
            completed_actions: next.completed_actions,
            finished_at: next.finished_at,
            ..plan
        }) && !is_terminal(plan.status),
        cancelled(plan, now) matches Ok(next) ==> next == (ResponsePlanView {
            status: ResponsePlanStatus::Cancelled,
            finished_at: Some(now),
            ..plan
        }) && !is_terminal(plan.status),
        deadline_checked(plan, now) matches Ok(next) ==> next == (ResponsePlanView {
            status: next.status,
            finished_at: next.finished_at,
            ..plan
        }) && !is_terminal(plan.status),
        run_to_completion(plan, now) matches Ok(next) ==> next == (ResponsePlanView {
            status: ResponsePlanStatus::Completed,
            completed_actions: next.completed_actions,
            started_at: Some(now),
            finished_at: Some(now),
            ..plan
        }) && !is_terminal(plan.status),
{
}

/// Taking the same step a second time is refused and changes nothing:
/// a plan is started once, and cancelled once.
pub proof fn lemma_steps_are_taken_once(plan: ResponsePlanView, now: u64, later: u64)
    ensures
        started(plan, now) matches Ok(next) ==> started(next, later) == Err::<
            ResponsePlanView,
            AegisError,
        >(AegisError::InvalidTransition(next.status)),
        cancelled(plan, now) matches Ok(next) ==> cancelled(next, later) == Err::<
            ResponsePlanView,
            AegisError,
        >(AegisError::InvalidTransition(next.status)) && started(next, later) == Err::<
            ResponsePlanView,
            AegisError,
        >(AegisError::InvalidTransition(next.status)),
        run_to_completion(plan, now) matches Ok(next) ==> run_to_completion(next, later) == Err::<
            ResponsePlanView,
            AegisError,
        >(AegisError::InvalidTransition(next.status)) && cancelled(next, later) == Err::<
            ResponsePlanView,
            AegisError,
        >(AegisError::InvalidTransition(next.status)),
{
}

/// A plan in progress times out exactly when it has run for longer than
/// its timeout, counted from its start.
pub proof fn lemma_timeout_is_measured_from_the_start(plan: ResponsePlanView, now: u64)
    requires
        plan.status is InProgress,
        plan.started_at is Some,
    ensures
        deadline_checked(plan, now) matches Ok(next) && (next.status is TimedOut <==> now
            > plan.started_at->Some_0 + plan.timeout_seconds),
{
}

/// A policy rule: what to do when a condition holds.
#[derive(Debug)]
pub struct PolicyRule {
    pub id: String,
    pub condition: String,
    pub action: ResponseAction,
    /// From 0, the lowest, to 100.
    pub priority: u8,
}

/// A security policy: a named list of rules.
#[derive(Debug)]
pub struct SecurityPolicy {
    pub id: String,
    pub name: String,
    pub description: String,
    pub rules: Vec<PolicyRule>,
    /// From 0, the lowest, to 100.
    pub priority: u8,
    /// Seconds since the Unix epoch.
    pub created_at: u64,
    /// Seconds since the Unix epoch.
    pub updated_at: u64,
    pub version: u32,
    pub enabled: bool,
}

/// Counters of the orchestrator.
#[derive(Debug, Clone, Copy, PartialEq, Eq, Structural)]
pub struct AegisStats {
    pub total_threats_detected: u64,
    pub response_plans_generated: u64,
    pub response_plans_completed: u64,
    pub response_plans_failed: u64,
    pub response_plans_timed_out: u64,
    pub response_plans_cancelled: u64,
    /// Sum of the times taken to answer a threat with a plan, in milliseconds.
    pub total_response_time_ms: u64,
    pub false_positive_rate: Ppm,
    pub false_negative_rate: Ppm,
    pub active_policies: u32,
    pub resource_utilization: Ppm,
}

/// The mean time taken to answer a threat with a plan, in whole milliseconds.
pub open spec fn mean_response_time_ms(stats: AegisStats) -> u64 {
    if stats.response_plans_generated == 0 {
        0
    } else {
        stats.total_response_time_ms / stats.response_plans_generated
    }
}

impl AegisStats {
    /// The mean time taken to answer a threat with a plan, in whole milliseconds.
    pub fn avg_response_time_ms(&self) -> (r: u64)
        ensures
            r == mean_response_time_ms(*self),
    {
        if self.response_plans_generated == 0 {
            0
        } else {
            self.total_response_time_ms / self.response_plans_generated
        }
    }
}

/// Where the orchestrator stands.
#[derive(Debug, PartialEq)]
pub enum AegisState {
    Initializing,
    Operational,
    Degraded,
    Maintenance,
    Error(String),
    Shutdown,
}

impl Clone for AegisState {
    fn clone(&self) -> (r: Self)
        ensures
            r == *self,
    {
        match self {
            AegisState::Initializing => AegisState::Initializing,
            AegisState::Operational => AegisState::Operational,
            AegisState::Degraded => AegisState::Degraded,
            AegisState::Maintenance => AegisState::Maintenance,
            AegisState::Error(detail) => AegisState::Error(detail.clone()),
            AegisState::Shutdown => AegisState::Shutdown,
        }
    }
}

impl AegisState {
    /// Whether the system takes requests.
    pub fn is_operational(&self) -> (r: bool)
        ensures
            r == (*self is Operational),
    {
        match self {
            AegisState::Operational => true,
            _ => false,
        }
    }
}

/// The value of an [`AegisOrchestrator`]: its settings, state and
/// counters, and its plans, each under its identifier, in the order in
/// which they were made.
pub struct AegisView {
    pub config: AegisConfig,
    pub state: AegisState,
    pub stats: AegisStats,
    pub plans: Seq<(Seq<char>, ResponsePlanView)>,
}

/// Whether `plan` is a plan for the threat `threat_id` that has not reached a terminal status.
pub open spec fn is_live_for(plan: ResponsePlanView, threat_id: Seq<char>) -> bool {
    !is_terminal(plan.status) && plan.threat_event.id == threat_id
}

/// The position of the first plan that is live for `threat_id`, or `-1` where there is none.
pub open spec fn live_plan_index(plans: Seq<(Seq<char>, ResponsePlanView)>, threat_id: Seq<char>)
    -> int
    decreases plans.len(),
{
    if plans.len() == 0 {
        -1
    } else if live_plan_index(plans.drop_last(), threat_id) >= 0 {
        live_plan_index(plans.drop_last(), threat_id)
    } else if is_live_for(plans.last().1, threat_id) {
        plans.len() - 1
    } else {
        -1
    }
}

/// `live_plan_index` gives the first live plan for the threat, and `-1` exactly when there is none.
pub proof fn lemma_live_plan_index(plans: Seq<(Seq<char>, ResponsePlanView)>, threat_id: Seq<char>)
    ensures
        -1 <= live_plan_index(plans, threat_id) < plans.len(),
        live_plan_index(plans, threat_id) >= 0 ==> is_live_for(
            plans[live_plan_index(plans, threat_id)].1,
            threat_id,
        ),
        forall|j: int|
            0 <= j < plans.len() && (live_plan_index(plans, threat_id) < 0 || j < live_plan_index(
                plans,
                threat_id,
            )) ==> !is_live_for((#[trigger] plans[j]).1, threat_id),
    decreases plans.len(),
{
    if plans.len() > 0 {
        let front = plans.drop_last();
        lemma_live_plan_index(front, threat_id);
        assert(forall|j: int| 0 <= j < front.len() ==> front[j] == plans[j]);
    }
}

/// What holds of every orchestrator: no plan identifier occurs twice, each
/// plan stands under its own identifier and is well formed, and no threat
/// has two live plans.
pub open spec fn consistent(v: AegisView) -> bool {
    &&& distinct_keys(v.plans)
    &&& forall|i: int| 0 <= i < v.plans.len() ==> (#[trigger] v.plans[i]).0 == v.plans[i].1.id
    &&& forall|i: int| 0 <= i < v.plans.len() ==> well_formed((#[trigger] v.plans[i]).1)
    &&& forall|i: int, j: int|
        0 <= i < v.plans.len() && 0 <= j < v.plans.len() && i != j && !is_terminal(
            (#[trigger] v.plans[i]).1.status,
        ) && !is_terminal((#[trigger] v.plans[j]).1.status) ==> v.plans[i].1.threat_event.id
            != v.plans[j].1.threat_event.id
}

/// The counters after a plan has gone from one status to another: a plan
/// that reaches a terminal status is counted under it.
pub open spec fn tallied(stats: AegisStats, before: ResponsePlanStatus, after: ResponsePlanStatus)
    -> AegisStats {
    if is_terminal(before) {
        stats
    } else {
        match after {
            ResponsePlanStatus::Completed => AegisStats {
                response_plans_completed: bumped(stats.response_plans_completed),
                ..stats
            },
            ResponsePlanStatus::Failed(_) => AegisStats {
                response_plans_failed: bumped(stats.response_plans_failed),
                ..stats
            },
            ResponsePlanStatus::TimedOut => AegisStats {
                response_plans_timed_out: bumped(stats.response_plans_timed_out),
                ..stats
            },
            ResponsePlanStatus::Cancelled => AegisStats {
                response_plans_cancelled: bumped(stats.response_plans_cancelled),
                ..stats
            },
            _ => stats,
        }
    }
}

/// The counters of an orchestrator in which nothing has happened yet.
pub open spec fn initial_stats() -> AegisStats {
    AegisStats {
        total_threats_detected: 0,
        response_plans_generated: 0,
        response_plans_completed: 0,
        response_plans_failed: 0,
        response_plans_timed_out: 0,
        response_plans_cancelled: 0,
        total_response_time_ms: 0,
        false_positive_rate: 0,
        false_negative_rate: 0,
        active_policies: 0,
        resource_utilization: 0,
    }
}

/// The orchestrator after the new plan `plan`, made in `response_time_ms`
/// milliseconds, has been taken in.
pub open spec fn after_submission(v: AegisView, plan: ResponsePlanView, response_time_ms: u64)
    -> AegisView {
    AegisView {
        plans: put(v.plans, plan.id, plan),
        stats: AegisStats {
            total_threats_detected: bumped(v.stats.total_threats_detected),
            response_plans_generated: bumped(v.stats.response_plans_generated),
            total_response_time_ms: accumulated(v.stats.total_response_time_ms, response_time_ms),
            ..v.stats
        },
        ..v
    }
}

/// Whether a plan is due for the archive at time `now`: it reached a
/// terminal status at least `grace_seconds` seconds ago.
pub open spec fn is_due(plan: ResponsePlanView, now: u64, grace_seconds: u64) -> bool {
    &&& is_terminal(plan.status)
    &&& plan.finished_at matches Some(at)
    &&& now >= at
    &&& now - at >= grace_seconds
}

/// The plans of a list that are not due for the archive, in their order.
pub open spec fn retained_plans(
    plans: Seq<(Seq<char>, ResponsePlanView)>,
    now: u64,
    grace_seconds: u64,
) -> Seq<(Seq<char>, ResponsePlanView)>
    decreases plans.len(),
{
    if plans.len() == 0 {
        plans
    } else if is_due(plans.last().1, now, grace_seconds) {
        retained_plans(plans.drop_last(), now, grace_seconds)
    } else {
        retained_plans(plans.drop_last(), now, grace_seconds).push(plans.last())
    }
}

/// The plans of a list that are due for the archive, in their order.
pub open spec fn archived_plans(
    plans: Seq<(Seq<char>, ResponsePlanView)>,
    now: u64,
    grace_seconds: u64,
) -> Seq<ResponsePlanView>
    decreases plans.len(),
{
    if plans.len() == 0 {
        Seq::empty()
    } else if is_due(plans.last().1, now, grace_seconds) {
        archived_plans(plans.drop_last(), now, grace_seconds).push(plans.last().1)
    } else {
        archived_plans(plans.drop_last(), now, grace_seconds)
    }
}

/// Every plan is either retained or archived; no live plan is archived,
/// and no plan that is due is retained.
pub proof fn lemma_archive_splits_the_plans(
    plans: Seq<(Seq<char>, ResponsePlanView)>,
    now: u64,
    grace_seconds: u64,
)
    ensures
        retained_plans(plans, now, grace_seconds).len() + archived_plans(
            plans,
            now,
            grace_seconds,
        ).len() == plans.len(),
        forall|i: int|
            0 <= i < retained_plans(plans, now, grace_seconds).len() ==> !is_due(
                (#[trigger] retained_plans(plans, now, grace_seconds)[i]).1,
                now,
                grace_seconds,
            ),
        forall|i: int|
            0 <= i < archived_plans(plans, now, grace_seconds).len() ==> is_due(
                #[trigger] archived_plans(plans, now, grace_seconds)[i],
                now,
                grace_seconds,
            ),
    decreases plans.len(),
{
    if plans.len() > 0 {
        lemma_archive_splits_the_plans(plans.drop_last(), now, grace_seconds);
    }
}

/// Each accepted threat is counted exactly once, whatever the order in
/// which threats come in: two new plans raise the counters of threats and
/// of plans by two, and the counters end the same whichever plan came first.
pub proof fn lemma_submissions_are_counted(
    v: AegisView,
    first: ResponsePlanView,
    first_time_ms: u64,
    second: ResponsePlanView,
    second_time_ms: u64,
)
    requires
        v.stats.total_threats_detected + 2 <= u64::MAX,
        v.stats.response_plans_generated + 2 <= u64::MAX,
    ensures
        after_submission(v, first, first_time_ms).stats.total_threats_detected
            == v.stats.total_threats_detected + 1,
        after_submission(v, first, first_time_ms).stats.response_plans_generated
            == v.stats.response_plans_generated + 1,
        after_submission(
            after_submission(v, first, first_time_ms),
            second,
            second_time_ms,
        ).stats.total_threats_detected == v.stats.total_threats_detected + 2,
        after_submission(
            after_submission(v, first, first_time_ms),
            second,
            second_time_ms,
        ).stats.response_plans_generated == v.stats.response_plans_generated + 2,
        after_submission(after_submission(v, first, first_time_ms), second, second_time_ms).stats
            == after_submission(
            after_submission(v, second, second_time_ms),
            first,
            first_time_ms,
        ).stats,
{
}

/// No step on a plan and no submission lets a counter fall.
pub proof fn lemma_counters_never_fall(
    stats: AegisStats,
    before: ResponsePlanStatus,
    after: ResponsePlanStatus,
)
    ensures
        tallied(stats, before, after).response_plans_completed >= stats.response_plans_completed,
        tallied(stats, before, after).response_plans_failed >= stats.response_plans_failed,
        tallied(stats, before, after).response_plans_timed_out >= stats.response_plans_timed_out,
        tallied(stats, before, after).response_plans_cancelled >= stats.response_plans_cancelled,
        tallied(stats, before, after).total_threats_detected == stats.total_threats_detected,
        tallied(stats, before, after).response_plans_generated == stats.response_plans_generated,
{
}

/// The step that is asked of a plan, with the time at which it is taken.
#[derive(Debug, Clone, Copy, PartialEq, Eq, Structural)]
pub enum PlanStep {
    Start(u64),
    Report(ActionReport),
    Cancel(u64),
    CheckDeadline(u64),
    Run(u64),
}

/// What a step makes of a plan.
pub open spec fn stepped(plan: ResponsePlanView, step: PlanStep) -> Result<
    ResponsePlanView,
    AegisError,
> {
    match step {
        PlanStep::Start(now) => started(plan, now),
        PlanStep::Report(report) => reported(plan, report),
        PlanStep::Cancel(now) => cancelled(plan, now),
        PlanStep::CheckDeadline(now) => deadline_checked(plan, now),
        PlanStep::Run(now) => run_to_completion(plan, now),
    }
}

/// Whether a step is taken only while the system is operational: starting
/// a plan is; reports, deadlines and cancellations are taken in any state.
pub open spec fn needs_operational(step: PlanStep) -> bool {
    step is Start || step is Run
}

/// What a step on the plan `plan_id` makes of the orchestrator, or why it is refused.
pub open spec fn step_outcome(v: AegisView, plan_id: Seq<char>, step: PlanStep) -> Result<
    AegisView,
    AegisError,
> {
    if needs_operational(step) && !(v.state is Operational) {
        Err(AegisError::NotOperational(v.state))
    } else if !has_key(v.plans, plan_id) {
        Err(AegisError::UnknownPlan)
    } else {
        let i = index_of(v.plans, plan_id);
        match stepped(v.plans[i].1, step) {
            Ok(next) => Ok(
                AegisView {
                    plans: v.plans.update(i, (v.plans[i].0, next)),
                    stats: tallied(v.stats, v.plans[i].1.status, next.status),
                    ..v
                },
            ),
            Err(e) => Err(e),
        }
    }
}

/// Whether `after` and `result` are what a step on the plan `plan_id`
/// makes of `before`: where the step is taken, the caller is told the
/// status that the plan has reached; where it is refused, nothing changes.
pub open spec fn step_taken(
    before: AegisView,
    plan_id: Seq<char>,
    step: PlanStep,
    after: AegisView,
    result: Result<ResponsePlanStatus, AegisError>,
) -> bool {
    match step_outcome(before, plan_id, step) {
        Ok(next) => after == next && result == Ok::<ResponsePlanStatus, AegisError>(
            next.plans[index_of(before.plans, plan_id)].1.status,
        ),
        Err(e) => after == before && result == Err::<ResponsePlanStatus, AegisError>(e),
    }
}

/// As `step_taken`, for a caller that is told only whether the step was taken.
pub open spec fn step_done(
    before: AegisView,
    plan_id: Seq<char>,
    step: PlanStep,
    after: AegisView,
    result: Result<(), AegisError>,
) -> bool {
    match step_outcome(before, plan_id, step) {
        Ok(next) => after == next && result is Ok,
        Err(e) => after == before && result == Err::<(), AegisError>(e),
    }
}

/// Whether the plan `plan_id` is found in `after` exactly where it is found
/// in `before`: at a position of the list, if it is found at all.
pub open spec fn same_place(before: AegisView, after: AegisView, plan_id: Seq<char>) -> bool {
    &&& after.plans.len() == before.plans.len()
    &&& has_key(after.plans, plan_id) == has_key(before.plans, plan_id)
    &&& index_of(after.plans, plan_id) == index_of(before.plans, plan_id)
    &&& has_key(before.plans, plan_id) ==> 0 <= index_of(before.plans, plan_id)
        < before.plans.len()
}

/// The orchestrator after the executor's reports on the plan `plan_id`
/// have been taken in, in order, for as long as the plan is in progress:
/// the first report that ends the plan is the last one taken.
pub open spec fn after_reports(v: AegisView, plan_id: Seq<char>, reports: Seq<ActionReport>)
    -> AegisView
    decreases reports.len(),
{
    if reports.len() == 0 {
        v
    } else {
        match step_outcome(v, plan_id, PlanStep::Report(reports[0])) {
            Ok(next) => after_reports(next, plan_id, reports.subrange(1, reports.len() as int)),
            Err(_) => v,
        }
    }
}

/// What starting the plan `plan_id` at time `now` and taking in the
/// executor's reports makes of the orchestrator, or why the plan cannot be started.
pub open spec fn execution_outcome(
    v: AegisView,
    plan_id: Seq<char>,
    now: u64,
    reports: Seq<ActionReport>,
) -> Result<AegisView, AegisError> {
    match step_outcome(v, plan_id, PlanStep::Start(now)) {
        Ok(begun) => Ok(after_reports(begun, plan_id, reports)),
        Err(e) => Err(e),
    }
}

/// What the caller of an execution is told of the status that the plan has
/// reached: a failed action and a timeout are errors.
pub open spec fn verdict(status: ResponsePlanStatus) -> Result<ResponsePlanStatus, AegisError> {
    match status {
        ResponsePlanStatus::Failed(failure) => Err(AegisError::ActionFailed(failure)),
        ResponsePlanStatus::TimedOut => Err(AegisError::TimedOut),
        other => Ok(other),
    }
}

/// A copy of a plan brought up to date with the plan `held` of which it is a copy.
pub open spec fn brought_up_to_date(copy: ResponsePlanView, held: ResponsePlanView)
    -> ResponsePlanView {
    ResponsePlanView {
        status: held.status,
        completed_actions: held.completed_actions,
        started_at: held.started_at,
        finished_at: held.finished_at,
        ..copy
    }
}

/// Why the plan of which `copy` is a copy cannot be executed, if that can
/// be told before the plan that is held is looked at: the system is not
/// operational, or the copy itself says that the plan has left `Created`.
pub open spec fn copy_refusal(v: AegisView, copy: ResponsePlanView) -> Option<AegisError> {
    if !(v.state is Operational) {
        Some(AegisError::NotOperational(v.state))
    } else if !(copy.status is Created) {
        Some(AegisError::InvalidTransition(copy.status))
    } else {
        None
    }
}

/// Whether `after`, `copy_after` and `result` are what executing the plan
/// of which `copy_before` is a copy, at time `now`, makes of `before`. A
/// copy that has left `Created` is refused with its own status, whatever
/// the plan that is held says; a refusal changes neither the orchestrator
/// nor the copy.
pub open spec fn plan_executed(
    before: AegisView,
    copy_before: ResponsePlanView,
    now: u64,
    after: AegisView,
    copy_after: ResponsePlanView,
    result: Result<(), AegisError>,
) -> bool {
    match copy_refusal(before, copy_before) {
        Some(e) => after == before && result == Err::<(), AegisError>(e) && copy_after
            == copy_before,
        None => match step_outcome(before, copy_before.id, PlanStep::Run(now)) {
            Ok(next) => after == next && result is Ok && copy_after == brought_up_to_date(
                copy_before,
                next.plans[index_of(before.plans, copy_before.id)].1,
            ),
            Err(e) => after == before && result == Err::<(), AegisError>(e) && copy_after
                == copy_before,
        },
    }
}

/// A copy of a plan that has reached a terminal status is never executed:
/// in an operational system the attempt is refused with `InvalidTransition`
/// and the status of the copy, and the orchestrator, its counters and the
/// copy stay as they are.
pub proof fn lemma_terminal_copy_is_refused(
    before: AegisView,
    copy_before: ResponsePlanView,
    now: u64,
    after: AegisView,
    copy_after: ResponsePlanView,
    result: Result<(), AegisError>,
)
    requires
        before.state is Operational,
        is_terminal(copy_before.status),
        plan_executed(before, copy_before, now, after, copy_after, result),
    ensures
        result == Err::<(), AegisError>(AegisError::InvalidTransition(copy_before.status)),
        after == before,
        copy_after == copy_before,
{
}

/// The function that takes a plan to its value.
pub open spec fn plan_value() -> spec_fn(ResponsePlan) -> ResponsePlanView {
    |p: ResponsePlan| p@
}

/// The orchestrator.
pub struct AegisOrchestrator {
    config: AegisConfig,
    state: AegisState,
    stats: AegisStats,
    plans: StringTable<ResponsePlan>,
}

impl View for AegisOrchestrator {
    type V = AegisView;

    closed spec fn view(&self) -> AegisView {
        AegisView {
            config: self.config,
            state: self.state,
            stats: self.stats,
            plans: map_values_of(self.plans@, plan_value()),
        }
    }
}

/// Counts a plan that has gone from one status to another.
fn tally(stats: AegisStats, before: ResponsePlanStatus, after: ResponsePlanStatus) -> (r: AegisStats)
    ensures
        r == tallied(stats, before, after),
{
    let mut next = stats;
    if !before.is_terminal() {
        match after {
            ResponsePlanStatus::Completed => {
                next.response_plans_completed = bump(stats.response_plans_completed);
            },
            ResponsePlanStatus::Failed(_) => {
                next.response_plans_failed = bump(stats.response_plans_failed);
            },
            ResponsePlanStatus::TimedOut => {
                next.response_plans_timed_out = bump(stats.response_plans_timed_out);
            },
            ResponsePlanStatus::Cancelled => {
                next.response_plans_cancelled = bump(stats.response_plans_cancelled);
            },
            _ => {},
        }
    }
    next
}

impl ResponsePlan {
    /// Takes a step.
    fn step(&mut self, step: PlanStep) -> (r: Result<(), AegisError>)
        ensures
            match stepped(old(self)@, step) {
                Ok(next) => r is Ok && final(self)@ == next,
                Err(e) => r == Err::<(), AegisError>(e) && final(self)@ == old(self)@,
            },
            well_formed(old(self)@) ==> well_formed(final(self)@),
    {
        match step {
            PlanStep::Start(now) => self.start(now),
            PlanStep::Report(report) => self.report(report),
            PlanStep::Cancel(now) => self.cancel(now),
            PlanStep::CheckDeadline(now) => self.check_deadline(now),
            PlanStep::Run(now) => self.run(now),
        }
    }
}

impl AegisOrchestrator {
    #[verifier::type_invariant]
    spec fn inv(&self) -> bool {
        &&& forall|i: int|
            0 <= i < self.plans@.len() ==> (#[trigger] self.plans@[i]).0 == self.plans@[i].1.id@
        &&& forall|i: int| 0 <= i < self.plans@.len() ==> well_formed((#[trigger] self.plans@[i]).1@)
        &&& forall|i: int, j: int|
            0 <= i < self.plans@.len() && 0 <= j < self.plans@.len() && i != j && !is_terminal(
                (#[trigger] self.plans@[i]).1.status,
            ) && !is_terminal((#[trigger] self.plans@[j]).1.status)
                ==> self.plans@[i].1.threat_event.id@ != self.plans@[j].1.threat_event.id@
    }

    /// What the type's invariant gives of the value.
    proof fn lemma_consistent(&self)
        requires
            self.inv(),
            distinct_keys(self.plans@),
        ensures
            consistent(self@),
    {
        lemma_map_values_of(self.plans@, plan_value(), Seq::empty(), arbitrary());
        let plans = self@.plans;
        assert forall|i: int| 0 <= i < plans.len() implies (#[trigger] plans[i]).0
            == plans[i].1.id && well_formed(plans[i].1) by {
            assert(plans[i].1 == self.plans@[i].1@);
            assert(plans[i].0 == self.plans@[i].0);
        }
        assert forall|i: int, j: int|
            0 <= i < plans.len() && 0 <= j < plans.len() && i != j && !is_terminal(
                (#[trigger] plans[i]).1.status,
            ) && !is_terminal((#[trigger] plans[j]).1.status) implies plans[i].1.threat_event.id
            != plans[j].1.threat_event.id by {
            assert(plans[i].1 == self.plans@[i].1@);
            assert(plans[j].1 == self.plans@[j].1@);
        }
    }

    /// An orchestrator with the settings given, not yet initialised, without plans.
    pub fn new(config: AegisConfig) -> (r: Self)
        ensures
            r@ == (AegisView {
                config,
                state: AegisState::Initializing,
                stats: initial_stats(),
                plans: Seq::empty(),
            }),
            consistent(r@),
    {
        let r = AegisOrchestrator {
            config,
            state: AegisState::Initializing,
            stats: AegisStats {
                total_threats_detected: 0,
                response_plans_generated: 0,
                response_plans_completed: 0,
                response_plans_failed: 0,
                response_plans_timed_out: 0,
                response_plans_cancelled: 0,
                total_response_time_ms: 0,
                false_positive_rate: 0,
                false_negative_rate: 0,
                active_policies: 0,
                resource_utilization: 0,
            },
            plans: StringTable::new(),
        };
        assert(r@.plans =~= Seq::<(Seq<char>, ResponsePlanView)>::empty());
        r
    }

    /// Makes the orchestrator operational.
    pub fn initialize(&mut self) -> (r: Result<(), AegisError>)
        ensures
            r is Ok,
            final(self)@ == (AegisView { state: AegisState::Operational, ..old(self)@ }),
    {
        proof {
            use_type_invariant(&*self);
        }
        self.state = AegisState::Operational;
        Ok(())
    }

    /// Shuts the orchestrator down.
    pub fn shutdown(&mut self) -> (r: Result<(), AegisError>)
        ensures
            r is Ok,
            final(self)@ == (AegisView { state: AegisState::Shutdown, ..old(self)@ }),
    {
        proof {
            use_type_invariant(&*self);
        }
        self.state = AegisState::Shutdown;
        Ok(())
    }

    /// Puts the orchestrator in the state given.
    pub fn set_state(&mut self, state: AegisState)
        ensures
            final(self)@ == (AegisView { state, ..old(self)@ }),
    {
        proof {
            use_type_invariant(&*self);
        }
        self.state = state;
    }

    /// The state of the orchestrator.
    pub fn get_state(&self) -> (r: AegisState)
        ensures
            r == self@.state,
    {
        self.state.clone()
    }

    /// The counters of the orchestrator.
    pub fn get_stats(&self) -> (r: AegisStats)
        ensures
            r == self@.stats,
    {
        self.stats
    }

    /// The number of plans that the orchestrator holds.
    pub fn plan_count(&self) -> (r: usize)
        ensures
            r == self@.plans.len(),
            consistent(self@),
    {
        proof {
            use_type_invariant(self);
        }
        let n = self.plans.len();
        proof {
            self.lemma_consistent();
        }
        n
    }

    /// The plan `plan_id`, if the orchestrator holds it.
    pub fn get_plan(&self, plan_id: &str) -> (r: Option<ResponsePlan>)
        ensures
            consistent(self@),
            match r {
                Some(plan) => lookup(self@.plans, plan_id@) == Some(plan@),
                None => !has_key(self@.plans, plan_id@),
            },
    {
        proof {
            use_type_invariant(self);
            lemma_map_values_of(self.plans@, plan_value(), plan_id@, arbitrary());
        }
        let found = self.plans.get(plan_id);
        self.plans.keys_are_distinct();
        proof {
            self.lemma_consistent();
        }
        match found {
            Some(plan) => Some(plan.clone()),
            None => None,
        }
    }

    /// The position of the first plan that is live for the threat `threat_id`.
    fn find_live_plan(&self, threat_id: &str) -> (r: Option<usize>)
        ensures
            consistent(self@),
            match r {
                Some(i) => live_plan_index(self@.plans, threat_id@) == i && i < self@.plans.len(),
                None => live_plan_index(self@.plans, threat_id@) == -1,
            },
    {
        proof {
            use_type_invariant(self);
        }
        let n = self.plans.len();
        proof {
            self.lemma_consistent();
            lemma_live_plan_index(self@.plans, threat_id@);
        }
        let mut i: usize = 0;
        while i < n
            invariant
                i <= n,
                n == self@.plans.len(),
                n == self.plans@.len(),
                consistent(self@),
                forall|j: int| 0 <= j < i ==> !is_live_for((#[trigger] self@.plans[j]).1, threat_id@),
            decreases n - i,
        {
            let plan = self.plans.value_at(i);
            assert(self@.plans[i as int].1 == plan@);
            if !plan.status.is_terminal() && *plan.threat_event.id.as_str() == *threat_id {
                proof {
                    lemma_live_plan_index(self@.plans, threat_id@);
                    let k = live_plan_index(self@.plans, threat_id@);
                    assert(is_live_for(self@.plans[i as int].1, threat_id@));
                }
                return Some(i);
            }
            i += 1;
        }
        proof {
            lemma_live_plan_index(self@.plans, threat_id@);
            let k = live_plan_index(self@.plans, threat_id@);
            if k >= 0 {
                assert(!is_live_for(self@.plans[k].1, threat_id@));
            }
        }
        None
    }

    /// Answers the threat `event` with a plan. While a plan for the same
    /// threat is live, that plan is the answer and nothing changes;
    /// otherwise a new plan is made under the identifier `plan-` followed
    /// by `uuid`, kept, and counted with the time it took.
    pub fn submit_threat(&mut self, event: ThreatEvent, uuid: &str, now: u64, response_time_ms: u64)
        -> (r: Result<ResponsePlan, AegisError>)
        ensures
            consistent(old(self)@),
            consistent(final(self)@),
            !(old(self)@.state is Operational) ==> r == Err::<ResponsePlan, AegisError>(
                AegisError::NotOperational(old(self)@.state),
            ) && final(self)@ == old(self)@,
            old(self)@.state is Operational && live_plan_index(old(self)@.plans, event.id@) >= 0
                ==> r is Ok && r->Ok_0@ == old(self)@.plans[live_plan_index(
                old(self)@.plans,
                event.id@,
            )].1 && final(self)@ == old(self)@,
            old(self)@.state is Operational && live_plan_index(old(self)@.plans, event.id@) < 0
                ==> r is Ok && r->Ok_0@ == planned(event@, uuid@, now) && final(self)@
                == after_submission(old(self)@, r->Ok_0@, response_time_ms),
            r is Ok ==> lookup(final(self)@.plans, r->Ok_0.id@) == Some(r->Ok_0@),
    {
        proof {
            use_type_invariant(&*self);
        }
        let live = self.find_live_plan(event.id.as_str());
        if !self.state.is_operational() {
            return Err(AegisError::NotOperational(self.state.clone()));
        }
        if let Some(i) = live {
            proof {
                lemma_index_of_position(self@.plans, i as int);
            }
            return Ok(self.plans.value_at(i).clone());
        }
        let plan = ResponsePlan::for_event(event, uuid, now);
        let kept = plan.clone();
        let id = plan.id.clone();
        let ghost before = self.plans@;
        let mut table: StringTable<ResponsePlan> = StringTable::new();
        core::mem::swap(&mut self.plans, &mut table);
        table.insert(id, kept);
        proof {
            lemma_index_of(before, id@);
            lemma_map_values_of(before, plan_value(), id@, kept);
            lemma_live_plan_index(old(self)@.plans, event.id@);
            let at = index_of(before, id@);
            assert forall|i: int| 0 <= i < table@.len() implies (#[trigger] table@[i]).0
                == table@[i].1.id@ && well_formed(table@[i].1@) by {
                if i < before.len() && i != at {
                    assert(table@[i] == before[i]);
                }
            }
            assert forall|i: int, j: int|
                0 <= i < table@.len() && 0 <= j < table@.len() && i != j && !is_terminal(
                    (#[trigger] table@[i]).1.status,
                ) && !is_terminal((#[trigger] table@[j]).1.status)
                implies table@[i].1.threat_event.id@ != table@[j].1.threat_event.id@ by {
                let new_at = if at >= 0 { at } else { before.len() as int };
                if i != new_at && j != new_at {
                    assert(table@[i] == before[i]);
                    assert(table@[j] == before[j]);
                } else if i == new_at {
                    assert(table@[j] == before[j]);
                    assert(old(self)@.plans[j].1 == before[j].1@);
                    assert(!is_live_for(old(self)@.plans[j].1, event.id@));
                } else {
                    assert(table@[i] == before[i]);
                    assert(old(self)@.plans[i].1 == before[i].1@);
                    assert(!is_live_for(old(self)@.plans[i].1, event.id@));
                }
            }
        }
        core::mem::swap(&mut self.plans, &mut table);
        self.stats.total_threats_detected = bump(self.stats.total_threats_detected);
        self.stats.response_plans_generated = bump(self.stats.response_plans_generated);
        self.stats.total_response_time_ms = accumulate(
            self.stats.total_response_time_ms,
            response_time_ms,
        );
        self.plans.keys_are_distinct();
        proof {
            self.lemma_consistent();
            lemma_index_of(old(self)@.plans, plan.id@);
            let at = if index_of(old(self)@.plans, plan.id@) >= 0 {
                index_of(old(self)@.plans, plan.id@)
            } else {
                old(self)@.plans.len() as int
            };
            lemma_index_of_position(self@.plans, at);
        }
        Ok(plan)
    }

    /// Answers the threat `event` with a plan. The identifier of a new plan
    /// is drawn at random, and the time is read from the clock, on which
    /// the time that the planning took is measured too.
    pub fn process_threat_event(&mut self, event: ThreatEvent) -> (r: Result<
        ResponsePlan,
        AegisError,
    >)
        ensures
            consistent(final(self)@),
            !(old(self)@.state is Operational) ==> r == Err::<ResponsePlan, AegisError>(
                AegisError::NotOperational(old(self)@.state),
            ) && final(self)@ == old(self)@,
            old(self)@.state is Operational && live_plan_index(old(self)@.plans, event.id@) >= 0
                ==> r is Ok && r->Ok_0@ == old(self)@.plans[live_plan_index(
                old(self)@.plans,
                event.id@,
            )].1 && final(self)@ == old(self)@,
            old(self)@.state is Operational && live_plan_index(old(self)@.plans, event.id@) < 0
                ==> r is Ok && exists|uuid: Seq<char>, now: u64, response_time_ms: u64|
                uuid.len() == UUID_TEXT_LEN && r->Ok_0@ == #[trigger] planned(event@, uuid, now)
                    && final(self)@ == #[trigger] after_submission(
                    old(self)@,
                    r->Ok_0@,
                    response_time_ms,
                ),
            r is Ok ==> lookup(final(self)@.plans, r->Ok_0.id@) == Some(r->Ok_0@),
    {
        let begun = clock_micros();
        let uuid = random_uuid();
        let fresh = self.state.is_operational() && self.find_live_plan(
            event.id.as_str(),
        ).is_none();
        let r = self.submit_threat(event, uuid.as_str(), begun / 1_000_000, 0);
        if fresh {
            // The plan is made: the time that the planning took is booked with it.
            let ended = clock_micros();
            let response_time_ms = if ended >= begun {
                (ended - begun) / 1000
            } else {
                0
            };
            proof {
                use_type_invariant(&*self);
            }
            self.stats.total_response_time_ms = accumulate(
                self.stats.total_response_time_ms,
                response_time_ms,
            );
            assert(self@ == after_submission(old(self)@, r->Ok_0@, response_time_ms));
        }
        r
    }

    /// Takes the plans that are due for the archive at time `now` out of
    /// the orchestrator and hands them back, in the order in which they
    /// were made: those that reached a terminal status at least
    /// `grace_seconds` seconds ago. The other plans stay, in their order.
    pub fn archive_terminal(&mut self, now: u64, grace_seconds: u64) -> (r: Vec<ResponsePlan>)
        ensures
            consistent(old(self)@),
            consistent(final(self)@),
            final(self)@ == (AegisView {
                plans: retained_plans(old(self)@.plans, now, grace_seconds),
                ..old(self)@
            }),
            r@.len() == archived_plans(old(self)@.plans, now, grace_seconds).len(),
            forall|i: int|
                0 <= i < r@.len() ==> (#[trigger] r@[i])@ == archived_plans(
                    old(self)@.plans,
                    now,
                    grace_seconds,
                )[i],
    {
        proof {
            use_type_invariant(&*self);
        }
        let n = self.plans.len();
        proof {
            self.lemma_consistent();
        }
        let ghost before = self.plans@;
        let ghost plans = self@.plans;
        let mut kept: StringTable<ResponsePlan> = StringTable::new();
        let mut archived: Vec<ResponsePlan> = Vec::new();
        let ghost mut origin: Seq<int> = Seq::empty();
        let mut k: usize = 0;
        proof {
            assert(plans.subrange(0, 0) =~= Seq::<(Seq<char>, ResponsePlanView)>::empty());
            assert(map_values_of(kept@, plan_value()) =~= retained_plans(
                plans.subrange(0, 0),
                now,
                grace_seconds,
            ));
        }
        while k < n
            invariant
                k <= n,
                n == before.len(),
                before == self.plans@,
                plans == map_values_of(before, plan_value()),
                distinct_keys(before),
                distinct_keys(kept@),
                self.inv(),
                origin.len() == kept@.len(),
                forall|j: int| 0 <= j < origin.len() ==> 0 <= (#[trigger] origin[j]) < k,
                forall|a: int, b: int|
                    0 <= a < b < origin.len() ==> (#[trigger] origin[a]) < (#[trigger] origin[b]),
                forall|j: int|
                    0 <= j < kept@.len() ==> (#[trigger] kept@[j]).0 == before[origin[j]].0
                        && kept@[j].1@ == before[origin[j]].1@,
                map_values_of(kept@, plan_value()) == retained_plans(
                    plans.subrange(0, k as int),
                    now,
                    grace_seconds,
                ),
                archived@.len() == archived_plans(
                    plans.subrange(0, k as int),
                    now,
                    grace_seconds,
                ).len(),
                forall|j: int|
                    0 <= j < archived@.len() ==> (#[trigger] archived@[j])@ == archived_plans(
                        plans.subrange(0, k as int),
                        now,
                        grace_seconds,
                    )[j],
            decreases n - k,
        {
            let plan = self.plans.value_at(k);
            let key = self.plans.key_at(k);
            let ghost grown = plans.subrange(0, k + 1);
            proof {
                assert(grown.drop_last() =~= plans.subrange(0, k as int));
                assert(grown.last() == plans[k as int]);
                assert(plans[k as int].1 == plan@);
                assert(plans[k as int].0 == key@);
            }
            if plan.is_due(now, grace_seconds) {
                archived.push(plan.clone());
            } else {
                let copy = plan.clone();
                let ghost held = kept@;
                proof {
                    lemma_index_of(held, key@);
                    if has_key(held, key@) {
                        let j = choose|j: int| 0 <= j < held.len() && (#[trigger] held[j]).0 == key@;
                        assert(before[origin[j]].0 == before[k as int].0);
                        assert(false);
                    }
                    lemma_map_values_of(held, plan_value(), key@, copy);
                    lemma_index_of(map_values_of(held, plan_value()), key@);
                }
                kept.insert(key.clone(), copy);
                proof {
                    origin = origin.push(k as int);
                    assert(kept@ == held.push((key@, copy)));
                    assert forall|j: int| 0 <= j < kept@.len() implies (#[trigger] kept@[j]).0
                        == before[origin[j]].0 && kept@[j].1@ == before[origin[j]].1@ by {
                        if j < held.len() {
                            assert(kept@[j] == held[j]);
                        }
                    }
                    assert(map_values_of(kept@, plan_value()) =~= retained_plans(
                        grown,
                        now,
                        grace_seconds,
                    ));
                }
            }
            k += 1;
        }
        proof {
            assert(plans.subrange(0, n as int) =~= plans);
            assert forall|i: int| 0 <= i < kept@.len() implies (#[trigger] kept@[i]).0
                == kept@[i].1.id@ && well_formed(kept@[i].1@) by {
                assert(before[origin[i]].0 == before[origin[i]].1.id@);
            }
            assert forall|a: int, b: int|
                0 <= a < kept@.len() && 0 <= b < kept@.len() && a != b && !is_terminal(
                    (#[trigger] kept@[a]).1.status,
                ) && !is_terminal((#[trigger] kept@[b]).1.status)
                implies kept@[a].1.threat_event.id@ != kept@[b].1.threat_event.id@ by {
                assert(kept@[a].1@ == before[origin[a]].1@);
                assert(kept@[b].1@ == before[origin[b]].1@);
                if a < b {
                    assert(origin[a] < origin[b]);
                } else {
                    assert(origin[b] < origin[a]);
                }
                assert(!is_terminal(before[origin[a]].1.status));
                assert(!is_terminal(before[origin[b]].1.status));
            }
        }
        core::mem::swap(&mut self.plans, &mut kept);
        self.plans.keys_are_distinct();
        proof {
            self.lemma_consistent();
        }
        archived
    }

    /// Takes a step on the plan `plan_id`.
    fn apply_step(&mut self, plan_id: &str, step: PlanStep) -> (r: Result<
        ResponsePlanStatus,
        AegisError,
    >)
        ensures
            consistent(old(self)@),
            consistent(final(self)@),
            same_place(old(self)@, final(self)@, plan_id@),
            step_taken(old(self)@, plan_id@, step, final(self)@, r),
    {
        proof {
            use_type_invariant(&*self);
            lemma_map_values_of(self.plans@, plan_value(), plan_id@, arbitrary());
        }
        let found = self.plans.position(plan_id);
        proof {
            self.lemma_consistent();
            lemma_index_of(self@.plans, plan_id@);
        }
        let gated = match step {
            PlanStep::Start(_) => true,
            PlanStep::Run(_) => true,
            _ => false,
        };
        if gated && !self.state.is_operational() {
            return Err(AegisError::NotOperational(self.state.clone()));
        }
        let i = match found {
            Some(i) => i,
            None => {
                return Err(AegisError::UnknownPlan);
            },
        };
        let ghost before = self.plans@;
        let mut plan = self.plans.value_at(i).clone();
        let was = plan.status;
        if let Err(e) = plan.step(step) {
            return Err(e);
        }
        let now = plan.status;
        let mut table: StringTable<ResponsePlan> = StringTable::new();
        core::mem::swap(&mut self.plans, &mut table);
        table.replace_value_at(i, plan);
        proof {
            match step {
                PlanStep::Start(at) => {
                    lemma_steps_keep_the_plan(before[i as int].1@, arbitrary(), at);
                },
                PlanStep::Report(report) => {
                    lemma_steps_keep_the_plan(before[i as int].1@, report, arbitrary());
                },
                PlanStep::Cancel(at) => {
                    lemma_steps_keep_the_plan(before[i as int].1@, arbitrary(), at);
                },
                PlanStep::CheckDeadline(at) => {
                    lemma_steps_keep_the_plan(before[i as int].1@, arbitrary(), at);
                },
                PlanStep::Run(at) => {
                    lemma_steps_keep_the_plan(before[i as int].1@, arbitrary(), at);
                },
            }
            assert forall|k: int| 0 <= k < table@.len() implies (#[trigger] table@[k]).0
                == table@[k].1.id@ && well_formed(table@[k].1@) by {
                if k != i {
                    assert(table@[k] == before[k]);
                }
            }
            assert forall|a: int, b: int|
                0 <= a < table@.len() && 0 <= b < table@.len() && a != b && !is_terminal(
                    (#[trigger] table@[a]).1.status,
                ) && !is_terminal((#[trigger] table@[b]).1.status)
                implies table@[a].1.threat_event.id@ != table@[b].1.threat_event.id@ by {
                if a != i {
                    assert(table@[a] == before[a]);
                }
                if b != i {
                    assert(table@[b] == before[b]);
                }
                assert(!is_terminal(before[a].1.status));
                assert(!is_terminal(before[b].1.status));
            }
            assert(map_values_of(table@, plan_value()) =~= map_values_of(
                before,
                plan_value(),
            ).update(i as int, (before[i as int].0, plan@)));
        }
        core::mem::swap(&mut self.plans, &mut table);
        self.stats = tally(self.stats, was, now);
        self.plans.keys_are_distinct();
        proof {
            self.lemma_consistent();
            assert forall|k: int| 0 <= k < old(self)@.plans.len() implies (
            #[trigger] old(self)@.plans[k]).0 == (#[trigger] self@.plans[k]).0 by {}
            lemma_index_of_keys(old(self)@.plans, self@.plans, plan_id@);
        }
        Ok(now)
    }

    /// Starts the plan `plan_id` at time `now`: `Created -> InProgress`.
    /// The executor then reports on each action with
    /// [`AegisOrchestrator::report_action`].
    pub fn begin_execution(&mut self, plan_id: &str, now: u64) -> (r: Result<
        ResponsePlanStatus,
        AegisError,
    >)
        ensures
            consistent(final(self)@),
            same_place(old(self)@, final(self)@, plan_id@),
            step_taken(old(self)@, plan_id@, PlanStep::Start(now), final(self)@, r),
    {
        self.apply_step(plan_id, PlanStep::Start(now))
    }

    /// Takes in the executor's report on the action of the plan `plan_id` that was due.
    pub fn report_action(&mut self, plan_id: &str, report: ActionReport) -> (r: Result<
        ResponsePlanStatus,
        AegisError,
    >)
        ensures
            consistent(final(self)@),
            same_place(old(self)@, final(self)@, plan_id@),
            step_taken(old(self)@, plan_id@, PlanStep::Report(report), final(self)@, r),
    {
        self.apply_step(plan_id, PlanStep::Report(report))
    }

    /// Looks at the clock for the plan `plan_id`, at time `now`.
    pub fn check_deadline(&mut self, plan_id: &str, now: u64) -> (r: Result<
        ResponsePlanStatus,
        AegisError,
    >)
        ensures
            consistent(final(self)@),
            same_place(old(self)@, final(self)@, plan_id@),
            step_taken(old(self)@, plan_id@, PlanStep::CheckDeadline(now), final(self)@, r),
    {
        self.apply_step(plan_id, PlanStep::CheckDeadline(now))
    }

    /// Cancels the plan `plan_id` at time `now`.
    pub fn cancel_at(&mut self, plan_id: &str, now: u64) -> (r: Result<(), AegisError>)
        ensures
            consistent(final(self)@),
            same_place(old(self)@, final(self)@, plan_id@),
            step_done(old(self)@, plan_id@, PlanStep::Cancel(now), final(self)@, r),
    {
        match self.apply_step(plan_id, PlanStep::Cancel(now)) {
            Ok(_) => Ok(()),
            Err(e) => Err(e),
        }
    }

    /// Cancels the plan `plan_id`. The time is read from the clock.
    pub fn cancel(&mut self, plan_id: &str) -> (r: Result<(), AegisError>)
        ensures
            consistent(final(self)@),
            same_place(old(self)@, final(self)@, plan_id@),
            exists|now: u64| #[trigger]
                step_done(old(self)@, plan_id@, PlanStep::Cancel(now), final(self)@, r),
    {
        let now = clock_micros() / 1_000_000;
        let r = self.cancel_at(plan_id, now);
        assert(step_done(old(self)@, plan_id@, PlanStep::Cancel(now), self@, r));
        r
    }

    /// Executes the plan `plan_id` at time `now` with the built-in
    /// executor, under which every action succeeds at once:
    /// `Created -> InProgress -> Completed`.
    pub fn execute_at(&mut self, plan_id: &str, now: u64) -> (r: Result<(), AegisError>)
        ensures
            consistent(final(self)@),
            same_place(old(self)@, final(self)@, plan_id@),
            step_done(old(self)@, plan_id@, PlanStep::Run(now), final(self)@, r),
    {
        match self.apply_step(plan_id, PlanStep::Run(now)) {
            Ok(_) => Ok(()),
            Err(e) => Err(e),
        }
    }

    /// Executes the plan `plan_id` with the built-in executor. The time is
    /// read from the clock.
    pub fn execute(&mut self, plan_id: &str) -> (r: Result<(), AegisError>)
        ensures
            consistent(final(self)@),
            same_place(old(self)@, final(self)@, plan_id@),
            exists|now: u64| #[trigger]
                step_done(old(self)@, plan_id@, PlanStep::Run(now), final(self)@, r),
    {
        let now = clock_micros() / 1_000_000;
        let r = self.execute_at(plan_id, now);
        assert(step_done(old(self)@, plan_id@, PlanStep::Run(now), self@, r));
        r
    }

    /// Executes the plan `plan_id` with what an executor reported on its
    /// actions, in order: the plan is started at time `now`, and each
    /// report is taken in while the plan is in progress. An action that
    /// fails ends the plan, and no later report is looked at. The caller is
    /// told the status that the plan has reached; a failed action and a
    /// timeout come as errors. A plan whose reports run out before its
    /// actions stays in progress.
    pub fn execute_with(&mut self, plan_id: &str, now: u64, reports: &[ActionReport]) -> (r:
        Result<ResponsePlanStatus, AegisError>)
        ensures
            consistent(final(self)@),
            same_place(old(self)@, final(self)@, plan_id@),
            match execution_outcome(old(self)@, plan_id@, now, reports@) {
                Ok(next) => final(self)@ == next && r == verdict(
                    next.plans[index_of(old(self)@.plans, plan_id@)].1.status,
                ),
                Err(e) => r == Err::<ResponsePlanStatus, AegisError>(e) && final(self)@ == old(
                    self)@,
            },
    {
        let mut status = match self.apply_step(plan_id, PlanStep::Start(now)) {
            Ok(status) => status,
            Err(e) => {
                return Err(e);
            },
        };
        let ghost begun = self@;
        let ghost at = index_of(old(self)@.plans, plan_id@);
        let mut i: usize = 0;
        assert(reports@.subrange(0, reports@.len() as int) =~= reports@);
        while i < reports.len()
            invariant
                i <= reports.len(),
                consistent(self@),
                same_place(old(self)@, self@, plan_id@),
                has_key(self@.plans, plan_id@),
                at == index_of(old(self)@.plans, plan_id@),
                status == self@.plans[at].1.status,
                after_reports(begun, plan_id@, reports@) == after_reports(
                    self@,
                    plan_id@,
                    reports@.subrange(i as int, reports@.len() as int),
                ),
            decreases reports.len() - i,
        {
            let ghost rest = reports@.subrange(i as int, reports@.len() as int);
            let ghost before = self@;
            proof {
                assert(rest[0] == reports@[i as int]);
                assert(rest.subrange(1, rest.len() as int) =~= reports@.subrange(
                    i + 1,
                    reports@.len() as int,
                ));
            }
            match self.apply_step(plan_id, PlanStep::Report(reports[i])) {
                Ok(next) => {
                    status = next;
                    i += 1;
                },
                Err(_) => {
                    proof {
                        assert(after_reports(before, plan_id@, rest) == before);
                        assert(reports@.subrange(
                            reports@.len() as int,
                            reports@.len() as int,
                        ).len() == 0);
                    }
                    i = reports.len();
                },
            }
        }
        proof {
            assert(reports@.subrange(i as int, reports@.len() as int).len() == 0);
        }
        match status {
            ResponsePlanStatus::Failed(failure) => Err(AegisError::ActionFailed(failure)),
            ResponsePlanStatus::TimedOut => Err(AegisError::TimedOut),
            other => Ok(other),
        }
    }

    /// Executes the plan that `plan` is a copy of at time `now`, as
    /// [`AegisOrchestrator::execute_at`] does, and brings the copy up to date.
    pub fn execute_response_plan_at(&mut self, plan: &mut ResponsePlan, now: u64) -> (r: Result<
        (),
        AegisError,
    >)
        ensures
            consistent(final(self)@),
            same_place(old(self)@, final(self)@, old(plan).id@),
            plan_executed(old(self)@, old(plan)@, now, final(self)@, final(plan)@, r),
    {
        let _ = self.plan_count();
        proof {
            lemma_index_of(self@.plans, plan.id@);
        }
        if !self.state.is_operational() {
            return Err(AegisError::NotOperational(self.state.clone()));
        }
        match plan.status {
            ResponsePlanStatus::Created => {},
            other => {
                return Err(AegisError::InvalidTransition(other));
            },
        }
        match self.apply_step(plan.id.as_str(), PlanStep::Run(now)) {
            Ok(_) => {
                let held = self.get_plan(plan.id.as_str());
                proof {
                    let before = old(self)@.plans;
                    let after = self@.plans;
                    lemma_index_of(before, plan.id@);
                    assert forall|k: int| 0 <= k < before.len() implies (#[trigger] before[k]).0
                        == (#[trigger] after[k]).0 by {}
                    lemma_index_of_keys(before, after, plan.id@);
                }
                match held {
                    Some(kept) => {
                        plan.status = kept.status;
                        plan.completed_actions = kept.completed_actions;
                        plan.started_at = kept.started_at;
                        plan.finished_at = kept.finished_at;
                    },
                    None => {},
                }
                Ok(())
            },
            Err(e) => Err(e),
        }
    }

    /// Executes the plan that `plan` is a copy of, and brings the copy up
    /// to date. The time is read from the clock.
    pub fn execute_response_plan(&mut self, plan: &mut ResponsePlan) -> (r: Result<(), AegisError>)
        ensures
            consistent(final(self)@),
            same_place(old(self)@, final(self)@, old(plan).id@),
            exists|now: u64| #[trigger]
                plan_executed(old(self)@, old(plan)@, now, final(self)@, final(plan)@, r),
    {
        let now = clock_micros() / 1_000_000;
        let r = self.execute_response_plan_at(plan, now);
        assert(plan_executed(old(self)@, old(plan)@, now, self@, plan@, r));
        r
    }
}

} // verus!
