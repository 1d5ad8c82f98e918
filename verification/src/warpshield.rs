//! Deception environments: decoy systems that attackers are redirected to,
//! with a record of what they do there.

use vstd::prelude::*;
use crate::fixed::{bump, bumped, Ppm};
use crate::host::{clock_micros, random_octet, random_uuid, whole_seconds, whole_seconds_of, UUID_TEXT_LEN};
use crate::table::{
    distinct_keys, has_key, index_of, lemma_index_of, lemma_map_values_of, lookup, map_values_of,
    put, text_entries, text_of, without, Metadata, StringTable,
};
use crate::text::{copy_texts, debug_quote, debug_quoted, decimal, decimal_digits, join, texts};

verus! {

/// Settings of the deception system.
#[derive(Debug, Clone, Copy, PartialEq, Eq, Structural)]
pub struct WarpShieldConfig {
    /// Largest number of environments that may exist at once.
    pub max_virtual_environments: usize,
    /// How faithful an environment is to a real system.
    pub environment_fidelity: Ppm,
    /// Longest session in an environment, in seconds.
    pub max_session_duration: u64,
    pub enable_behavioral_analysis: bool,
    pub enable_signature_generation: bool,
    pub enable_adaptive_learning: bool,
    /// 0 = none, 1 = errors, 2 = warnings, 3 = info, 4 = debug.
    pub log_level: u8,
    /// Share of the system's resources that all environments may take.
    pub max_resource_allocation: Ppm,
}

impl Default for WarpShieldConfig {
    fn default() -> (r: Self)
        ensures
            r == (WarpShieldConfig {
                max_virtual_environments: 50,
                environment_fidelity: 950_000,
                max_session_duration: 3600,
                enable_behavioral_analysis: true,
                enable_signature_generation: true,
                enable_adaptive_learning: true,
                log_level: 3,
                max_resource_allocation: 300_000,
            }),
    {
        WarpShieldConfig {
            max_virtual_environments: 50,
            environment_fidelity: 950_000,
            max_session_duration: 3600,
            enable_behavioral_analysis: true,
            enable_signature_generation: true,
            enable_adaptive_learning: true,
            log_level: 3,
            max_resource_allocation: 300_000,
        }
    }
}

/// What kind of system an environment imitates.
#[derive(Debug, PartialEq)]
pub enum VirtualEnvironmentType {
    WebServer,
    Database,
    FileServer,
    DomainController,
    Workstation,
    IoT,
    Cloud,
    Industrial,
    Custom(String),
}

impl Clone for VirtualEnvironmentType {
    fn clone(&self) -> (r: Self)
        ensures
            r == *self,
    {
        match self {
            VirtualEnvironmentType::WebServer => VirtualEnvironmentType::WebServer,
            VirtualEnvironmentType::Database => VirtualEnvironmentType::Database,
            VirtualEnvironmentType::FileServer => VirtualEnvironmentType::FileServer,
            VirtualEnvironmentType::DomainController => VirtualEnvironmentType::DomainController,
            VirtualEnvironmentType::Workstation => VirtualEnvironmentType::Workstation,
            VirtualEnvironmentType::IoT => VirtualEnvironmentType::IoT,
            VirtualEnvironmentType::Cloud => VirtualEnvironmentType::Cloud,
            VirtualEnvironmentType::Industrial => VirtualEnvironmentType::Industrial,
            VirtualEnvironmentType::Custom(name) => VirtualEnvironmentType::Custom(name.clone()),
        }
    }
}

/// Where an environment stands in its life.
#[derive(Debug, PartialEq)]
pub enum VirtualEnvironmentState {
    Initializing,
    Ready,
    Active,
    Analyzing,
    Resetting,
    Error(String),
    Terminated,
}

impl Clone for VirtualEnvironmentState {
    fn clone(&self) -> (r: Self)
        ensures
            r == *self,
    {
        match self {
            VirtualEnvironmentState::Initializing => VirtualEnvironmentState::Initializing,
            VirtualEnvironmentState::Ready => VirtualEnvironmentState::Ready,
            VirtualEnvironmentState::Active => VirtualEnvironmentState::Active,
            VirtualEnvironmentState::Analyzing => VirtualEnvironmentState::Analyzing,
            VirtualEnvironmentState::Resetting => VirtualEnvironmentState::Resetting,
            VirtualEnvironmentState::Error(detail) => VirtualEnvironmentState::Error(detail.clone()),
            VirtualEnvironmentState::Terminated => VirtualEnvironmentState::Terminated,
        }
    }
}

/// A decoy system.
#[derive(Debug)]
pub struct VirtualEnvironment {
    pub id: String,
    pub env_type: VirtualEnvironmentType,
    pub state: VirtualEnvironmentState,
    /// Seconds since the Unix epoch.
    pub created_at: u64,
    /// Seconds since the Unix epoch.
    pub last_activity: u64,
    pub virtual_ip: String,
    pub exposed_services: Vec<String>,
    pub simulated_vulnerabilities: Vec<String>,
    /// What is known of the attacker held in the environment.
    pub attacker_data: Metadata,
    /// Share of the system's resources given to the environment.
    pub resource_allocation: Ppm,
}

/// The value of a [`VirtualEnvironment`].
pub struct VirtualEnvironmentView {
    pub id: Seq<char>,
    pub env_type: VirtualEnvironmentType,
    pub state: VirtualEnvironmentState,
    pub created_at: u64,
    pub last_activity: u64,
    pub virtual_ip: Seq<char>,
    pub exposed_services: Seq<Seq<char>>,
    pub simulated_vulnerabilities: Seq<Seq<char>>,
    pub attacker_data: Seq<(Seq<char>, Seq<char>)>,
    pub resource_allocation: Ppm,
}

impl View for VirtualEnvironment {
    type V = VirtualEnvironmentView;

    open spec fn view(&self) -> VirtualEnvironmentView {
        VirtualEnvironmentView {
            id: self.id@,
            env_type: self.env_type,
            state: self.state,
            created_at: self.created_at,
            last_activity: self.last_activity,
            virtual_ip: self.virtual_ip@,
            exposed_services: texts(self.exposed_services@),
            simulated_vulnerabilities: texts(self.simulated_vulnerabilities@),
            attacker_data: text_entries(self.attacker_data@),
            resource_allocation: self.resource_allocation,
        }
    }
}

impl Clone for VirtualEnvironment {
    fn clone(&self) -> (r: Self)
        ensures
            r@ == self@,
    {
        VirtualEnvironment {
            id: self.id.clone(),
            env_type: self.env_type.clone(),
            state: self.state.clone(),
            created_at: self.created_at,
            last_activity: self.last_activity,
            virtual_ip: self.virtual_ip.clone(),
            exposed_services: copy_texts(&self.exposed_services),
            simulated_vulnerabilities: copy_texts(&self.simulated_vulnerabilities),
            attacker_data: self.attacker_data.clone(),
            resource_allocation: self.resource_allocation,
        }
    }
}

/// Something an attacker did inside an environment.
#[derive(Debug)]
pub struct AttackEvent {
    pub id: String,
    pub environment_id: String,
    pub attack_type: String,
    pub source: String,
    /// Seconds since the Unix epoch.
    pub timestamp: u64,
    pub data: Metadata,
    pub severity: Ppm,
}

/// The value of an [`AttackEvent`].
pub struct AttackEventView {
    pub id: Seq<char>,
    pub environment_id: Seq<char>,
    pub attack_type: Seq<char>,
    pub source: Seq<char>,
    pub timestamp: u64,
    pub data: Seq<(Seq<char>, Seq<char>)>,
    pub severity: Ppm,
}

impl View for AttackEvent {
    type V = AttackEventView;

    open spec fn view(&self) -> AttackEventView {
        AttackEventView {
            id: self.id@,
            environment_id: self.environment_id@,
            attack_type: self.attack_type@,
            source: self.source@,
            timestamp: self.timestamp,
            data: text_entries(self.data@),
            severity: self.severity,
        }
    }
}

/// A pattern by which an attack can be recognised again.
#[derive(Debug)]
pub struct AttackSignature {
    pub id: String,
    pub name: String,
    pub description: String,
    pub patterns: Vec<String>,
    pub confidence: Ppm,
    /// Seconds since the Unix epoch.
    pub created_at: u64,
    pub related_attack_events: Vec<String>,
    pub recommended_countermeasures: Vec<String>,
}

/// The value of an [`AttackSignature`].
pub struct AttackSignatureView {
    pub id: Seq<char>,
    pub name: Seq<char>,
    pub description: Seq<char>,
    pub patterns: Seq<Seq<char>>,
    pub confidence: Ppm,
    pub created_at: u64,
    pub related_attack_events: Seq<Seq<char>>,
    pub recommended_countermeasures: Seq<Seq<char>>,
}

impl View for AttackSignature {
    type V = AttackSignatureView;

    open spec fn view(&self) -> AttackSignatureView {
        AttackSignatureView {
            id: self.id@,
            name: self.name@,
            description: self.description@,
            patterns: texts(self.patterns@),
            confidence: self.confidence,
            created_at: self.created_at,
            related_attack_events: texts(self.related_attack_events@),
            recommended_countermeasures: texts(self.recommended_countermeasures@),
        }
    }
}

/// Counters of the deception system.
#[derive(Debug, Clone, Copy, PartialEq, Eq, Structural)]
pub struct WarpShieldStats {
    pub total_environments_created: u64,
    pub active_environments: usize,
    pub total_attacks_detected: u64,
    pub signatures_generated: u64,
    /// Mean time of an analysis, in seconds.
    pub avg_analysis_time: u64,
    pub attack_detection_rate: Ppm,
    pub resource_utilization: Ppm,
    pub uptime_seconds: u64,
}

/// Where the deception system stands.
#[derive(Debug, PartialEq)]
pub enum WarpShieldState {
    Initializing,
    Operational,
    Degraded,
    Maintenance,
    Error(String),
    Shutdown,
}

impl Clone for WarpShieldState {
    fn clone(&self) -> (r: Self)
        ensures
            r == *self,
    {
        match self {
            WarpShieldState::Initializing => WarpShieldState::Initializing,
            WarpShieldState::Operational => WarpShieldState::Operational,
            WarpShieldState::Degraded => WarpShieldState::Degraded,
            WarpShieldState::Maintenance => WarpShieldState::Maintenance,
            WarpShieldState::Error(detail) => WarpShieldState::Error(detail.clone()),
            WarpShieldState::Shutdown => WarpShieldState::Shutdown,
        }
    }
}

/// Why the deception system refused a request.
#[derive(Debug, PartialEq)]
pub enum WarpShieldError {
    /// The system is in a state that does not allow the request; the state is given.
    NotOperational(WarpShieldState),
    /// The limit on the number of environments, which is given, is reached.
    CapacityExceeded(usize),
    /// No environment has the identifier that was named.
    EnvironmentNotFound,
    /// The environment is not `Ready`; its state is given.
    EnvironmentNotReady(VirtualEnvironmentState),
    /// The environment is not `Active`; its state is given.
    EnvironmentNotActive(VirtualEnvironmentState),
    /// Signature generation is switched off.
    SignatureGenerationDisabled,
}

/// The services that an environment of a kind exposes.
pub open spec fn services_for(env_type: VirtualEnvironmentType) -> Seq<Seq<char>> {
    match env_type {
        VirtualEnvironmentType::WebServer => seq!["http"@, "https"@, "ssh"@],
        VirtualEnvironmentType::Database => seq!["mysql"@, "postgresql"@, "ssh"@],
        _ => seq!["ssh"@, "http"@],
    }
}

/// The vulnerabilities that an environment of a kind pretends to have.
pub open spec fn vulnerabilities_for(env_type: VirtualEnvironmentType) -> Seq<Seq<char>> {
    match env_type {
        VirtualEnvironmentType::WebServer => seq!["CVE-2021-44228"@, "CVE-2021-26855"@],
        VirtualEnvironmentType::Database => seq!["CVE-2021-3506"@, "CVE-2021-2307"@],
        _ => seq!["CVE-2021-28041"@],
    }
}

/// The address `10.0.a.b`.
pub open spec fn virtual_ip_text(a: u8, b: u8) -> Seq<char> {
    "10.0."@ + decimal_digits(a as nat) + "."@ + decimal_digits(b as nat)
}

/// The share of resources that a new environment gets.
pub const DEFAULT_RESOURCE_ALLOCATION: u32 = 50_000;

/// The severity given to every recorded attack.
pub const DEFAULT_ATTACK_SEVERITY: u32 = 700_000;

/// The confidence given to every generated signature.
pub const DEFAULT_SIGNATURE_CONFIDENCE: u32 = 850_000;

/// The environment that is set up for a kind of system: ready, with the
/// services and vulnerabilities of its kind and nothing known of an attacker.
pub open spec fn provisioned(
    env_type: VirtualEnvironmentType,
    uuid: Seq<char>,
    a: u8,
    b: u8,
    now: u64,
) -> VirtualEnvironmentView {
    VirtualEnvironmentView {
        id: "env-"@ + uuid,
        env_type,
        state: VirtualEnvironmentState::Ready,
        created_at: now,
        last_activity: now,
        virtual_ip: virtual_ip_text(a, b),
        exposed_services: services_for(env_type),
        simulated_vulnerabilities: vulnerabilities_for(env_type),
        attacker_data: Seq::empty(),
        resource_allocation: DEFAULT_RESOURCE_ALLOCATION,
    }
}

/// An environment after an attacker from `source` has been let in at time `now`.
pub open spec fn activated(env: VirtualEnvironmentView, source: Seq<char>, now: u64)
    -> VirtualEnvironmentView {
    VirtualEnvironmentView {
        state: VirtualEnvironmentState::Active,
        last_activity: now,
        attacker_data: put(
            put(env.attacker_data, "source"@, source),
            "activation_time"@,
            decimal_digits(now as nat),
        ),
        ..env
    }
}

/// The source recorded for the attacker in an environment, empty where none is.
pub open spec fn attacker_source(env: VirtualEnvironmentView) -> Seq<char> {
    match lookup(env.attacker_data, "source"@) {
        Some(source) => source,
        None => Seq::empty(),
    }
}

/// The name of a kind of environment as its `Debug` form writes it.
pub open spec fn kind_name(env_type: VirtualEnvironmentType) -> Seq<char> {
    match env_type {
        VirtualEnvironmentType::WebServer => "WebServer"@,
        VirtualEnvironmentType::Database => "Database"@,
        VirtualEnvironmentType::FileServer => "FileServer"@,
        VirtualEnvironmentType::DomainController => "DomainController"@,
        VirtualEnvironmentType::Workstation => "Workstation"@,
        VirtualEnvironmentType::IoT => "IoT"@,
        VirtualEnvironmentType::Cloud => "Cloud"@,
        VirtualEnvironmentType::Industrial => "Industrial"@,
        VirtualEnvironmentType::Custom(name) => "Custom("@ + debug_quoted(name@) + ")"@,
    }
}

/// The attack recorded in an environment.
pub open spec fn recorded_attack(
    env: VirtualEnvironmentView,
    uuid: Seq<char>,
    attack_type: Seq<char>,
    data: Seq<(Seq<char>, Seq<char>)>,
    now: u64,
) -> AttackEventView {
    AttackEventView {
        id: "attack-"@ + uuid,
        environment_id: env.id,
        attack_type,
        source: attacker_source(env),
        timestamp: now,
        data,
        severity: DEFAULT_ATTACK_SEVERITY,
    }
}

/// The signature drawn from an environment.
pub open spec fn drawn_signature(
    env: VirtualEnvironmentView,
    uuid: Seq<char>,
    name: Seq<char>,
    description: Seq<char>,
    now: u64,
) -> AttackSignatureView {
    AttackSignatureView {
        id: "sig-"@ + uuid,
        name,
        description,
        patterns: seq!["source:"@ + attacker_source(env), "env_type:"@ + kind_name(env.env_type)],
        confidence: DEFAULT_SIGNATURE_CONFIDENCE,
        created_at: now,
        related_attack_events: Seq::empty(),
        recommended_countermeasures: seq!["block_ip"@, "increase_monitoring"@],
    }
}

/// The value of a [`WarpShield`]: its settings, state and counters, and its
/// environments, each under its identifier, in the order they were created.
pub struct WarpShieldView {
    pub config: WarpShieldConfig,
    pub state: WarpShieldState,
    pub stats: WarpShieldStats,
    pub environments: Seq<(Seq<char>, VirtualEnvironmentView)>,
}

/// What holds of every deception system: no identifier occurs twice, and
/// each environment stands under its own identifier.
pub open spec fn consistent(v: WarpShieldView) -> bool {
    &&& distinct_keys(v.environments)
    &&& forall|i: int|
        0 <= i < v.environments.len() ==> (#[trigger] v.environments[i]).0
            == v.environments[i].1.id
}

/// Why a new environment cannot be created, if it cannot.
pub open spec fn creation_refusal(v: WarpShieldView) -> Option<WarpShieldError> {
    if !(v.state is Operational) {
        Some(WarpShieldError::NotOperational(v.state))
    } else if v.environments.len() >= v.config.max_virtual_environments {
        Some(WarpShieldError::CapacityExceeded(v.config.max_virtual_environments))
    } else {
        None
    }
}

/// The system after `env` has been created in it.
pub open spec fn with_environment(v: WarpShieldView, env: VirtualEnvironmentView)
    -> WarpShieldView {
    let environments = put(v.environments, env.id, env);
    WarpShieldView {
        environments,
        stats: WarpShieldStats {
            total_environments_created: bumped(v.stats.total_environments_created),
            active_environments: environments.len() as usize,
            ..v.stats
        },
        ..v
    }
}

/// Why the environment `env_id` cannot be activated, if it cannot.
pub open spec fn activation_refusal(v: WarpShieldView, env_id: Seq<char>) -> Option<
    WarpShieldError,
> {
    if !(v.state is Operational) {
        Some(WarpShieldError::NotOperational(v.state))
    } else if !has_key(v.environments, env_id) {
        Some(WarpShieldError::EnvironmentNotFound)
    } else if !(v.environments[index_of(v.environments, env_id)].1.state is Ready) {
        Some(
            WarpShieldError::EnvironmentNotReady(
                v.environments[index_of(v.environments, env_id)].1.state,
            ),
        )
    } else {
        None
    }
}

/// Why no attack can be recorded in the environment `env_id`, if none can.
pub open spec fn recording_refusal(v: WarpShieldView, env_id: Seq<char>) -> Option<
    WarpShieldError,
> {
    if !(v.state is Operational) {
        Some(WarpShieldError::NotOperational(v.state))
    } else if !has_key(v.environments, env_id) {
        Some(WarpShieldError::EnvironmentNotFound)
    } else if !(v.environments[index_of(v.environments, env_id)].1.state is Active) {
        Some(
            WarpShieldError::EnvironmentNotActive(
                v.environments[index_of(v.environments, env_id)].1.state,
            ),
        )
    } else {
        None
    }
}

/// Why no signature can be drawn from the environment `env_id`, if none can.
pub open spec fn signature_refusal(v: WarpShieldView, env_id: Seq<char>) -> Option<
    WarpShieldError,
> {
    if !v.config.enable_signature_generation {
        Some(WarpShieldError::SignatureGenerationDisabled)
    } else if !(v.state is Operational) {
        Some(WarpShieldError::NotOperational(v.state))
    } else if !has_key(v.environments, env_id) {
        Some(WarpShieldError::EnvironmentNotFound)
    } else {
        None
    }
}

/// Why the environment `env_id` cannot be terminated, if it cannot.
pub open spec fn termination_refusal(v: WarpShieldView, env_id: Seq<char>) -> Option<
    WarpShieldError,
> {
    if !(v.state is Operational || v.state is Degraded) {
        Some(WarpShieldError::NotOperational(v.state))
    } else if !has_key(v.environments, env_id) {
        Some(WarpShieldError::EnvironmentNotFound)
    } else {
        None
    }
}

/// The system with `env` in place of the environment at position `i`.
pub open spec fn with_environment_at(v: WarpShieldView, i: int, env: VirtualEnvironmentView)
    -> WarpShieldView {
    WarpShieldView { environments: v.environments.update(i, (v.environments[i].0, env)), ..v }
}

/// The deception system.
pub struct WarpShield {
    config: WarpShieldConfig,
    state: WarpShieldState,
    stats: WarpShieldStats,
    environments: StringTable<VirtualEnvironment>,
}

/// The function that takes an environment to its value.
pub open spec fn environment_value() -> spec_fn(VirtualEnvironment) -> VirtualEnvironmentView {
    |e: VirtualEnvironment| e@
}

impl View for WarpShield {
    type V = WarpShieldView;

    closed spec fn view(&self) -> WarpShieldView {
        WarpShieldView {
            config: self.config,
            state: self.state,
            stats: self.stats,
            environments: map_values_of(self.environments@, environment_value()),
        }
    }
}

/// The counters of a system in which nothing has happened yet.
pub open spec fn initial_stats() -> WarpShieldStats {
    WarpShieldStats {
        total_environments_created: 0,
        active_environments: 0,
        total_attacks_detected: 0,
        signatures_generated: 0,
        avg_analysis_time: 0,
        attack_detection_rate: 0,
        resource_utilization: 0,
        uptime_seconds: 0,
    }
}

/// Whether `post` and `env` are what creating an environment of kind
/// `env_type` in `pre` gives, for the identifier, address bytes and time given.
pub open spec fn created_with(
    pre: WarpShieldView,
    env_type: VirtualEnvironmentType,
    uuid: Seq<char>,
    a: u8,
    b: u8,
    now: u64,
    post: WarpShieldView,
    env: VirtualEnvironmentView,
) -> bool {
    &&& uuid.len() == UUID_TEXT_LEN
    &&& env == provisioned(env_type, uuid, a, b, now)
    &&& post == with_environment(pre, env)
}

/// The system after an attack has been recorded at time `now` in the environment at position `i`.
pub open spec fn after_recording(v: WarpShieldView, i: int, now: u64) -> WarpShieldView {
    WarpShieldView {
        environments: v.environments.update(
            i,
            (
                v.environments[i].0,
                VirtualEnvironmentView { last_activity: now, ..v.environments[i].1 },
            ),
        ),
        stats: WarpShieldStats {
            total_attacks_detected: bumped(v.stats.total_attacks_detected),
            ..v.stats
        },
        ..v
    }
}

/// The system after one more signature has been drawn.
pub open spec fn after_signature(v: WarpShieldView) -> WarpShieldView {
    WarpShieldView {
        stats: WarpShieldStats {
            signatures_generated: bumped(v.stats.signatures_generated),
            ..v.stats
        },
        ..v
    }
}

/// The system after the environment `env_id` has been removed.
pub open spec fn after_termination(v: WarpShieldView, env_id: Seq<char>) -> WarpShieldView {
    let environments = without(v.environments, env_id);
    WarpShieldView {
        environments,
        stats: WarpShieldStats { active_environments: environments.len() as usize, ..v.stats },
        ..v
    }
}

/// The services that an environment of a kind exposes.
fn services_list(env_type: &VirtualEnvironmentType) -> (r: Vec<String>)
    ensures
        texts(r@) == services_for(*env_type),
{
    let mut list: Vec<String> = Vec::new();
    match env_type {
        VirtualEnvironmentType::WebServer => {
            list.push("http".to_owned());
            list.push("https".to_owned());
            list.push("ssh".to_owned());
        },
        VirtualEnvironmentType::Database => {
            list.push("mysql".to_owned());
            list.push("postgresql".to_owned());
            list.push("ssh".to_owned());
        },
        _ => {
            list.push("ssh".to_owned());
            list.push("http".to_owned());
        },
    }
    assert(texts(list@) =~= services_for(*env_type));
    list
}

/// The vulnerabilities that an environment of a kind pretends to have.
fn vulnerabilities_list(env_type: &VirtualEnvironmentType) -> (r: Vec<String>)
    ensures
        texts(r@) == vulnerabilities_for(*env_type),
{
    let mut list: Vec<String> = Vec::new();
    match env_type {
        VirtualEnvironmentType::WebServer => {
            list.push("CVE-2021-44228".to_owned());
            list.push("CVE-2021-26855".to_owned());
        },
        VirtualEnvironmentType::Database => {
            list.push("CVE-2021-3506".to_owned());
            list.push("CVE-2021-2307".to_owned());
        },
        _ => {
            list.push("CVE-2021-28041".to_owned());
        },
    }
    assert(texts(list@) =~= vulnerabilities_for(*env_type));
    list
}

/// The address `10.0.a.b` as text.
pub fn virtual_ip(a: u8, b: u8) -> (r: String)
    ensures
        r@ == virtual_ip_text(a, b),
{
    let first = decimal(a as u64);
    let second = decimal(b as u64);
    let head = join("10.0.", first.as_str());
    let dotted = head.concat(".");
    dotted.concat(second.as_str())
}

/// Writes the name of a kind of environment as its `Debug` form does.
pub fn kind_text(env_type: &VirtualEnvironmentType) -> (r: String)
    ensures
        r@ == kind_name(*env_type),
{
    match env_type {
        VirtualEnvironmentType::WebServer => "WebServer".to_owned(),
        VirtualEnvironmentType::Database => "Database".to_owned(),
        VirtualEnvironmentType::FileServer => "FileServer".to_owned(),
        VirtualEnvironmentType::DomainController => "DomainController".to_owned(),
        VirtualEnvironmentType::Workstation => "Workstation".to_owned(),
        VirtualEnvironmentType::IoT => "IoT".to_owned(),
        VirtualEnvironmentType::Cloud => "Cloud".to_owned(),
        VirtualEnvironmentType::Industrial => "Industrial".to_owned(),
        VirtualEnvironmentType::Custom(name) => {
            let quoted = debug_quote(name.as_str());
            join("Custom(", quoted.as_str()).concat(")")
        },
    }
}

/// Sets up an environment of the kind given, ready for use.
pub fn provision(env_type: VirtualEnvironmentType, uuid: &str, a: u8, b: u8, now: u64) -> (r:
    VirtualEnvironment)
    ensures
        r@ == provisioned(env_type, uuid@, a, b, now),
{
    let exposed_services = services_list(&env_type);
    let simulated_vulnerabilities = vulnerabilities_list(&env_type);
    let attacker_data = Metadata::new();
    assert(text_entries(attacker_data@) =~= Seq::<(Seq<char>, Seq<char>)>::empty());
    VirtualEnvironment {
        id: join("env-", uuid),
        env_type,
        state: VirtualEnvironmentState::Ready,
        created_at: now,
        last_activity: now,
        virtual_ip: virtual_ip(a, b),
        exposed_services,
        simulated_vulnerabilities,
        attacker_data,
        resource_allocation: DEFAULT_RESOURCE_ALLOCATION,
    }
}

/// The present time in whole seconds since the Unix epoch.
fn now_seconds() -> (r: u64)
    ensures
        exists|micros: u64| r == #[trigger] whole_seconds_of(micros),
        r <= u64::MAX / 1_000_000,
{
    let micros = clock_micros();
    let r = whole_seconds(micros);
    assert(r == whole_seconds_of(micros));
    r
}

impl WarpShieldState {
    /// Whether the system takes requests.
    pub fn is_operational(&self) -> (r: bool)
        ensures
            r == (*self is Operational),
    {
        match self {
            WarpShieldState::Operational => true,
            _ => false,
        }
    }
}

impl WarpShield {
    #[verifier::type_invariant]
    spec fn inv(&self) -> bool {
        forall|i: int|
            0 <= i < self.environments@.len() ==> (#[trigger] self.environments@[i]).0
                == self.environments@[i].1.id@
    }

    /// A system with the settings given, not yet initialised, without environments.
    pub fn new(config: WarpShieldConfig) -> (r: Self)
        ensures
            r@ == (WarpShieldView {
                config,
                state: WarpShieldState::Initializing,
                stats: initial_stats(),
                environments: Seq::empty(),
            }),
    {
        let r = WarpShield {
            config,
            state: WarpShieldState::Initializing,
            stats: WarpShieldStats {
                total_environments_created: 0,
                active_environments: 0,
                total_attacks_detected: 0,
                signatures_generated: 0,
                avg_analysis_time: 0,
                attack_detection_rate: 0,
                resource_utilization: 0,
                uptime_seconds: 0,
            },
            environments: StringTable::new(),
        };
        assert(r@.environments =~= Seq::<(Seq<char>, VirtualEnvironmentView)>::empty());
        r
    }

    /// Makes the system operational.
    pub fn initialize(&mut self) -> (r: Result<(), WarpShieldError>)
        ensures
            r is Ok,
            final(self)@ == (WarpShieldView {
                state: WarpShieldState::Operational,
                ..old(self)@
            }),
    {
        proof {
            use_type_invariant(&*self);
        }
        self.state = WarpShieldState::Operational;
        Ok(())
    }

    /// Shuts the system down.
    pub fn shutdown(&mut self) -> (r: Result<(), WarpShieldError>)
        ensures
            r is Ok,
            final(self)@ == (WarpShieldView { state: WarpShieldState::Shutdown, ..old(self)@ }),
    {
        proof {
            use_type_invariant(&*self);
        }
        self.state = WarpShieldState::Shutdown;
        Ok(())
    }

    /// Puts the system in the state given.
    pub fn set_state(&mut self, state: WarpShieldState)
        ensures
            final(self)@ == (WarpShieldView { state, ..old(self)@ }),
    {
        proof {
            use_type_invariant(&*self);
        }
        self.state = state;
    }

    /// The state of the system.
    pub fn get_state(&self) -> (r: WarpShieldState)
        ensures
            r == self@.state,
    {
        self.state.clone()
    }

    /// The counters of the system.
    pub fn get_stats(&self) -> (r: WarpShieldStats)
        ensures
            r == self@.stats,
    {
        self.stats
    }

    /// The environments, in the order they were created.
    pub fn get_environments(&self) -> (r: Vec<VirtualEnvironment>)
        ensures
            consistent(self@),
            r@.len() == self@.environments.len(),
            forall|i: int| 0 <= i < r@.len() ==> (#[trigger] r@[i])@ == self@.environments[i].1,
    {
        proof {
            use_type_invariant(self);
        }
        let mut list: Vec<VirtualEnvironment> = Vec::new();
        let n = self.environments.len();
        proof {
            self.lemma_consistent();
        }
        let mut i: usize = 0;
        while i < n
            invariant
                i <= n,
                n == self.environments@.len(),
                list.len() == i,
                forall|j: int| 0 <= j < i ==> (#[trigger] list@[j])@ == self.environments@[j].1@,
            decreases n - i,
        {
            list.push(self.environments.value_at(i).clone());
            i += 1;
        }
        list
    }

    /// What the type's invariant gives of the value.
    proof fn lemma_consistent(&self)
        requires
            self.inv(),
            distinct_keys(self.environments@),
        ensures
            consistent(self@),
    {
        lemma_map_values_of(self.environments@, environment_value(), Seq::empty(), arbitrary());
    }

    /// Why a new environment cannot be created, if it cannot.
    fn check_creation(&self) -> (r: Option<WarpShieldError>)
        ensures
            r == creation_refusal(self@),
    {
        if !self.state.is_operational() {
            Some(WarpShieldError::NotOperational(self.state.clone()))
        } else if self.environments.len() >= self.config.max_virtual_environments {
            Some(WarpShieldError::CapacityExceeded(self.config.max_virtual_environments))
        } else {
            None
        }
    }

    /// Creates an environment of the kind given from an identifier, two
    /// address bytes and the present time, and takes it into the system. Its
    /// text identifier is `env-` followed by `uuid`; should an environment
    /// already stand under it, the new one takes its place.
    pub fn install_environment(
        &mut self,
        env_type: VirtualEnvironmentType,
        uuid: &str,
        a: u8,
        b: u8,
        now: u64,
    ) -> (r: Result<VirtualEnvironment, WarpShieldError>)
        ensures
            consistent(old(self)@),
            consistent(final(self)@),
            match creation_refusal(old(self)@) {
                Some(e) => r == Err::<VirtualEnvironment, WarpShieldError>(e) && final(self)@
                    == old(self)@,
                None => r is Ok && r->Ok_0@ == provisioned(env_type, uuid@, a, b, now)
                    && final(self)@ == with_environment(old(self)@, r->Ok_0@),
            },
    {
        proof {
            use_type_invariant(&*self);
        }
        self.environments.keys_are_distinct();
        proof {
            self.lemma_consistent();
        }
        if let Some(e) = self.check_creation() {
            return Err(e);
        }
        let env = provision(env_type, uuid, a, b, now);
        let stored = env.clone();
        let id = env.id.clone();
        let ghost before = self.environments@;
        let mut table: StringTable<VirtualEnvironment> = StringTable::new();
        core::mem::swap(&mut self.environments, &mut table);
        table.insert(id, stored);
        proof {
            lemma_index_of(before, id@);
            lemma_map_values_of(before, environment_value(), id@, stored);
            assert forall|i: int| 0 <= i < table@.len() implies (#[trigger] table@[i]).0
                == table@[i].1.id@ by {
                if i < before.len() && i != index_of(before, id@) {
                    assert(table@[i] == before[i]);
                }
            }
        }
        core::mem::swap(&mut self.environments, &mut table);
        self.stats.total_environments_created = bump(self.stats.total_environments_created);
        self.stats.active_environments = self.environments.len();
        proof {
            self.lemma_consistent();
        }
        Ok(env)
    }

    /// Why the environment `env_id` cannot be activated, if it cannot;
    /// otherwise the position at which it stands.
    fn check_activation(&self, env_id: &str) -> (r: Result<usize, WarpShieldError>)
        ensures
            consistent(self@),
            match activation_refusal(self@, env_id@) {
                Some(e) => r == Err::<usize, WarpShieldError>(e),
                None => r is Ok && r->Ok_0 == index_of(self@.environments, env_id@) && r->Ok_0
                    < self@.environments.len(),
            },
    {
        proof {
            use_type_invariant(self);
            lemma_map_values_of(self.environments@, environment_value(), env_id@, arbitrary());
        }
        if !self.state.is_operational() {
            self.environments.keys_are_distinct();
            proof {
                self.lemma_consistent();
            }
            return Err(WarpShieldError::NotOperational(self.state.clone()));
        }
        let found = self.environments.position(env_id);
        proof {
            self.lemma_consistent();
        }
        match found {
            None => Err(WarpShieldError::EnvironmentNotFound),
            Some(i) => {
                let env = self.environments.value_at(i);
                match &env.state {
                    VirtualEnvironmentState::Ready => Ok(i),
                    other => Err(WarpShieldError::EnvironmentNotReady(other.clone())),
                }
            },
        }
    }

    /// Why no attack can be recorded in the environment `env_id`, if none
    /// can; otherwise the position at which it stands.
    fn check_recording(&self, env_id: &str) -> (r: Result<usize, WarpShieldError>)
        ensures
            consistent(self@),
            match recording_refusal(self@, env_id@) {
                Some(e) => r == Err::<usize, WarpShieldError>(e),
                None => r is Ok && r->Ok_0 == index_of(self@.environments, env_id@) && r->Ok_0
                    < self@.environments.len(),
            },
    {
        proof {
            use_type_invariant(self);
            lemma_map_values_of(self.environments@, environment_value(), env_id@, arbitrary());
        }
        if !self.state.is_operational() {
            self.environments.keys_are_distinct();
            proof {
                self.lemma_consistent();
            }
            return Err(WarpShieldError::NotOperational(self.state.clone()));
        }
        let found = self.environments.position(env_id);
        proof {
            self.lemma_consistent();
        }
        match found {
            None => Err(WarpShieldError::EnvironmentNotFound),
            Some(i) => {
                let env = self.environments.value_at(i);
                match &env.state {
                    VirtualEnvironmentState::Active => Ok(i),
                    other => Err(WarpShieldError::EnvironmentNotActive(other.clone())),
                }
            },
        }
    }

    /// Why no signature can be drawn from the environment `env_id`, if none
    /// can; otherwise the position at which it stands.
    fn check_signature(&self, env_id: &str) -> (r: Result<usize, WarpShieldError>)
        ensures
            consistent(self@),
            match signature_refusal(self@, env_id@) {
                Some(e) => r == Err::<usize, WarpShieldError>(e),
                None => r is Ok && r->Ok_0 == index_of(self@.environments, env_id@) && r->Ok_0
                    < self@.environments.len(),
            },
    {
        proof {
            use_type_invariant(self);
            lemma_map_values_of(self.environments@, environment_value(), env_id@, arbitrary());
        }
        let found = self.environments.position(env_id);
        proof {
            self.lemma_consistent();
        }
        if !self.config.enable_signature_generation {
            return Err(WarpShieldError::SignatureGenerationDisabled);
        }
        if !self.state.is_operational() {
            return Err(WarpShieldError::NotOperational(self.state.clone()));
        }
        match found {
            None => Err(WarpShieldError::EnvironmentNotFound),
            Some(i) => Ok(i),
        }
    }

    /// Lets an attacker from `attacker_source` into the environment `env_id`
    /// at time `now`: the environment becomes active and notes the source
    /// and the time.
    pub fn activate_environment_at(&mut self, env_id: &str, attacker_source: &str, now: u64) -> (r:
        Result<(), WarpShieldError>)
        ensures
            consistent(old(self)@),
            consistent(final(self)@),
            match activation_refusal(old(self)@, env_id@) {
                Some(e) => r == Err::<(), WarpShieldError>(e) && final(self)@ == old(self)@,
                None => r is Ok && final(self)@ == with_environment_at(
                    old(self)@,
                    index_of(old(self)@.environments, env_id@),
                    activated(
                        old(self)@.environments[index_of(old(self)@.environments, env_id@)].1,
                        attacker_source@,
                        now,
                    ),
                ),
            },
    {
        proof {
            use_type_invariant(&*self);
        }
        let i = match self.check_activation(env_id) {
            Ok(i) => i,
            Err(e) => {
                return Err(e);
            },
        };
        let ghost before = self.environments@;
        let mut env = self.environments.value_at(i).clone();
        let ghost was = env@;
        env.state = VirtualEnvironmentState::Active;
        env.last_activity = now;
        let ghost data0 = env.attacker_data@;
        let source_text = attacker_source.to_owned();
        env.attacker_data.insert("source".to_owned(), source_text);
        let ghost data1 = env.attacker_data@;
        let time_text = decimal(now);
        env.attacker_data.insert("activation_time".to_owned(), time_text);
        proof {
            lemma_map_values_of(data0, text_of(), "source"@, source_text);
            lemma_map_values_of(data1, text_of(), "activation_time"@, time_text);
            assert(env@ == activated(was, attacker_source@, now));
        }
        let mut table: StringTable<VirtualEnvironment> = StringTable::new();
        core::mem::swap(&mut self.environments, &mut table);
        table.replace_value_at(i, env);
        proof {
            assert forall|k: int| 0 <= k < table@.len() implies (#[trigger] table@[k]).0
                == table@[k].1.id@ by {
                if k != i {
                    assert(table@[k] == before[k]);
                }
            }
            assert(map_values_of(table@, environment_value()) =~= map_values_of(
                before,
                environment_value(),
            ).update(i as int, (before[i as int].0, env@)));
        }
        core::mem::swap(&mut self.environments, &mut table);
        self.environments.keys_are_distinct();
        proof {
            self.lemma_consistent();
        }
        Ok(())
    }

    /// Lets an attacker from `attacker_source` into the environment `env_id`.
    /// The time is read from the clock.
    pub fn activate_environment(&mut self, env_id: &str, attacker_source: &str) -> (r: Result<
        (),
        WarpShieldError,
    >)
        ensures
            consistent(final(self)@),
            match activation_refusal(old(self)@, env_id@) {
                Some(e) => r == Err::<(), WarpShieldError>(e) && final(self)@ == old(self)@,
                None => r is Ok && exists|now: u64|
                    final(self)@ == with_environment_at(
                        old(self)@,
                        index_of(old(self)@.environments, env_id@),
                        #[trigger] activated(
                            old(self)@.environments[index_of(old(self)@.environments, env_id@)].1,
                            attacker_source@,
                            now,
                        ),
                    ),
            },
    {
        let now = now_seconds();
        self.activate_environment_at(env_id, attacker_source, now)
    }

    /// Records an attack of kind `attack_type`, seen at time `now` in the
    /// environment `env_id`, under the identifier `attack-` followed by `uuid`.
    pub fn record_attack_event_at(
        &mut self,
        env_id: &str,
        attack_type: &str,
        data: Metadata,
        uuid: &str,
        now: u64,
    ) -> (r: Result<AttackEvent, WarpShieldError>)
        ensures
            consistent(old(self)@),
            consistent(final(self)@),
            match recording_refusal(old(self)@, env_id@) {
                Some(e) => r == Err::<AttackEvent, WarpShieldError>(e) && final(self)@ == old(self)@,
                None => r is Ok && r->Ok_0@ == recorded_attack(
                    old(self)@.environments[index_of(old(self)@.environments, env_id@)].1,
                    uuid@,
                    attack_type@,
                    text_entries(data@),
                    now,
                ) && final(self)@ == after_recording(
                    old(self)@,
                    index_of(old(self)@.environments, env_id@),
                    now,
                ),
            },
    {
        proof {
            use_type_invariant(&*self);
        }
        let i = match self.check_recording(env_id) {
            Ok(i) => i,
            Err(e) => {
                return Err(e);
            },
        };
        let ghost before = self.environments@;
        let mut env = self.environments.value_at(i).clone();
        let ghost was = env@;
        env.last_activity = now;
        proof {
            lemma_index_of(old(self)@.environments, env_id@);
            assert(old(self)@.environments[i as int].0 == before[i as int].0);
            assert(before[i as int].0 == env_id@);
            assert(was.id == env_id@);
            assert(env@ == (VirtualEnvironmentView { last_activity: now, ..was }));
            assert(was == old(self)@.environments[i as int].1);
        }
        let source = match env.attacker_data.get("source") {
            Some(text) => text.clone(),
            None => String::new(),
        };
        proof {
            lemma_map_values_of(env.attacker_data@, text_of(), "source"@, arbitrary());
            assert(source@ =~= attacker_source(was));
        }
        let event = AttackEvent {
            id: join("attack-", uuid),
            environment_id: env_id.to_owned(),
            attack_type: attack_type.to_owned(),
            source,
            timestamp: now,
            data,
            severity: DEFAULT_ATTACK_SEVERITY,
        };
        let mut table: StringTable<VirtualEnvironment> = StringTable::new();
        core::mem::swap(&mut self.environments, &mut table);
        table.replace_value_at(i, env);
        proof {
            assert forall|k: int| 0 <= k < table@.len() implies (#[trigger] table@[k]).0
                == table@[k].1.id@ by {
                if k != i {
                    assert(table@[k] == before[k]);
                }
            }
            assert(map_values_of(table@, environment_value()) =~= map_values_of(
                before,
                environment_value(),
            ).update(i as int, (before[i as int].0, env@)));
        }
        core::mem::swap(&mut self.environments, &mut table);
        self.stats.total_attacks_detected = bump(self.stats.total_attacks_detected);
        self.environments.keys_are_distinct();
        proof {
            self.lemma_consistent();
            assert(event@ == recorded_attack(was, uuid@, attack_type@, text_entries(data@), now));
            assert(self@.environments == old(self)@.environments.update(
                i as int,
                (old(self)@.environments[i as int].0, env@),
            ));
        }
        Ok(event)
    }

    /// Records an attack of kind `attack_type` in the environment `env_id`.
    /// The identifier is drawn at random and the time is read from the clock.
    pub fn record_attack_event(&mut self, env_id: &str, attack_type: &str, data: Metadata) -> (r:
        Result<AttackEvent, WarpShieldError>)
        ensures
            consistent(final(self)@),
            match recording_refusal(old(self)@, env_id@) {
                Some(e) => r == Err::<AttackEvent, WarpShieldError>(e) && final(self)@ == old(self)@,
                None => r is Ok && exists|uuid: Seq<char>, now: u64|
                    uuid.len() == UUID_TEXT_LEN && r->Ok_0@ == #[trigger] recorded_attack(
                        old(self)@.environments[index_of(old(self)@.environments, env_id@)].1,
                        uuid,
                        attack_type@,
                        text_entries(data@),
                        now,
                    ) && final(self)@ == after_recording(
                        old(self)@,
                        index_of(old(self)@.environments, env_id@),
                        now,
                    ),
            },
    {
        if let Err(e) = self.check_recording(env_id) {
            return Err(e);
        }
        let uuid = random_uuid();
        let now = now_seconds();
        self.record_attack_event_at(env_id, attack_type, data, uuid.as_str(), now)
    }

    /// Draws a signature from the environment `env_id` at time `now`, under
    /// the identifier `sig-` followed by `uuid`.
    pub fn generate_attack_signature_at(
        &mut self,
        env_id: &str,
        name: &str,
        description: &str,
        uuid: &str,
        now: u64,
    ) -> (r: Result<AttackSignature, WarpShieldError>)
        ensures
            consistent(old(self)@),
            consistent(final(self)@),
            match signature_refusal(old(self)@, env_id@) {
                Some(e) => r == Err::<AttackSignature, WarpShieldError>(e) && final(self)@ == old(
                    self)@,
                None => r is Ok && r->Ok_0@ == drawn_signature(
                    old(self)@.environments[index_of(old(self)@.environments, env_id@)].1,
                    uuid@,
                    name@,
                    description@,
                    now,
                ) && final(self)@ == after_signature(old(self)@),
            },
    {
        proof {
            use_type_invariant(&*self);
        }
        let i = match self.check_signature(env_id) {
            Ok(i) => i,
            Err(e) => {
                return Err(e);
            },
        };
        let env = self.environments.value_at(i);
        let source = match env.attacker_data.get("source") {
            Some(text) => text.clone(),
            None => String::new(),
        };
        proof {
            lemma_map_values_of(env.attacker_data@, text_of(), "source"@, arbitrary());
            assert(source@ =~= attacker_source(env@));
        }
        let kind = kind_text(&env.env_type);
        let mut patterns: Vec<String> = Vec::new();
        patterns.push(join("source:", source.as_str()));
        patterns.push(join("env_type:", kind.as_str()));
        let mut countermeasures: Vec<String> = Vec::new();
        countermeasures.push("block_ip".to_owned());
        countermeasures.push("increase_monitoring".to_owned());
        let related: Vec<String> = Vec::new();
        proof {
            assert(texts(patterns@) =~= seq![
                "source:"@ + attacker_source(env@),
                "env_type:"@ + kind_name(env@.env_type),
            ]);
            assert(texts(countermeasures@) =~= seq!["block_ip"@, "increase_monitoring"@]);
            assert(texts(related@) =~= Seq::<Seq<char>>::empty());
        }
        let signature = AttackSignature {
            id: join("sig-", uuid),
            name: name.to_owned(),
            description: description.to_owned(),
            patterns,
            confidence: DEFAULT_SIGNATURE_CONFIDENCE,
            created_at: now,
            related_attack_events: related,
            recommended_countermeasures: countermeasures,
        };
        self.stats.signatures_generated = bump(self.stats.signatures_generated);
        Ok(signature)
    }

    /// Draws a signature from the environment `env_id`. The identifier is
    /// drawn at random and the time is read from the clock.
    pub fn generate_attack_signature(&mut self, env_id: &str, name: &str, description: &str) -> (r:
        Result<AttackSignature, WarpShieldError>)
        ensures
            consistent(final(self)@),
            match signature_refusal(old(self)@, env_id@) {
                Some(e) => r == Err::<AttackSignature, WarpShieldError>(e) && final(self)@ == old(
                    self)@,
                None => r is Ok && final(self)@ == after_signature(old(self)@) && exists|
                    uuid: Seq<char>,
                    now: u64,
                |
                    uuid.len() == UUID_TEXT_LEN && r->Ok_0@ == #[trigger] drawn_signature(
                        old(self)@.environments[index_of(old(self)@.environments, env_id@)].1,
                        uuid,
                        name@,
                        description@,
                        now,
                    ),
            },
    {
        if let Err(e) = self.check_signature(env_id) {
            return Err(e);
        }
        let uuid = random_uuid();
        let now = now_seconds();
        self.generate_attack_signature_at(env_id, name, description, uuid.as_str(), now)
    }

    /// Removes the environment `env_id` from the system.
    pub fn terminate_environment(&mut self, env_id: &str) -> (r: Result<(), WarpShieldError>)
        ensures
            consistent(old(self)@),
            consistent(final(self)@),
            match termination_refusal(old(self)@, env_id@) {
                Some(e) => r == Err::<(), WarpShieldError>(e) && final(self)@ == old(self)@,
                None => r is Ok && final(self)@ == after_termination(old(self)@, env_id@),
            },
    {
        proof {
            use_type_invariant(&*self);
            lemma_map_values_of(self.environments@, environment_value(), env_id@, arbitrary());
        }
        let found = self.environments.position(env_id);
        proof {
            self.lemma_consistent();
        }
        let allowed = match &self.state {
            WarpShieldState::Operational => true,
            WarpShieldState::Degraded => true,
            _ => false,
        };
        if !allowed {
            return Err(WarpShieldError::NotOperational(self.state.clone()));
        }
        if found.is_none() {
            return Err(WarpShieldError::EnvironmentNotFound);
        }
        let ghost before = self.environments@;
        let mut table: StringTable<VirtualEnvironment> = StringTable::new();
        core::mem::swap(&mut self.environments, &mut table);
        let _ = table.remove(env_id);
        proof {
            let i = index_of(before, env_id@);
            assert forall|k: int| 0 <= k < table@.len() implies (#[trigger] table@[k]).0
                == table@[k].1.id@ by {
                if k < i {
                    assert(table@[k] == before[k]);
                } else {
                    assert(table@[k] == before[k + 1]);
                }
            }
        }
        core::mem::swap(&mut self.environments, &mut table);
        self.stats.active_environments = self.environments.len();
        proof {
            self.lemma_consistent();
        }
        Ok(())
    }

    /// Creates an environment of the kind given. The identifier and the
    /// address are drawn at random and the time is read from the clock.
    pub fn create_virtual_environment(&mut self, env_type: VirtualEnvironmentType) -> (r: Result<
        VirtualEnvironment,
        WarpShieldError,
    >)
        ensures
            consistent(final(self)@),
            match creation_refusal(old(self)@) {
                Some(e) => r == Err::<VirtualEnvironment, WarpShieldError>(e) && final(self)@
                    == old(self)@,
                None => r is Ok && exists|uuid: Seq<char>, a: u8, b: u8, now: u64| #[trigger]
                    created_with(old(self)@, env_type, uuid, a, b, now, final(self)@, r->Ok_0@),
            },
    {
        if let Some(e) = self.check_creation() {
            proof {
                use_type_invariant(&*self);
            }
            self.environments.keys_are_distinct();
            proof {
                self.lemma_consistent();
            }
            return Err(e);
        }
        let uuid = random_uuid();
        let a = random_octet();
        let b = random_octet();
        let now = now_seconds();
        let r = self.install_environment(env_type, uuid.as_str(), a, b, now);
        proof {
            assert(created_with(old(self)@, env_type, uuid@, a, b, now, self@, r->Ok_0@));
        }
        r
    }
}

} // verus!
