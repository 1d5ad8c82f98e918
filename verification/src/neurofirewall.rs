//! The firewall: each packet is turned into features, scored by an oracle,
//! and answered with a decision; a score at or above the threshold raises a
//! detection event.

use vstd::prelude::*;
use std::collections::VecDeque;
use crate::fixed::{accumulate, accumulated, bump, bumped, is_unit, ratio, ratio_of, Ppm, ONE};
use crate::host::{clock_micros, random_uuid, UUID_TEXT_LEN};
use crate::neural_net::thresholds::{
    cycle_begun, effective, learned, ThresholdManager, ThresholdView,
};
use crate::table::Metadata;
use crate::text::{join, texts, two_decimal_digits, two_decimals};

verus! {

/// Settings of the firewall.
#[derive(Debug, Clone, Copy, PartialEq, Eq, Structural)]
pub struct NeuroFireWallConfig {
    /// How many packets the buffer of recent packets holds.
    pub buffer_size: usize,
    /// The threshold that every context starts from.
    pub anomaly_threshold: Ppm,
    /// Seconds between two learning cycles.
    pub learning_interval: u64,
    /// Whether thresholds adapt in learning cycles.
    pub enable_continuous_learning: bool,
    /// Whether a score at or above the threshold blocks rather than quarantines,
    /// and a failing oracle blocks rather than alerts.
    pub strict_mode: bool,
    pub sensitivity: Ppm,
    /// 0 = none, 1 = errors, 2 = warnings, 3 = info, 4 = debug.
    pub log_level: u8,
    pub neural_layers: u8,
    pub hidden_layer_size: usize,
    /// The most that a threshold moves in one learning cycle.
    pub max_threshold_step: Ppm,
    /// The rate of false positives that learning aims at.
    pub target_false_positive_rate: Ppm,
}

impl Default for NeuroFireWallConfig {
    fn default() -> (r: Self)
        ensures
            r == (NeuroFireWallConfig {
                buffer_size: 10000,
                anomaly_threshold: 850_000,
                learning_interval: 3600,
                enable_continuous_learning: true,
                strict_mode: false,
                sensitivity: 750_000,
                log_level: 3,
                neural_layers: 4,
                hidden_layer_size: 256,
                max_threshold_step: 50_000,
                target_false_positive_rate: 1_000,
            }),
    {
        NeuroFireWallConfig {
            buffer_size: 10000,
            anomaly_threshold: 850_000,
            learning_interval: 3600,
            enable_continuous_learning: true,
            strict_mode: false,
            sensitivity: 750_000,
            log_level: 3,
            neural_layers: 4,
            hidden_layer_size: 256,
            max_threshold_step: 50_000,
            target_false_positive_rate: 1_000,
        }
    }
}

/// The classes of traffic. Each is a context with a threshold of its own.
#[derive(Debug, Clone, Copy, PartialEq, Eq, Structural)]
pub enum TrafficType {
    Web,
    Dns,
    Ssh,
    Ftp,
    Smtp,
    Database,
    IoT,
    Api,
    Unknown,
}

/// The number of classes of traffic.
pub const TRAFFIC_CLASSES: usize = 9;

/// The context of a class of traffic.
pub open spec fn context_of(traffic_type: TrafficType) -> int {
    match traffic_type {
        TrafficType::Web => 0,
        TrafficType::Dns => 1,
        TrafficType::Ssh => 2,
        TrafficType::Ftp => 3,
        TrafficType::Smtp => 4,
        TrafficType::Database => 5,
        TrafficType::IoT => 6,
        TrafficType::Api => 7,
        TrafficType::Unknown => 8,
    }
}

impl TrafficType {
    /// The context of the class.
    pub fn context(self) -> (r: usize)
        ensures
            r == context_of(self),
            r < TRAFFIC_CLASSES,
    {
        match self {
            TrafficType::Web => 0,
            TrafficType::Dns => 1,
            TrafficType::Ssh => 2,
            TrafficType::Ftp => 3,
            TrafficType::Smtp => 4,
            TrafficType::Database => 5,
            TrafficType::IoT => 6,
            TrafficType::Api => 7,
            TrafficType::Unknown => 8,
        }
    }
}

/// What the firewall does with a packet.
#[derive(Debug, Clone, Copy, PartialEq, Eq, Structural)]
pub enum FirewallDecision {
    Allow,
    Block,
    Quarantine,
    Redirect,
    RateLimit,
    Alert,
}

/// The place of a decision in the order of severity:
/// `Allow < Alert < RateLimit < Quarantine < Redirect < Block`.
pub open spec fn decision_rank(decision: FirewallDecision) -> nat {
    match decision {
        FirewallDecision::Allow => 0,
        FirewallDecision::Alert => 1,
        FirewallDecision::RateLimit => 2,
        FirewallDecision::Quarantine => 3,
        FirewallDecision::Redirect => 4,
        FirewallDecision::Block => 5,
    }
}

impl FirewallDecision {
    /// The place of the decision in the order of severity.
    pub fn severity_rank(self) -> (r: u8)
        ensures
            r == decision_rank(self),
    {
        match self {
            FirewallDecision::Allow => 0,
            FirewallDecision::Alert => 1,
            FirewallDecision::RateLimit => 2,
            FirewallDecision::Quarantine => 3,
            FirewallDecision::Redirect => 4,
            FirewallDecision::Block => 5,
        }
    }

    /// The more severe of two decisions.
    pub fn more_severe(self, other: FirewallDecision) -> (r: FirewallDecision)
        ensures
            r == self || r == other,
            decision_rank(r) >= decision_rank(self),
            decision_rank(r) >= decision_rank(other),
    {
        if other.severity_rank() > self.severity_rank() {
            other
        } else {
            self
        }
    }
}

/// A packet as the firewall sees it.
#[derive(Debug)]
pub struct NetworkPacket {
    pub id: String,
    pub source_ip: String,
    pub destination_ip: String,
    pub source_port: u16,
    pub destination_port: u16,
    pub protocol: String,
    /// Size in bytes.
    pub size: usize,
    /// Seconds since the Unix epoch.
    pub timestamp: u64,
    pub traffic_type: TrafficType,
    /// The first bytes of the payload.
    pub payload_sample: Vec<u8>,
    pub metadata: Metadata,
}

/// Whether two packets hold the same values.
pub open spec fn same_packet(a: NetworkPacket, b: NetworkPacket) -> bool {
    &&& a.id@ == b.id@
    &&& a.source_ip@ == b.source_ip@
    &&& a.destination_ip@ == b.destination_ip@
    &&& a.source_port == b.source_port
    &&& a.destination_port == b.destination_port
    &&& a.protocol@ == b.protocol@
    &&& a.size == b.size
    &&& a.timestamp == b.timestamp
    &&& a.traffic_type == b.traffic_type
    &&& a.payload_sample@ == b.payload_sample@
    &&& a.metadata@ == b.metadata@
}

impl Clone for NetworkPacket {
    fn clone(&self) -> (r: Self)
        ensures
            same_packet(r, *self),
    {
        let mut payload_sample: Vec<u8> = Vec::new();
        payload_sample.extend_from_slice(self.payload_sample.as_slice());
        assert(payload_sample@ =~= self.payload_sample@);
        NetworkPacket {
            id: self.id.clone(),
            source_ip: self.source_ip.clone(),
            destination_ip: self.destination_ip.clone(),
            source_port: self.source_port,
            destination_port: self.destination_port,
            protocol: self.protocol.clone(),
            size: self.size,
            timestamp: self.timestamp,
            traffic_type: self.traffic_type,
            payload_sample,
            metadata: self.metadata.clone(),
        }
    }
}

/// The features of a packet.
#[derive(Debug)]
pub struct PacketFeatures {
    pub packet_id: String,
    pub features: Vec<Ppm>,
    pub feature_labels: Vec<String>,
    /// The score of the packet; 0 until the oracle has given one.
    pub anomaly_score: Ppm,
}

/// A score with the threshold that it was held against.
#[derive(Debug, Clone, Copy, PartialEq, Eq, Structural)]
pub struct AnomalyScore {
    pub score: Ppm,
    pub threshold: Ppm,
}

/// What the scoring oracle answered.
#[derive(Debug, Clone, Copy, PartialEq, Eq, Structural)]
pub enum ScoringOutcome {
    /// The likelihood that the packet is malicious.
    Score(Ppm),
    /// The oracle did not answer in time.
    Timeout,
    /// The oracle could not be reached.
    Unavailable,
}

/// The time that the scoring oracle is given to answer, in microseconds.
pub const DEFAULT_SCORING_BUDGET_US: u64 = 200;

/// What an answer of the oracle counts as when it took `elapsed_us`
/// microseconds and `budget_us` were allowed: an answer that came too late
/// counts as a timeout, whatever it says.
pub open spec fn within_budget(outcome: ScoringOutcome, elapsed_us: u64, budget_us: u64)
    -> ScoringOutcome {
    if elapsed_us > budget_us {
        ScoringOutcome::Timeout
    } else {
        outcome
    }
}

/// Holds an answer of the oracle to the time allowed for it.
pub fn judge_latency(outcome: ScoringOutcome, elapsed_us: u64, budget_us: u64) -> (r:
    ScoringOutcome)
    ensures
        r == within_budget(outcome, elapsed_us, budget_us),
{
    if elapsed_us > budget_us {
        ScoringOutcome::Timeout
    } else {
        outcome
    }
}

/// A score that reached the threshold.
#[derive(Debug)]
pub struct DetectionEvent {
    pub id: String,
    /// Seconds since the Unix epoch.
    pub timestamp: u64,
    pub anomaly_score: Ppm,
    /// The threshold that the score was held against.
    pub threshold: Ppm,
    pub decision: FirewallDecision,
    pub related_packets: Vec<String>,
    pub trigger_features: Vec<String>,
    pub description: String,
}

/// The value of a [`DetectionEvent`].
pub struct DetectionEventView {
    pub id: Seq<char>,
    pub timestamp: u64,
    pub anomaly_score: Ppm,
    pub threshold: Ppm,
    pub decision: FirewallDecision,
    pub related_packets: Seq<Seq<char>>,
    pub trigger_features: Seq<Seq<char>>,
    pub description: Seq<char>,
}

impl View for DetectionEvent {
    type V = DetectionEventView;

    open spec fn view(&self) -> DetectionEventView {
        DetectionEventView {
            id: self.id@,
            timestamp: self.timestamp,
            anomaly_score: self.anomaly_score,
            threshold: self.threshold,
            decision: self.decision,
            related_packets: texts(self.related_packets@),
            trigger_features: texts(self.trigger_features@),
            description: self.description@,
        }
    }
}

impl DetectionEvent {
    /// The score of the event with the threshold that it was held against.
    pub fn score(&self) -> (r: AnomalyScore)
        ensures
            r == (AnomalyScore { score: self.anomaly_score, threshold: self.threshold }),
    {
        AnomalyScore { score: self.anomaly_score, threshold: self.threshold }
    }
}

/// Counters of the firewall.
#[derive(Debug, Clone, Copy, PartialEq, Eq, Structural)]
pub struct NeuroFireWallStats {
    pub total_packets_analyzed: u64,
    pub packets_allowed: u64,
    pub packets_blocked: u64,
    pub packets_quarantined: u64,
    pub packets_alerted: u64,
    pub detection_events: u64,
    /// How often the oracle gave no score.
    pub scoring_failures: u64,
    /// Sum of the times taken to analyse a packet, in microseconds.
    pub total_analysis_time_us: u64,
    pub false_positive_rate: Ppm,
    pub false_negative_rate: Ppm,
    pub learning_cycles: u64,
    pub uptime_seconds: u64,
}

/// The mean time taken to analyse a packet, in whole microseconds.
pub open spec fn mean_analysis_time_us(stats: NeuroFireWallStats) -> u64 {
    if stats.total_packets_analyzed == 0 {
        0
    } else {
        stats.total_analysis_time_us / stats.total_packets_analyzed
    }
}

impl NeuroFireWallStats {
    /// The mean time taken to analyse a packet, in whole microseconds.
    pub fn avg_analysis_time_us(&self) -> (r: u64)
        ensures
            r == mean_analysis_time_us(*self),
    {
        if self.total_packets_analyzed == 0 {
            0
        } else {
            self.total_analysis_time_us / self.total_packets_analyzed
        }
    }
}

/// Where the firewall stands.
#[derive(Debug, PartialEq)]
pub enum NeuroFireWallState {
    Initializing,
    Operational,
    Learning,
    Degraded,
    Maintenance,
    Error(String),
    Shutdown,
}

impl Clone for NeuroFireWallState {
    fn clone(&self) -> (r: Self)
        ensures
            r == *self,
    {
        match self {
            NeuroFireWallState::Initializing => NeuroFireWallState::Initializing,
            NeuroFireWallState::Operational => NeuroFireWallState::Operational,
            NeuroFireWallState::Learning => NeuroFireWallState::Learning,
            NeuroFireWallState::Degraded => NeuroFireWallState::Degraded,
            NeuroFireWallState::Maintenance => NeuroFireWallState::Maintenance,
            NeuroFireWallState::Error(detail) => NeuroFireWallState::Error(detail.clone()),
            NeuroFireWallState::Shutdown => NeuroFireWallState::Shutdown,
        }
    }
}

/// Whether the firewall analyses packets in this state: it does while it is
/// operational, and goes on doing so while it learns.
pub open spec fn analyses(state: NeuroFireWallState) -> bool {
    state is Operational || state is Learning
}

impl NeuroFireWallState {
    /// Whether the firewall analyses packets in this state.
    pub fn analyses(&self) -> (r: bool)
        ensures
            r == analyses(*self),
    {
        match self {
            NeuroFireWallState::Operational => true,
            NeuroFireWallState::Learning => true,
            _ => false,
        }
    }
}

/// Why the firewall refused a request.
#[derive(Debug, PartialEq)]
pub enum FirewallError {
    /// The firewall is in a state that does not allow the request; the state is given.
    NotOperational(NeuroFireWallState),
    /// Learning is switched off.
    LearningDisabled,
    /// A learning cycle is already in progress.
    LearningInProgress,
    /// No learning cycle is in progress.
    NotLearning,
}

/// The score from which a packet is blocked whatever the threshold is.
pub const HARD_BLOCK_SCORE: u32 = 950_000;

/// The decision on a score held against a threshold: at or above 0.95 the
/// packet is blocked; at or above the threshold it is blocked in strict mode
/// and quarantined otherwise; at or above four fifths of the threshold it
/// raises an alert; below that it passes.
pub open spec fn decision_for(score: Ppm, threshold: Ppm, strict: bool) -> FirewallDecision {
    if score >= HARD_BLOCK_SCORE {
        FirewallDecision::Block
    } else if score >= threshold {
        if strict {
            FirewallDecision::Block
        } else {
            FirewallDecision::Quarantine
        }
    } else if 5 * score >= 4 * threshold {
        FirewallDecision::Alert
    } else {
        FirewallDecision::Allow
    }
}

/// The decision where the oracle gave no score: closed in strict mode, open
/// with an alert otherwise.
pub open spec fn fallback_decision(strict: bool) -> FirewallDecision {
    if strict {
        FirewallDecision::Block
    } else {
        FirewallDecision::Alert
    }
}

/// The decision on what the oracle answered.
pub open spec fn decision_on(outcome: ScoringOutcome, threshold: Ppm, strict: bool)
    -> FirewallDecision {
    match outcome {
        ScoringOutcome::Score(score) => decision_for(score, threshold, strict),
        _ => fallback_decision(strict),
    }
}

/// Whether what the oracle answered raises a detection event: a score at or
/// above the threshold does, and nothing else.
pub open spec fn raises_event(outcome: ScoringOutcome, threshold: Ppm) -> bool {
    outcome matches ScoringOutcome::Score(score) && score >= threshold
}

/// Decides on a score held against a threshold.
pub fn decide(score: Ppm, threshold: Ppm, strict: bool) -> (r: FirewallDecision)
    ensures
        r == decision_for(score, threshold, strict),
{
    if score >= HARD_BLOCK_SCORE {
        FirewallDecision::Block
    } else if score >= threshold {
        if strict {
            FirewallDecision::Block
        } else {
            FirewallDecision::Quarantine
        }
    } else if 5 * (score as u64) >= 4 * (threshold as u64) {
        FirewallDecision::Alert
    } else {
        FirewallDecision::Allow
    }
}

/// Decides on what the oracle answered.
pub fn decide_on(outcome: ScoringOutcome, threshold: Ppm, strict: bool) -> (r: FirewallDecision)
    ensures
        r == decision_on(outcome, threshold, strict),
{
    match outcome {
        ScoringOutcome::Score(score) => decide(score, threshold, strict),
        _ => if strict {
            FirewallDecision::Block
        } else {
            FirewallDecision::Alert
        },
    }
}

/// A score of 0.95 or more is blocked; a score below four fifths of a
/// threshold in the unit interval passes.
pub proof fn lemma_decision_bounds(score: Ppm, threshold: Ppm, strict: bool)
    ensures
        score >= HARD_BLOCK_SCORE ==> decision_for(score, threshold, strict)
            == FirewallDecision::Block,
        is_unit(threshold) && 5 * score < 4 * threshold ==> decision_for(score, threshold, strict)
            == FirewallDecision::Allow,
{
}

/// The decision never becomes milder as the score rises.
pub proof fn lemma_decision_is_monotonic(low: Ppm, high: Ppm, threshold: Ppm, strict: bool)
    requires
        low <= high,
    ensures
        decision_rank(decision_for(low, threshold, strict)) <= decision_rank(
            decision_for(high, threshold, strict),
        ),
{
}

/// A detection event is raised exactly for a score at or above the
/// threshold, and then the packet does not pass.
pub proof fn lemma_event_iff_threshold_reached(score: Ppm, threshold: Ppm, strict: bool)
    ensures
        raises_event(ScoringOutcome::Score(score), threshold) <==> score >= threshold,
        !raises_event(ScoringOutcome::Timeout, threshold),
        !raises_event(ScoringOutcome::Unavailable, threshold),
        raises_event(ScoringOutcome::Score(score), threshold) ==> decision_rank(
            decision_for(score, threshold, strict),
        ) >= decision_rank(FirewallDecision::Quarantine),
        raises_event(ScoringOutcome::Score(score), threshold) ==> decision_for(
            score,
            threshold,
            strict,
        ) == FirewallDecision::Block || decision_for(score, threshold, strict)
            == FirewallDecision::Quarantine,
{
}

/// The number of features of a packet.
pub const FEATURE_COUNT: usize = 10;

/// The names of the features of a packet, in their order.
pub open spec fn feature_names() -> Seq<Seq<char>> {
    seq![
        "destination_port"@,
        "source_port"@,
        "packet_size"@,
        "protocol"@,
        "traffic_type"@,
        "payload_byte_0"@,
        "payload_byte_1"@,
        "payload_byte_2"@,
        "payload_byte_3"@,
        "payload_byte_4"@,
    ]
}

/// The feature of a protocol.
pub open spec fn protocol_value(protocol: Seq<char>) -> Ppm {
    if protocol == "TCP"@ {
        100_000
    } else if protocol == "UDP"@ {
        200_000
    } else if protocol == "ICMP"@ {
        300_000
    } else if protocol == "HTTP"@ {
        400_000
    } else if protocol == "HTTPS"@ {
        500_000
    } else {
        900_000
    }
}

/// The feature of a class of traffic.
pub open spec fn traffic_value(traffic_type: TrafficType) -> Ppm {
    match traffic_type {
        TrafficType::Web => 100_000,
        TrafficType::Dns => 200_000,
        TrafficType::Ssh => 300_000,
        TrafficType::Ftp => 400_000,
        TrafficType::Smtp => 500_000,
        TrafficType::Database => 600_000,
        TrafficType::IoT => 700_000,
        TrafficType::Api => 800_000,
        TrafficType::Unknown => 900_000,
    }
}

/// The feature of the payload byte at position `i`: the byte as a fraction
/// of 255, and 0 where the payload is shorter.
pub open spec fn payload_value(payload: Seq<u8>, i: int) -> Ppm {
    if 0 <= i < payload.len() {
        ratio_of(payload[i] as nat, 255) as Ppm
    } else {
        0
    }
}

/// The features of a packet: the ports as fractions of 65535, the size as a
/// fraction of 1500 bytes, protocol and class of traffic by their tables,
/// and the first five bytes of the payload.
pub open spec fn feature_values(packet: NetworkPacket) -> Seq<Ppm> {
    seq![
        ratio_of(packet.destination_port as nat, 65535) as Ppm,
        ratio_of(packet.source_port as nat, 65535) as Ppm,
        ratio_of(packet.size as nat, 1500) as Ppm,
        protocol_value(packet.protocol@),
        traffic_value(packet.traffic_type),
        payload_value(packet.payload_sample@, 0),
        payload_value(packet.payload_sample@, 1),
        payload_value(packet.payload_sample@, 2),
        payload_value(packet.payload_sample@, 3),
        payload_value(packet.payload_sample@, 4),
    ]
}

/// The feature of a protocol.
fn protocol_feature(protocol: &str) -> (r: Ppm)
    ensures
        r == protocol_value(protocol@),
{
    if *protocol == *"TCP" {
        100_000
    } else if *protocol == *"UDP" {
        200_000
    } else if *protocol == *"ICMP" {
        300_000
    } else if *protocol == *"HTTP" {
        400_000
    } else if *protocol == *"HTTPS" {
        500_000
    } else {
        900_000
    }
}

/// The feature of a class of traffic.
fn traffic_feature(traffic_type: TrafficType) -> (r: Ppm)
    ensures
        r == traffic_value(traffic_type),
{
    match traffic_type {
        TrafficType::Web => 100_000,
        TrafficType::Dns => 200_000,
        TrafficType::Ssh => 300_000,
        TrafficType::Ftp => 400_000,
        TrafficType::Smtp => 500_000,
        TrafficType::Database => 600_000,
        TrafficType::IoT => 700_000,
        TrafficType::Api => 800_000,
        TrafficType::Unknown => 900_000,
    }
}

/// The feature of the payload byte at position `i`.
fn payload_feature(payload: &Vec<u8>, i: usize) -> (r: Ppm)
    ensures
        r == payload_value(payload@, i as int),
{
    if i < payload.len() {
        ratio(payload[i] as u64, 255)
    } else {
        0
    }
}

/// The names of the features of a packet.
pub fn feature_labels() -> (r: Vec<String>)
    ensures
        texts(r@) == feature_names(),
{
    let mut labels: Vec<String> = Vec::new();
    labels.push("destination_port".to_owned());
    labels.push("source_port".to_owned());
    labels.push("packet_size".to_owned());
    labels.push("protocol".to_owned());
    labels.push("traffic_type".to_owned());
    labels.push("payload_byte_0".to_owned());
    labels.push("payload_byte_1".to_owned());
    labels.push("payload_byte_2".to_owned());
    labels.push("payload_byte_3".to_owned());
    labels.push("payload_byte_4".to_owned());
    assert(texts(labels@) =~= feature_names());
    labels
}

/// Turns a packet into its features. Every packet has the same ten
/// features, whatever its payload holds.
pub fn extract(packet: &NetworkPacket) -> (r: PacketFeatures)
    ensures
        r.features@ == feature_values(*packet),
        r.features@.len() == FEATURE_COUNT,
        texts(r.feature_labels@) == feature_names(),
        r.feature_labels@.len() == FEATURE_COUNT,
        r.packet_id@ == packet.id@,
        r.anomaly_score == 0,
{
    let mut features: Vec<Ppm> = Vec::new();
    features.push(ratio(packet.destination_port as u64, 65535));
    features.push(ratio(packet.source_port as u64, 65535));
    features.push(ratio(packet.size as u64, 1500));
    features.push(protocol_feature(packet.protocol.as_str()));
    features.push(traffic_feature(packet.traffic_type));
    features.push(payload_feature(&packet.payload_sample, 0));
    features.push(payload_feature(&packet.payload_sample, 1));
    features.push(payload_feature(&packet.payload_sample, 2));
    features.push(payload_feature(&packet.payload_sample, 3));
    features.push(payload_feature(&packet.payload_sample, 4));
    assert(features@ =~= feature_values(*packet));
    let feature_labels = feature_labels();
    assert(feature_labels@.len() == texts(feature_labels@).len());
    PacketFeatures { packet_id: packet.id.clone(), features, feature_labels, anomaly_score: 0 }
}

/// The packets that a buffer holds after one more has come in: the newest
/// `capacity` of them, oldest first.
pub open spec fn pushed(held: Seq<NetworkPacket>, packet: NetworkPacket, capacity: nat) -> Seq<
    NetworkPacket,
> {
    if capacity == 0 {
        Seq::empty()
    } else if held.len() < capacity {
        held.push(packet)
    } else {
        held.subrange(held.len() - capacity + 1, held.len() as int).push(packet)
    }
}

/// A buffer that was within its capacity stays within it, and a packet
/// that comes in is the newest of those held, unless the buffer holds none.
pub proof fn lemma_pushed_is_bounded(held: Seq<NetworkPacket>, packet: NetworkPacket, capacity: nat)
    requires
        held.len() <= capacity,
    ensures
        pushed(held, packet, capacity).len() <= capacity,
        capacity > 0 ==> pushed(held, packet, capacity).len() > 0 && pushed(
            held,
            packet,
            capacity,
        ).last() == packet,
        capacity > 0 && held.len() < capacity ==> pushed(held, packet, capacity) == held.push(
            packet,
        ),
        capacity > 0 && held.len() == capacity ==> pushed(held, packet, capacity)
            == held.subrange(1, held.len() as int).push(packet),
{
}

/// A buffer of the most recent packets. It never holds more than its
/// capacity: a packet that comes in when the buffer is full takes the place
/// of the oldest.
#[derive(Debug)]
pub struct ObservationBuffer {
    capacity: usize,
    packets: VecDeque<NetworkPacket>,
}

impl View for ObservationBuffer {
    type V = Seq<NetworkPacket>;

    closed spec fn view(&self) -> Seq<NetworkPacket> {
        self.packets@
    }
}

impl ObservationBuffer {
    #[verifier::type_invariant]
    spec fn inv(&self) -> bool {
        self.packets@.len() <= self.capacity
    }

    /// The most that the buffer holds.
    pub closed spec fn limit(&self) -> nat {
        self.capacity as nat
    }

    /// An empty buffer that holds `capacity` packets at most.
    pub fn new(capacity: usize) -> (r: Self)
        ensures
            r@ == Seq::<NetworkPacket>::empty(),
            r.limit() == capacity,
    {
        ObservationBuffer { capacity, packets: VecDeque::new() }
    }

    /// The number of packets held.
    pub fn len(&self) -> (r: usize)
        ensures
            r == self@.len(),
            r <= self.limit(),
    {
        proof {
            use_type_invariant(self);
        }
        self.packets.len()
    }

    /// The most that the buffer holds.
    pub fn capacity(&self) -> (r: usize)
        ensures
            r == self.limit(),
    {
        self.capacity
    }

    /// The packet at position `i`, counted from the oldest.
    pub fn get(&self, i: usize) -> (r: Option<&NetworkPacket>)
        ensures
            i < self@.len() ==> r == Some(&self@[i as int]),
            i >= self@.len() ==> r is None,
    {
        if i < self.packets.len() {
            Some(&self.packets[i])
        } else {
            None
        }
    }

    /// Takes a packet in and hands back the packet that had to leave for it, if any.
    pub fn push(&mut self, packet: NetworkPacket) -> (r: Option<NetworkPacket>)
        ensures
            final(self).limit() == old(self).limit(),
            final(self)@ == pushed(old(self)@, packet, old(self).limit()),
            final(self)@.len() <= final(self).limit(),
            old(self).limit() == 0 ==> r == Some(packet),
            old(self).limit() > 0 && old(self)@.len() < old(self).limit() ==> r is None,
            old(self).limit() > 0 && old(self)@.len() >= old(self).limit() ==> r == Some(
                old(self)@[0],
            ),
    {
        proof {
            use_type_invariant(&*self);
        }
        if self.capacity == 0 {
            assert(self@ =~= Seq::<NetworkPacket>::empty());
            return Some(packet);
        }
        let ghost before = self.packets@;
        let mut packets: VecDeque<NetworkPacket> = VecDeque::new();
        core::mem::swap(&mut self.packets, &mut packets);
        let evicted = if packets.len() >= self.capacity {
            packets.pop_front()
        } else {
            None
        };
        packets.push_back(packet);
        assert(packets@ =~= pushed(before, packet, self.capacity as nat));
        core::mem::swap(&mut self.packets, &mut packets);
        evicted
    }
}

/// The value of a [`NeuroFireWall`].
pub struct NeuroFireWallView {
    pub config: NeuroFireWallConfig,
    pub state: NeuroFireWallState,
    pub stats: NeuroFireWallStats,
    /// The most recent packets, oldest first.
    pub buffer: Seq<NetworkPacket>,
    /// The most that the buffer of recent packets holds.
    pub buffer_capacity: nat,
    pub thresholds: ThresholdView,
}

/// The threshold in force for a class of traffic.
pub open spec fn threshold_for(v: NeuroFireWallView, traffic_type: TrafficType) -> Ppm {
    effective(v.thresholds, context_of(traffic_type))
}

/// The counters after one more packet has been analysed.
pub open spec fn counted(
    stats: NeuroFireWallStats,
    decision: FirewallDecision,
    outcome: ScoringOutcome,
    threshold: Ppm,
    analysis_time_us: u64,
) -> NeuroFireWallStats {
    NeuroFireWallStats {
        total_packets_analyzed: bumped(stats.total_packets_analyzed),
        packets_allowed: if decision is Allow {
            bumped(stats.packets_allowed)
        } else {
            stats.packets_allowed
        },
        packets_blocked: if decision is Block {
            bumped(stats.packets_blocked)
        } else {
            stats.packets_blocked
        },
        packets_quarantined: if decision is Quarantine {
            bumped(stats.packets_quarantined)
        } else {
            stats.packets_quarantined
        },
        packets_alerted: if decision is Alert {
            bumped(stats.packets_alerted)
        } else {
            stats.packets_alerted
        },
        detection_events: if raises_event(outcome, threshold) {
            bumped(stats.detection_events)
        } else {
            stats.detection_events
        },
        scoring_failures: if outcome is Score {
            stats.scoring_failures
        } else {
            bumped(stats.scoring_failures)
        },
        total_analysis_time_us: accumulated(stats.total_analysis_time_us, analysis_time_us),
        ..stats
    }
}

/// The text that describes a detection.
pub open spec fn description_of(score: Ppm) -> Seq<char> {
    "Anomalie détectée avec un score de "@ + two_decimal_digits(score)
}

/// The event raised for a packet whose score reached the threshold.
pub open spec fn detected(
    packet: NetworkPacket,
    score: Ppm,
    threshold: Ppm,
    decision: FirewallDecision,
    uuid: Seq<char>,
    now: u64,
) -> DetectionEventView {
    DetectionEventView {
        id: "event-"@ + uuid,
        timestamp: now,
        anomaly_score: score,
        threshold,
        decision,
        related_packets: seq![packet.id@],
        trigger_features: feature_names(),
        description: description_of(score),
    }
}

/// The firewall after a packet has been analysed.
pub open spec fn after_analysis(
    v: NeuroFireWallView,
    packet: NetworkPacket,
    outcome: ScoringOutcome,
    analysis_time_us: u64,
) -> NeuroFireWallView {
    let threshold = threshold_for(v, packet.traffic_type);
    NeuroFireWallView {
        buffer: pushed(v.buffer, packet, v.buffer_capacity),
        stats: counted(
            v.stats,
            decision_on(outcome, threshold, v.config.strict_mode),
            outcome,
            threshold,
            analysis_time_us,
        ),
        ..v
    }
}

/// An analysis lets no counter fall, and counts the packet under its
/// decision and, where an event was raised, under the events.
pub proof fn lemma_analysis_is_counted(
    stats: NeuroFireWallStats,
    decision: FirewallDecision,
    outcome: ScoringOutcome,
    threshold: Ppm,
    analysis_time_us: u64,
)
    ensures
        ({
            let next = counted(stats, decision, outcome, threshold, analysis_time_us);
            &&& next.total_packets_analyzed >= stats.total_packets_analyzed
            &&& next.packets_allowed >= stats.packets_allowed
            &&& next.packets_blocked >= stats.packets_blocked
            &&& next.packets_quarantined >= stats.packets_quarantined
            &&& next.packets_alerted >= stats.packets_alerted
            &&& next.detection_events >= stats.detection_events
            &&& next.scoring_failures >= stats.scoring_failures
            &&& next.total_analysis_time_us >= stats.total_analysis_time_us
            &&& stats.total_packets_analyzed < u64::MAX ==> next.total_packets_analyzed
                == stats.total_packets_analyzed + 1
            &&& stats.detection_events < u64::MAX ==> next.detection_events
                == stats.detection_events + if raises_event(outcome, threshold) {
                1int
            } else {
                0int
            }
        }),
{
}

/// The counters of a firewall in which nothing has happened yet.
pub open spec fn initial_stats() -> NeuroFireWallStats {
    NeuroFireWallStats {
        total_packets_analyzed: 0,
        packets_allowed: 0,
        packets_blocked: 0,
        packets_quarantined: 0,
        packets_alerted: 0,
        detection_events: 0,
        scoring_failures: 0,
        total_analysis_time_us: 0,
        false_positive_rate: 0,
        false_negative_rate: 0,
        learning_cycles: 0,
        uptime_seconds: 0,
    }
}

/// The thresholds of a new firewall: every class of traffic starts from the
/// threshold of the settings, limited to the unit interval, and thresholds
/// adapt where learning is switched on.
pub open spec fn initial_thresholds(config: NeuroFireWallConfig) -> ThresholdView {
    let base = if config.anomaly_threshold > ONE {
        ONE
    } else {
        config.anomaly_threshold
    };
    ThresholdView {
        base,
        max_step: config.max_threshold_step,
        target_false_positive_rate: config.target_false_positive_rate,
        adaptive: config.enable_continuous_learning,
        stable: Seq::new(TRAFFIC_CLASSES as nat, |i: int| base),
        pending: None,
    }
}

/// The firewall after a learning cycle has begun.
pub open spec fn learning_begun(v: NeuroFireWallView) -> NeuroFireWallView {
    NeuroFireWallView {
        state: NeuroFireWallState::Learning,
        thresholds: cycle_begun(v.thresholds),
        ..v
    }
}

/// The firewall after a whole learning cycle: every threshold has answered
/// the rates of false positives and negatives that the counters hold.
pub open spec fn after_learning(v: NeuroFireWallView) -> NeuroFireWallView {
    NeuroFireWallView {
        state: NeuroFireWallState::Operational,
        thresholds: learned(v.thresholds, v.stats.false_positive_rate, v.stats.false_negative_rate),
        stats: NeuroFireWallStats { learning_cycles: bumped(v.stats.learning_cycles), ..v.stats },
        ..v
    }
}

/// Counts one more packet.
fn count(
    stats: NeuroFireWallStats,
    decision: FirewallDecision,
    outcome: ScoringOutcome,
    threshold: Ppm,
    analysis_time_us: u64,
) -> (r: NeuroFireWallStats)
    ensures
        r == counted(stats, decision, outcome, threshold, analysis_time_us),
{
    let mut next = stats;
    next.total_packets_analyzed = bump(stats.total_packets_analyzed);
    match decision {
        FirewallDecision::Allow => {
            next.packets_allowed = bump(stats.packets_allowed);
        },
        FirewallDecision::Block => {
            next.packets_blocked = bump(stats.packets_blocked);
        },
        FirewallDecision::Quarantine => {
            next.packets_quarantined = bump(stats.packets_quarantined);
        },
        FirewallDecision::Alert => {
            next.packets_alerted = bump(stats.packets_alerted);
        },
        _ => {},
    }
    match outcome {
        ScoringOutcome::Score(score) => {
            if score >= threshold {
                next.detection_events = bump(stats.detection_events);
            }
        },
        _ => {
            next.scoring_failures = bump(stats.scoring_failures);
        },
    }
    next.total_analysis_time_us = accumulate(stats.total_analysis_time_us, analysis_time_us);
    next
}

/// The firewall.
pub struct NeuroFireWall {
    config: NeuroFireWallConfig,
    state: NeuroFireWallState,
    stats: NeuroFireWallStats,
    packet_buffer: ObservationBuffer,
    thresholds: ThresholdManager,
}

impl View for NeuroFireWall {
    type V = NeuroFireWallView;

    closed spec fn view(&self) -> NeuroFireWallView {
        NeuroFireWallView {
            config: self.config,
            state: self.state,
            stats: self.stats,
            buffer: self.packet_buffer@,
            buffer_capacity: self.packet_buffer.limit(),
            thresholds: self.thresholds@,
        }
    }
}

impl NeuroFireWall {
    /// A firewall with the settings given, not yet initialised.
    pub fn new(config: NeuroFireWallConfig) -> (r: Self)
        ensures
            r@.config == config,
            r@.state == NeuroFireWallState::Initializing,
            r@.stats == initial_stats(),
            r@.buffer == Seq::<NetworkPacket>::empty(),
            r@.buffer_capacity == config.buffer_size,
            r@.thresholds == initial_thresholds(config),
    {
        let thresholds = ThresholdManager::new(
            config.anomaly_threshold,
            config.max_threshold_step,
            config.target_false_positive_rate,
            config.enable_continuous_learning,
            TRAFFIC_CLASSES,
        );
        NeuroFireWall {
            config,
            state: NeuroFireWallState::Initializing,
            stats: NeuroFireWallStats {
                total_packets_analyzed: 0,
                packets_allowed: 0,
                packets_blocked: 0,
                packets_quarantined: 0,
                packets_alerted: 0,
                detection_events: 0,
                scoring_failures: 0,
                total_analysis_time_us: 0,
                false_positive_rate: 0,
                false_negative_rate: 0,
                learning_cycles: 0,
                uptime_seconds: 0,
            },
            packet_buffer: ObservationBuffer::new(config.buffer_size),
            thresholds,
        }
    }

    /// Makes the firewall operational.
    pub fn initialize(&mut self) -> (r: Result<(), FirewallError>)
        ensures
            r is Ok,
            final(self)@ == (NeuroFireWallView {
                state: NeuroFireWallState::Operational,
                ..old(self)@
            }),
    {
        self.state = NeuroFireWallState::Operational;
        Ok(())
    }

    /// Shuts the firewall down.
    pub fn shutdown(&mut self) -> (r: Result<(), FirewallError>)
        ensures
            r is Ok,
            final(self)@ == (NeuroFireWallView {
                state: NeuroFireWallState::Shutdown,
                ..old(self)@
            }),
    {
        self.state = NeuroFireWallState::Shutdown;
        Ok(())
    }

    /// Puts the firewall in the state given.
    pub fn set_state(&mut self, state: NeuroFireWallState)
        ensures
            final(self)@ == (NeuroFireWallView { state, ..old(self)@ }),
    {
        self.state = state;
    }

    /// The state of the firewall.
    pub fn get_state(&self) -> (r: NeuroFireWallState)
        ensures
            r == self@.state,
    {
        self.state.clone()
    }

    /// The counters of the firewall.
    pub fn get_stats(&self) -> (r: NeuroFireWallStats)
        ensures
            r == self@.stats,
    {
        self.stats
    }

    /// The number of packets in the buffer of recent packets.
    pub fn buffered(&self) -> (r: usize)
        ensures
            r == self@.buffer.len(),
            r <= self@.buffer_capacity,
    {
        self.packet_buffer.len()
    }

    /// The threshold in force for a class of traffic.
    pub fn current_threshold(&self, traffic_type: TrafficType) -> (r: Ppm)
        ensures
            r == threshold_for(self@, traffic_type),
            is_unit(r),
    {
        self.thresholds.threshold(traffic_type.context())
    }

    /// Turns a packet into its features.
    pub fn extract_features(&self, packet: &NetworkPacket) -> (r: Result<
        PacketFeatures,
        FirewallError,
    >)
        ensures
            r is Ok,
            r->Ok_0.features@ == feature_values(*packet),
            r->Ok_0.features@.len() == FEATURE_COUNT,
            texts(r->Ok_0.feature_labels@) == feature_names(),
            r->Ok_0.feature_labels@.len() == FEATURE_COUNT,
            r->Ok_0.packet_id@ == packet.id@,
    {
        Ok(extract(packet))
    }

    /// Decides on a score for a packet of the class of traffic given.
    pub fn make_decision(&self, anomaly_score: Ppm, traffic_type: TrafficType) -> (r:
        FirewallDecision)
        ensures
            r == decision_for(
                anomaly_score,
                threshold_for(self@, traffic_type),
                self@.config.strict_mode,
            ),
    {
        decide(anomaly_score, self.current_threshold(traffic_type), self.config.strict_mode)
    }

    /// Records the rates of false positives and negatives that have been
    /// observed, each limited to the unit interval. The next learning cycle
    /// answers them.
    pub fn report_feedback(&mut self, false_positive_rate: Ppm, false_negative_rate: Ppm)
        ensures
            final(self)@ == (NeuroFireWallView {
                stats: NeuroFireWallStats {
                    false_positive_rate: if false_positive_rate > ONE {
                        ONE
                    } else {
                        false_positive_rate
                    },
                    false_negative_rate: if false_negative_rate > ONE {
                        ONE
                    } else {
                        false_negative_rate
                    },
                    ..old(self)@.stats
                },
                ..old(self)@
            }),
    {
        self.stats.false_positive_rate = if false_positive_rate > ONE {
            ONE
        } else {
            false_positive_rate
        };
        self.stats.false_negative_rate = if false_negative_rate > ONE {
            ONE
        } else {
            false_negative_rate
        };
    }

    /// Analyses a packet for which the oracle answered `scoring`, at time
    /// `now`, having taken `analysis_time_us` microseconds. The packet goes
    /// into the buffer of recent packets, and is counted. A detection event
    /// is raised exactly when a score reached the threshold; its identifier
    /// is `event-` followed by `uuid`.
    pub fn analyze_packet_at(
        &mut self,
        packet: NetworkPacket,
        scoring: ScoringOutcome,
        uuid: &str,
        now: u64,
        analysis_time_us: u64,
    ) -> (r: Result<(FirewallDecision, Option<DetectionEvent>), FirewallError>)
        ensures
            !analyses(old(self)@.state) ==> r == Err::<
                (FirewallDecision, Option<DetectionEvent>),
                FirewallError,
            >(FirewallError::NotOperational(old(self)@.state)) && final(self)@ == old(self)@,
            analyses(old(self)@.state) ==> r is Ok && r->Ok_0.0 == decision_on(
                scoring,
                threshold_for(old(self)@, packet.traffic_type),
                old(self)@.config.strict_mode,
            ) && final(self)@ == after_analysis(old(self)@, packet, scoring, analysis_time_us),
            analyses(old(self)@.state) ==> (r->Ok_0.1 is Some <==> raises_event(
                scoring,
                threshold_for(old(self)@, packet.traffic_type),
            )),
            analyses(old(self)@.state) && r->Ok_0.1 is Some ==> r->Ok_0.1->Some_0@ == detected(
                packet,
                scoring->Score_0,
                threshold_for(old(self)@, packet.traffic_type),
                r->Ok_0.0,
                uuid@,
                now,
            ),
    {
        if !self.state.analyses() {
            return Err(FirewallError::NotOperational(self.state.clone()));
        }
        let threshold = self.current_threshold(packet.traffic_type);
        let decision = decide_on(scoring, threshold, self.config.strict_mode);
        let event = match scoring {
            ScoringOutcome::Score(score) => {
                if score >= threshold {
                    let mut related: Vec<String> = Vec::new();
                    related.push(packet.id.clone());
                    assert(texts(related@) =~= seq![packet.id@]);
                    let figures = two_decimals(score);
                    Some(
                        DetectionEvent {
                            id: join("event-", uuid),
                            timestamp: now,
                            anomaly_score: score,
                            threshold,
                            decision,
                            related_packets: related,
                            trigger_features: feature_labels(),
                            description: join(
                                "Anomalie détectée avec un score de ",
                                figures.as_str(),
                            ),
                        },
                    )
                } else {
                    None
                }
            },
            _ => None,
        };
        let _ = self.packet_buffer.push(packet);
        self.stats = count(self.stats, decision, scoring, threshold, analysis_time_us);
        Ok((decision, event))
    }

    /// Analyses a packet for which the oracle answered `scoring`. The
    /// identifier of a detection event is drawn at random, and the time is
    /// read from the clock, on which the time that the analysis took is
    /// measured too.
    pub fn analyze_packet(&mut self, packet: NetworkPacket, scoring: ScoringOutcome) -> (r: Result<
        (FirewallDecision, Option<DetectionEvent>),
        FirewallError,
    >)
        ensures
            !analyses(old(self)@.state) ==> r == Err::<
                (FirewallDecision, Option<DetectionEvent>),
                FirewallError,
            >(FirewallError::NotOperational(old(self)@.state)) && final(self)@ == old(self)@,
            analyses(old(self)@.state) ==> r is Ok && r->Ok_0.0 == decision_on(
                scoring,
                threshold_for(old(self)@, packet.traffic_type),
                old(self)@.config.strict_mode,
            ) && exists|analysis_time_us: u64|
                final(self)@ == #[trigger] after_analysis(
                    old(self)@,
                    packet,
                    scoring,
                    analysis_time_us,
                ),
            analyses(old(self)@.state) ==> (r->Ok_0.1 is Some <==> raises_event(
                scoring,
                threshold_for(old(self)@, packet.traffic_type),
            )),
            analyses(old(self)@.state) && r->Ok_0.1 is Some ==> exists|uuid: Seq<char>, now: u64|
                uuid.len() == UUID_TEXT_LEN && r->Ok_0.1->Some_0@ == #[trigger] detected(
                    packet,
                    scoring->Score_0,
                    threshold_for(old(self)@, packet.traffic_type),
                    r->Ok_0.0,
                    uuid,
                    now,
                ),
    {
        let begun = clock_micros();
        let uuid = random_uuid();
        let analysed = self.state.analyses();
        let r = self.analyze_packet_at(packet, scoring, uuid.as_str(), begun / 1_000_000, 0);
        if analysed {
            // The packet is analysed: the time that the analysis took is booked with it.
            let ended = clock_micros();
            let analysis_time_us = if ended >= begun {
                ended - begun
            } else {
                0
            };
            self.stats.total_analysis_time_us = accumulate(
                self.stats.total_analysis_time_us,
                analysis_time_us,
            );
            assert(self@ == after_analysis(old(self)@, packet, scoring, analysis_time_us));
        }
        r
    }

    /// Whether a learning cycle is due `seconds_since_last_cycle` seconds
    /// after the last one: it is once the interval of the settings has
    /// passed, where learning is switched on.
    pub fn is_learning_due(&self, seconds_since_last_cycle: u64) -> (r: bool)
        ensures
            r == (self@.config.enable_continuous_learning && seconds_since_last_cycle
                >= self@.config.learning_interval),
    {
        self.config.enable_continuous_learning && seconds_since_last_cycle
            >= self.config.learning_interval
    }

    /// Why a learning cycle cannot begin, if it cannot.
    pub open spec fn learning_refusal(v: NeuroFireWallView) -> Option<FirewallError> {
        if !v.config.enable_continuous_learning {
            Some(FirewallError::LearningDisabled)
        } else if v.thresholds.pending is Some {
            Some(FirewallError::LearningInProgress)
        } else {
            None
        }
    }

    /// Begins a learning cycle. Until the cycle is completed the firewall
    /// goes on analysing packets against the thresholds that were in force
    /// when it began.
    pub fn begin_learning_cycle(&mut self) -> (r: Result<(), FirewallError>)
        ensures
            match Self::learning_refusal(old(self)@) {
                Some(e) => r == Err::<(), FirewallError>(e) && final(self)@ == old(self)@,
                None => r is Ok && final(self)@ == learning_begun(old(self)@),
            },
    {
        if !self.config.enable_continuous_learning {
            return Err(FirewallError::LearningDisabled);
        }
        match self.thresholds.begin_cycle() {
            Ok(()) => {
                self.state = NeuroFireWallState::Learning;
                Ok(())
            },
            Err(_) => Err(FirewallError::LearningInProgress),
        }
    }

    /// Completes the learning cycle in progress: every threshold answers the
    /// rates of false positives and negatives that the counters hold, the
    /// new thresholds come into force together, and the firewall is
    /// operational again.
    pub fn complete_learning_cycle(&mut self) -> (r: Result<(), FirewallError>)
        ensures
            old(self)@.thresholds.pending is None ==> r == Err::<(), FirewallError>(
                FirewallError::NotLearning,
            ) && final(self)@ == old(self)@,
            old(self)@.thresholds.pending is Some ==> r is Ok && final(self)@ == after_learning(
                old(self)@,
            ),
    {
        if !self.thresholds.is_learning() {
            return Err(FirewallError::NotLearning);
        }
        let fed = self.thresholds.feed_all(
            self.stats.false_positive_rate,
            self.stats.false_negative_rate,
        );
        let done = self.thresholds.commit_cycle();
        self.stats.learning_cycles = bump(self.stats.learning_cycles);
        self.state = NeuroFireWallState::Operational;
        Ok(())
    }

    /// Runs a whole learning cycle.
    pub fn run_learning_cycle(&mut self) -> (r: Result<(), FirewallError>)
        ensures
            match Self::learning_refusal(old(self)@) {
                Some(e) => r == Err::<(), FirewallError>(e) && final(self)@ == old(self)@,
                None => r is Ok && final(self)@ == after_learning(old(self)@),
            },
    {
        match self.begin_learning_cycle() {
            Ok(()) => self.complete_learning_cycle(),
            Err(e) => Err(e),
        }
    }
}

} // verus!
