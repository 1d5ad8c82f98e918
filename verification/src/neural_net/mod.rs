//! The detection engine: features, anomaly scores and adaptive thresholds.

use vstd::prelude::*;
use crate::fixed::Ppm;

pub mod anomaly_detection;
pub mod feature_extraction;
pub mod inference;
pub mod model_training;
pub mod thresholds;
pub mod transformer;

verus! {

/// Settings of the engine.
#[derive(Debug)]
pub struct NeuralNetConfig {
    pub attention_heads: usize,
    pub hidden_dimensions: usize,
    pub max_sequence_length: usize,
    pub anomaly_threshold: Ppm,
    /// Seconds between two rounds of adaptive learning.
    pub adaptive_learning_interval: u64,
    pub use_gpu_acceleration: bool,
    /// Where the trained models are kept.
    pub model_path: String,
}

impl Clone for NeuralNetConfig {
    fn clone(&self) -> (r: Self)
        ensures
            r == *self,
    {
        NeuralNetConfig {
            attention_heads: self.attention_heads,
            hidden_dimensions: self.hidden_dimensions,
            max_sequence_length: self.max_sequence_length,
            anomaly_threshold: self.anomaly_threshold,
            adaptive_learning_interval: self.adaptive_learning_interval,
            use_gpu_acceleration: self.use_gpu_acceleration,
            model_path: self.model_path.clone(),
        }
    }
}

impl Default for NeuralNetConfig {
    fn default() -> (r: Self)
        ensures
            r.attention_heads == 24,
            r.hidden_dimensions == 2048,
            r.max_sequence_length == 4096,
            r.anomaly_threshold == 850_000,
            r.adaptive_learning_interval == 3600,
            r.use_gpu_acceleration,
            r.model_path@ == "/opt/icarus/models/neural_net"@,
    {
        NeuralNetConfig {
            attention_heads: 24,
            hidden_dimensions: 2048,
            max_sequence_length: 4096,
            anomaly_threshold: 850_000,
            adaptive_learning_interval: 3600,
            use_gpu_acceleration: true,
            model_path: "/opt/icarus/models/neural_net".to_owned(),
        }
    }
}

/// Where the engine stands.
#[derive(Debug, PartialEq)]
pub enum NeuralNetState {
    Initializing,
    Ready,
    Learning,
    Error(String),
}

impl Clone for NeuralNetState {
    fn clone(&self) -> (r: Self)
        ensures
            r == *self,
    {
        match self {
            NeuralNetState::Initializing => NeuralNetState::Initializing,
            NeuralNetState::Ready => NeuralNetState::Ready,
            NeuralNetState::Learning => NeuralNetState::Learning,
            NeuralNetState::Error(detail) => NeuralNetState::Error(detail.clone()),
        }
    }
}

/// The categories of threat that the engine tells apart.
#[derive(Debug, Clone, Copy, PartialEq, Eq, Structural)]
pub enum ThreatType {
    DenialOfService,
    PortScan,
    DataExfiltration,
    SqlInjection,
    Xss,
    BruteForce,
    Malware,
    CommandAndControl,
    UnknownZeroDay,
}

/// What the analysis of a flow gave.
#[derive(Debug, Clone, Copy, PartialEq, Eq, Structural)]
pub struct ThreatAnalysisResult {
    pub threat_detected: bool,
    pub confidence: Ppm,
    pub threat_type: Option<ThreatType>,
    pub analysis_time_us: u64,
    pub anomaly_score: Ppm,
}

/// Why the engine refused a request. No request is refused at present.
#[derive(Debug, Clone, Copy, PartialEq, Eq, Structural)]
pub enum EngineError {
    /// The engine is not ready.
    NotReady,
}

/// The time that the analysis of a flow is taken to need, in microseconds.
pub const NOMINAL_ANALYSIS_TIME_US: u64 = 150;

/// The result of an analysis that found nothing.
pub open spec fn nothing_found() -> ThreatAnalysisResult {
    ThreatAnalysisResult {
        threat_detected: false,
        confidence: 0,
        threat_type: None,
        analysis_time_us: NOMINAL_ANALYSIS_TIME_US,
        anomaly_score: 0,
    }
}

/// The engine.
pub struct NeuralNetEngine {
    config: NeuralNetConfig,
    state: NeuralNetState,
}

impl NeuralNetEngine {
    /// The settings of the engine.
    pub closed spec fn settings(&self) -> NeuralNetConfig {
        self.config
    }

    /// The state of the engine.
    pub closed spec fn current_state(&self) -> NeuralNetState {
        self.state
    }

    /// An engine with the settings given, ready for use.
    pub fn new(config: NeuralNetConfig) -> (r: Result<Self, EngineError>)
        ensures
            r is Ok,
            r->Ok_0.settings() == config,
            r->Ok_0.current_state() == NeuralNetState::Ready,
    {
        Ok(NeuralNetEngine { config, state: NeuralNetState::Ready })
    }

    /// Analyses a flow. No model is loaded, so nothing is found in any flow.
    pub fn analyze_network_flow(&self, flow_data: &[u8]) -> (r: Result<
        ThreatAnalysisResult,
        EngineError,
    >)
        ensures
            r == Ok::<ThreatAnalysisResult, EngineError>(nothing_found()),
    {
        Ok(
            ThreatAnalysisResult {
                threat_detected: false,
                confidence: 0,
                threat_type: None,
                analysis_time_us: NOMINAL_ANALYSIS_TIME_US,
                anomaly_score: 0,
            },
        )
    }

    /// Marks the start of a round of adaptive learning.
    pub fn begin_adaptive_learning(&mut self)
        ensures
            final(self).settings() == old(self).settings(),
            final(self).current_state() == NeuralNetState::Learning,
    {
        self.state = NeuralNetState::Learning;
    }

    /// Marks the end of a round of adaptive learning.
    pub fn finish_adaptive_learning(&mut self)
        ensures
            final(self).settings() == old(self).settings(),
            final(self).current_state() == NeuralNetState::Ready,
    {
        self.state = NeuralNetState::Ready;
    }

    /// Runs a round of adaptive learning, after which the engine is ready again.
    pub fn trigger_adaptive_learning(&mut self) -> (r: Result<(), EngineError>)
        ensures
            r is Ok,
            final(self).settings() == old(self).settings(),
            final(self).current_state() == NeuralNetState::Ready,
    {
        self.begin_adaptive_learning();
        self.finish_adaptive_learning();
        Ok(())
    }

    /// The state of the engine.
    pub fn get_state(&self) -> (r: NeuralNetState)
        ensures
            r == self.current_state(),
    {
        self.state.clone()
    }
}

} // verus!
