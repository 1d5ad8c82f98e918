//! Threat detection and autonomous response core.
//!
//! Observations are scored, turned into firewall decisions and detection
//! events, normalised into threat events, and answered by response plans
//! that run through an execution state machine.

pub mod aegis;
pub mod backend;
pub mod crypto;
pub mod dashboard;
pub mod fixed;
pub mod host;
pub mod neural_net;
pub mod neurofirewall;
pub mod normalizer;
pub mod table;
pub mod text;
pub mod warpshield;
