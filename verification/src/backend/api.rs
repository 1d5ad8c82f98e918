//! The answer of the dashboard's programming interface.

use vstd::prelude::*;

verus! {

/// What the interface answers.
#[derive(Debug)]
pub struct DashboardData {
    pub system_status: String,
    pub active_threats: u32,
    pub analyzed_packets: u64,
    pub quantum_vault_status: String,
}

/// An answer with fixed values, for display before real data is at hand.
pub fn get_mock_data() -> (r: DashboardData)
    ensures
        r.system_status@ == "Operational"@,
        r.active_threats == 5,
        r.analyzed_packets == 1_234_567_890,
        r.quantum_vault_status@ == "Secured"@,
{
    DashboardData {
        system_status: "Operational".to_owned(),
        active_threats: 5,
        analyzed_packets: 1_234_567_890,
        quantum_vault_status: "Secured".to_owned(),
    }
}

} // verus!
