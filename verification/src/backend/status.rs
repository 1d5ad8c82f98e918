//! The short status report of the dashboard.

use vstd::prelude::*;

verus! {

/// The short status report.
#[derive(Debug)]
pub struct DashboardData {
    pub status: String,
    pub active_threats: u32,
    pub monitored_endpoints: u32,
}

/// A status report with fixed values, for display before real data is at hand.
pub fn get_mock_data() -> (r: DashboardData)
    ensures
        r.status@ == "operational"@,
        r.active_threats == 0,
        r.monitored_endpoints == 1,
{
    DashboardData { status: "operational".to_owned(), active_threats: 0, monitored_endpoints: 1 }
}

} // verus!
