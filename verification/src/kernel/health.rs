//! The health report served over HTTP.
use vstd::prelude::*;

verus! {

#[derive(Debug)]
pub struct HealthResponse {
    pub status: String,
    pub active_agents: usize,
    pub zero_mock_policy: bool,
}

impl HealthResponse {
    /// The report for a running kernel with `active_agents` agents.
    pub fn up(active_agents: usize) -> (r: Self)
        ensures
            r.status@ == "up"@,
            r.active_agents == active_agents,
            r.zero_mock_policy,
    {
        HealthResponse { status: "up".to_string(), active_agents, zero_mock_policy: true }
    }
}

} // verus!
