//! System-wide events and their envelopes.
use vstd::prelude::*;
use crate::kernel::agent_lifecycle::AgentState;
use crate::kernel::protocol::{is_v4_uuid, new_uuid, now_millis, AgentMessage};

verus! {

/// Something that happened in the system.
#[derive(Debug)]
pub enum SystemEvent {
    AgentReady(String),
    LlmResponse { request_id: String, text: String },
    HardwareTrigger { pin: u8, state: bool },
    SystemHeartbeat,
    ShutdownInitiated,
    AgentMessage(AgentMessage),
    AgentStateChanged { agent_id: String, old_state: AgentState, new_state: AgentState },
    Error(String),
    HardwareAction { device_id: String, action: String },
}

/// An event stamped with a fresh identifier (a UUID value) and the time in
/// milliseconds since the Unix epoch.
#[derive(Debug)]
pub struct EventEnvelope {
    pub id: u128,
    pub timestamp_ms: i64,
    pub payload: SystemEvent,
}

impl EventEnvelope {
    /// Wraps `payload` with a new random identifier and the current time.
    pub fn new(payload: SystemEvent) -> (r: Self)
        ensures
            r.payload == payload,
            is_v4_uuid(r.id),
    {
        EventEnvelope { id: new_uuid(), timestamp_ms: now_millis(), payload }
    }
}

} // verus!
