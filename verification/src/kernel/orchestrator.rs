//! The kernel's orchestrator: hands each request to the intent judge and
//! reports the judge's analysis back to the sender.
use vstd::prelude::*;
use crate::kernel::agent_lifecycle::{AgentAclLevel, AgentState};
use crate::kernel::protocol::{str_of, AgentMessage, JsonValue};

verus! {

/// A routed answer: status "routed", then the judge's payload as the analysis.
pub open spec fn is_routed(v: JsonValue, analysis: JsonValue) -> bool {
    &&& v matches JsonValue::Object(m)
    &&& m@.len() == 2
    &&& m@[0].0@ == "status"@
    &&& str_of(m@[0].1) == Some("routed"@)
    &&& m@[1].0@ == "intent_analysis"@
    &&& m@[1].1 == analysis
}

/// Routes requests through the intent judge. The agents it talks to are
/// driven by the caller: it says what to send and what to answer.
pub struct OrchestratorAgent {
    id: String,
    state: AgentState,
}

impl OrchestratorAgent {
    pub closed spec fn id_view(&self) -> Seq<char> {
        self.id@
    }

    pub closed spec fn state_view(&self) -> AgentState {
        self.state
    }

    /// The orchestrator "orchestrator_01", idle.
    pub fn new() -> (r: Self)
        ensures
            r.id_view() == "orchestrator_01"@,
            r.state_view() == AgentState::Idle,
    {
        OrchestratorAgent { id: "orchestrator_01".to_string(), state: AgentState::Idle }
    }

    pub fn id(&self) -> (r: &str)
        ensures
            r@ == self.id_view(),
    {
        self.id.as_str()
    }

    pub fn name(&self) -> (r: &'static str)
        ensures
            r@ == "Orchestrator"@,
    {
        "Orchestrator"
    }

    pub fn status(&self) -> (r: AgentState)
        ensures
            r == self.state_view(),
    {
        self.state
    }

    pub fn acl_level(&self) -> (r: AgentAclLevel)
        ensures
            r == AgentAclLevel::FullAuthority,
    {
        AgentAclLevel::FullAuthority
    }

    /// Starts handling `msg`: the orchestrator is executing and returns the
    /// message for the intent judge, which carries the request's payload,
    /// together with the sender to answer.
    pub fn begin_execute(&mut self, msg: AgentMessage) -> (r: (AgentMessage, String))
        ensures
            final(self).state_view() == AgentState::Executing,
            final(self).id_view() == old(self).id_view(),
            r.0.from@ == old(self).id_view(),
            r.0.to@ == "intent_judge_01"@,
            r.0.payload == msg.payload,
            r.0.correlation_id is None,
            r.1 == msg.from,
    {
        self.state = AgentState::Executing;
        let judge_msg = AgentMessage::new(self.id.clone(), "intent_judge_01".to_string(), msg.payload);
        (judge_msg, msg.from)
    }

    /// Finishes handling a request once the judge has answered: its reply goes
    /// back to `caller` as a routed analysis; without a reply there is no
    /// answer. The orchestrator is idle again.
    pub fn finish_execute(&mut self, caller: String, judge_reply: Option<AgentMessage>) -> (r:
        Option<AgentMessage>)
        ensures
            final(self).state_view() == AgentState::Idle,
            final(self).id_view() == old(self).id_view(),
            match judge_reply {
                None => r is None,
                Some(resp) => r matches Some(m) && {
                    &&& m.from@ == old(self).id_view()
                    &&& m.to == caller
                    &&& m.correlation_id is None
                    &&& is_routed(m.payload, resp.payload)
                },
            },
    {
        let response = match judge_reply {
            Some(resp) => {
                let mut members: Vec<(String, JsonValue)> = Vec::new();
                members.push(("status".to_string(), JsonValue::Str("routed".to_string())));
                members.push(("intent_analysis".to_string(), resp.payload));
                Some(AgentMessage::new(self.id.clone(), caller, JsonValue::Object(members)))
            },
            None => None,
        };
        self.state = AgentState::Idle;
        response
    }

    pub fn pause(&mut self) -> (r: Result<(), String>)
        ensures
            r is Ok,
            final(self).state_view() == AgentState::Paused,
            final(self).id_view() == old(self).id_view(),
    {
        self.state = AgentState::Paused;
        Ok(())
    }

    pub fn resume(&mut self) -> (r: Result<(), String>)
        ensures
            r is Ok,
            final(self).state_view() == AgentState::Idle,
            final(self).id_view() == old(self).id_view(),
    {
        self.state = AgentState::Idle;
        Ok(())
    }
}

} // verus!
