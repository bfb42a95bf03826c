//! Lifecycle states of a kernel agent and the transitions between them.
use vstd::prelude::*;

verus! {

/// The lifecycle state of an agent.
#[derive(Debug, Clone, Copy, PartialEq, Eq, Structural)]
pub enum AgentState {
    Created,
    Idle,
    Planning,
    Executing,
    Validating,
    Reporting,
    Paused,
    Completed,
    Error,
}

/// The authority an agent holds.
#[derive(Debug, Clone, Copy, PartialEq, Eq, Structural)]
pub enum AgentAclLevel {
    Observer,
    SemiAutonomous,
    FullAuthority,
}

/// The allowed lifecycle transitions: the standard flow
/// Created → Idle → Planning → Executing → Validating → Reporting → Completed,
/// looping back Reporting → Idle, pausing from anywhere, resuming Paused → Idle,
/// failing from anywhere and recovering Error → Idle.
pub open spec fn transition_allowed(from: AgentState, to: AgentState) -> bool {
    match (from, to) {
        (AgentState::Created, AgentState::Idle) => true,
        (AgentState::Idle, AgentState::Planning) => true,
        (AgentState::Planning, AgentState::Executing) => true,
        (AgentState::Executing, AgentState::Validating) => true,
        (AgentState::Validating, AgentState::Reporting) => true,
        (AgentState::Reporting, AgentState::Completed) => true,
        (AgentState::Reporting, AgentState::Idle) => true,
        (_, AgentState::Paused) => true,
        (AgentState::Paused, AgentState::Idle) => true,
        (_, AgentState::Error) => true,
        (AgentState::Error, AgentState::Idle) => true,
        _ => false,
    }
}

impl AgentState {
    /// Whether the lifecycle allows moving from `self` to `new_state`.
    pub fn can_transition_to(&self, new_state: AgentState) -> (r: bool)
        ensures
            r == transition_allowed(*self, new_state),
    {
        match (self, new_state) {
            (AgentState::Created, AgentState::Idle) => true,
            (AgentState::Idle, AgentState::Planning) => true,
            (AgentState::Planning, AgentState::Executing) => true,
            (AgentState::Executing, AgentState::Validating) => true,
            (AgentState::Validating, AgentState::Reporting) => true,
            (AgentState::Reporting, AgentState::Completed) => true,
            (AgentState::Reporting, AgentState::Idle) => true,
            (_, AgentState::Paused) => true,
            (AgentState::Paused, AgentState::Idle) => true,
            (_, AgentState::Error) => true,
            (AgentState::Error, AgentState::Idle) => true,
            _ => false,
        }
    }
}

/// Every state may be paused and may fail.
pub proof fn lemma_pause_and_error_always_allowed(s: AgentState)
    ensures
        transition_allowed(s, AgentState::Paused),
        transition_allowed(s, AgentState::Error),
{
}

/// An agent that was paused or failed can always return to `Idle`.
pub proof fn lemma_recovery_to_idle(s: AgentState)
    requires
        s == AgentState::Paused || s == AgentState::Error || s == AgentState::Created
            || s == AgentState::Reporting,
    ensures
        transition_allowed(s, AgentState::Idle),
{
}

/// No state leads back to `Created`, and `Completed` is reached only from `Reporting`.
pub proof fn lemma_created_unreachable_completed_from_reporting(s: AgentState)
    ensures
        !transition_allowed(s, AgentState::Created),
        transition_allowed(s, AgentState::Completed) <==> s == AgentState::Reporting,
{
}

/// `Completed` can only be left by pausing or failing.
pub proof fn lemma_completed_exits(t: AgentState)
    ensures
        transition_allowed(AgentState::Completed, t) <==> (t == AgentState::Paused || t
            == AgentState::Error),
{
}

} // verus!
