//! Desktop agents: each recognises the tasks it handles and reports its name.
use vstd::prelude::*;

pub mod diagnostic;
pub mod document_analyst;
pub mod hardware;
pub mod intent_judge;
pub mod market_analyst;
pub mod supervisor;
pub mod system_manager;
pub mod voice_handler;

verus! {

/// How much the assistant may do without asking.
#[derive(Debug, Clone, Copy, PartialEq, Eq, Structural)]
pub enum ApprovalLevel {
    Observer,
    SemiAutonomous,
    Strategic,
}

/// An agent of the desktop assistant.
pub trait Agent {
    /// The agent's display name.
    fn name(&self) -> String;

    /// What the agent does.
    fn description(&self) -> String;

    /// Whether the agent recognises `task` as its own.
    fn can_handle(&self, task: &str) -> bool;
}

} // verus!
