//! The system manager agent: recognises system status requests.
use vstd::prelude::*;
use crate::desktop::agents::Agent;
use crate::text::{contains, has_sub};

verus! {

pub struct SystemManager;

/// Tasks about the system, memory or processor.
pub open spec fn system_task(task: Seq<char>) -> bool {
    has_sub(task, "sistem"@) || has_sub(task, "ram"@) || has_sub(task, "cpu"@) || has_sub(
        task,
        "system"@,
    )
}

impl Agent for SystemManager {
    fn name(&self) -> (r: String)
        ensures
            r@ == "System Manager"@,
    {
        "System Manager".to_string()
    }

    fn description(&self) -> (r: String)
        ensures
            r@ == "Sistem durumu izleme ve yönetim"@,
    {
        "Sistem durumu izleme ve yönetim".to_string()
    }

    fn can_handle(&self, task: &str) -> (r: bool)
        ensures
            r == system_task(task@),
    {
        contains(task, "sistem") || contains(task, "ram") || contains(task, "cpu") || contains(
            task,
            "system",
        )
    }
}

} // verus!
