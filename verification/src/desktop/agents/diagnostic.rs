//! The diagnostic agent: recognises error reports and formats log findings.
use vstd::prelude::*;
use crate::desktop::agents::Agent;
use crate::text::{contains, dec_of, dec_string, has_sub};

verus! {

pub struct DiagnosticAgent;

/// Tasks about errors, diagnostics or faults.
pub open spec fn diagnostic_task(task: Seq<char>) -> bool {
    has_sub(task, "hata"@) || has_sub(task, "diagnostic"@) || has_sub(task, "arıza"@) || has_sub(
        task,
        "error"@,
    )
}

impl Agent for DiagnosticAgent {
    fn name(&self) -> (r: String)
        ensures
            r@ == "Diagnostic Agent"@,
    {
        "Diagnostic Agent".to_string()
    }

    fn description(&self) -> (r: String)
        ensures
            r@ == "Hata teşhisi ve self-healing önerisi"@,
    {
        "Hata teşhisi ve self-healing önerisi".to_string()
    }

    fn can_handle(&self, task: &str) -> (r: bool)
        ensures
            r == diagnostic_task(task@),
    {
        contains(task, "hata") || contains(task, "diagnostic") || contains(task, "arıza")
            || contains(task, "error")
    }
}

/// The log summary line: none found, or how many and the first one.
pub open spec fn log_summary_of(findings: Seq<Seq<char>>) -> Seq<char> {
    if findings.len() == 0 {
        "No system logs found"@
    } else {
        "Found "@ + dec_of(findings.len()) + " log files. First: "@ + findings[0]
    }
}

/// The report text for `task` given the log files found.
pub open spec fn diagnostic_report_of(task: Seq<char>, findings: Seq<Seq<char>>) -> Seq<char> {
    "[Diagnostic] Analiz: '"@ + task + "'\n"@ + log_summary_of(findings)
        + "\nÖneri: Logları incelemek için 'detayları anlat' komutunu kullan."@
}

impl DiagnosticAgent {
    /// Formats the diagnostic report for `task` from the `.log` files found.
    pub fn report(&self, task: &str, findings: &Vec<String>) -> (r: String)
        ensures
            r@ == diagnostic_report_of(task@, findings.deep_view()),
    {
        let summary = if findings.len() == 0 {
            "No system logs found".to_string()
        } else {
            let n = dec_string(findings.len() as u64);
            let s = "Found ".to_string().concat(n.as_str()).concat(" log files. First: ").concat(
                findings[0].as_str(),
            );
            s
        };
        let r = "[Diagnostic] Analiz: '".to_string().concat(task).concat("'\n").concat(
            summary.as_str(),
        ).concat("\nÖneri: Logları incelemek için 'detayları anlat' komutunu kullan.");
        r
    }
}

} // verus!
