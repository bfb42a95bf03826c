//! The supervisor agent: retries a request against the language model up to
//! three times and reports the first answer or the last error.
use vstd::prelude::*;
use crate::desktop::agents::Agent;
use crate::text::{contains, dec_of, dec_string, has_sub, replace, replaced, trim, trim_of};

verus! {

pub struct SupervisorAgent;

/// Tasks for the supervisor.
pub open spec fn supervisor_task(task: Seq<char>) -> bool {
    has_sub(task, "supervisor"@) || has_sub(task, "optimize"@) || has_sub(task, "retry"@)
}

/// The request the supervisor works on: the task without the words "retry"
/// and "optimize", trimmed.
pub open spec fn target_of(task: Seq<char>) -> Seq<char> {
    trim_of(replaced(replaced(task, "retry"@, Seq::empty()), "optimize"@, Seq::empty()))
}

/// The prompt of attempt `attempt` (1 to 3).
pub open spec fn attempt_prompt_of(target: Seq<char>, attempt: nat) -> Seq<char> {
    "Kullanıcı isteğini değerlendir ve nasıl çözüleceğini açıkla.\nİstek: "@ + target
        + "\nDeneme: "@ + dec_of(attempt) + "/3\nKısa ve net bir yanıt ver."@
}

/// What happens after the model answered attempt `attempt` with `reply`.
#[derive(Debug)]
pub enum SupervisorStep {
    /// Ask the model again with this prompt.
    Retry(String),
    /// The supervisor is done with this result.
    Finished(Result<String, String>),
}

/// A supervised request in progress.
pub struct SupervisorRun {
    pub target: String,
    pub attempt: u32,
    pub last_error: String,
}

impl Agent for SupervisorAgent {
    fn name(&self) -> (r: String)
        ensures
            r@ == "Supervisor Agent"@,
    {
        "Supervisor Agent".to_string()
    }

    fn description(&self) -> (r: String)
        ensures
            r@ == "Ajan hata düzeltme, retry ve optimizasyon"@,
    {
        "Ajan hata düzeltme, retry ve optimizasyon".to_string()
    }

    fn can_handle(&self, task: &str) -> (r: bool)
        ensures
            r == supervisor_task(task@),
    {
        contains(task, "supervisor") || contains(task, "optimize") || contains(task, "retry")
    }
}

/// The prompt for `attempt`.
pub fn attempt_prompt(target: &str, attempt: u32) -> (r: String)
    ensures
        r@ == attempt_prompt_of(target@, attempt as nat),
{
    let n = dec_string(attempt as u64);
    "Kullanıcı isteğini değerlendir ve nasıl çözüleceğini açıkla.\nİstek: ".to_string().concat(
        target,
    ).concat("\nDeneme: ").concat(n.as_str()).concat("/3\nKısa ve net bir yanıt ver.")
}

impl SupervisorRun {
    /// Starts supervising `task`; the first prompt is for attempt 1.
    pub fn start(task: &str) -> (r: (SupervisorRun, String))
        ensures
            r.0.target@ == target_of(task@),
            r.0.attempt == 1,
            r.0.last_error@ == Seq::<char>::empty(),
            r.1@ == attempt_prompt_of(target_of(task@), 1),
    {
        proof {
            reveal_strlit("retry");
            reveal_strlit("optimize");
            reveal_strlit("");
            assert(""@ =~= Seq::<char>::empty());
        }
        let a = replace(task, "retry", "");
        let b = replace(a.as_str(), "optimize", "");
        let target = trim(b.as_str());
        let prompt = attempt_prompt(target.as_str(), 1);
        (SupervisorRun { target, attempt: 1, last_error: String::new() }, prompt)
    }

    /// Takes the model's reply to the current attempt. A reply ends the run
    /// (mentioning the earlier error after a retry); an error leads to the
    /// next attempt, and after the third attempt to the final error.
    pub fn on_reply(&mut self, reply: Result<String, String>) -> (step: SupervisorStep)
        requires
            1 <= old(self).attempt <= 3,
        ensures
            final(self).target == old(self).target,
            match reply {
                Ok(text) => {
                    &&& final(self).attempt == old(self).attempt
                    &&& step matches SupervisorStep::Finished(Ok(out))
                    &&& out@ == if old(self).attempt > 1 {
                        "[Supervisor] "@ + dec_of(old(self).attempt as nat)
                            + " numaralı denemede başarılı (önceki hata: "@ + old(
                            self,
                        ).last_error@ + ")\nYanıt: "@ + trim_of(text@)
                    } else {
                        "[Supervisor] Optimizasyon önerisi:\n"@ + trim_of(text@)
                    }
                },
                Err(e) => {
                    &&& final(self).last_error@ == e@
                    &&& if old(self).attempt < 3 {
                        &&& final(self).attempt == old(self).attempt + 1
                        &&& step matches SupervisorStep::Retry(p)
                        &&& p@ == attempt_prompt_of(old(self).target@, (old(self).attempt + 1) as nat)
                    } else {
                        &&& final(self).attempt == old(self).attempt
                        &&& step matches SupervisorStep::Finished(Err(msg))
                        &&& msg@ == "[Supervisor] 3 deneme başarısız. Son hata: "@ + e@
                    }
                },
            },
    {
        match reply {
            Ok(text) => {
                let t = trim(text.as_str());
                if self.attempt > 1 {
                    let n = dec_string(self.attempt as u64);
                    let out = "[Supervisor] ".to_string().concat(n.as_str()).concat(
                        " numaralı denemede başarılı (önceki hata: ",
                    ).concat(self.last_error.as_str()).concat(")\nYanıt: ").concat(t.as_str());
                    SupervisorStep::Finished(Ok(out))
                } else {
                    let out = "[Supervisor] Optimizasyon önerisi:\n".to_string().concat(t.as_str());
                    SupervisorStep::Finished(Ok(out))
                }
            },
            Err(e) => {
                self.last_error = e;
                if self.attempt < 3 {
                    self.attempt = self.attempt + 1;
                    let p = attempt_prompt(self.target.as_str(), self.attempt);
                    SupervisorStep::Retry(p)
                } else {
                    let msg = "[Supervisor] 3 deneme başarısız. Son hata: ".to_string().concat(
                        self.last_error.as_str(),
                    );
                    SupervisorStep::Finished(Err(msg))
                }
            },
        }
    }
}

} // verus!
