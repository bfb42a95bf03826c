//! The intent judge: asks the language model to classify a user message.
use vstd::prelude::*;
use crate::desktop::agents::Agent;
use crate::text::{contains, has_sub, lowercase_of, to_lowercase, trim, trim_of};

verus! {

pub struct IntentJudge;

/// Tasks that ask for an intent analysis.
pub open spec fn intent_task(task: Seq<char>) -> bool {
    has_sub(task, "niyet"@) || has_sub(task, "intent"@) || has_sub(task, "ne yapmalı"@)
}

/// The classification prompt sent to the model for `task`.
pub open spec fn intent_prompt_of(task: Seq<char>) -> Seq<char> {
    "Kullanıcı mesajını tek bir kategoriye sınıflandır.\nKategoriler: sorgu, eylem, analiz, donanım, kripto, sistem, doküman, ses\nSadece kategori adını yaz, açıklama ekleme.\nMesaj: "@
        + task
}

impl Agent for IntentJudge {
    fn name(&self) -> (r: String)
        ensures
            r@ == "Intent Judge"@,
    {
        "Intent Judge".to_string()
    }

    fn description(&self) -> (r: String)
        ensures
            r@
                == "Niyet analizi — kullanıcı komutunu sorgu/eylem/analiz/donanım/kripto olarak sınıflandırır"@,
    {
        "Niyet analizi — kullanıcı komutunu sorgu/eylem/analiz/donanım/kripto olarak sınıflandırır".to_string()
    }

    fn can_handle(&self, task: &str) -> (r: bool)
        ensures
            r == intent_task(task@),
    {
        contains(task, "niyet") || contains(task, "intent") || contains(task, "ne yapmalı")
    }
}

impl IntentJudge {
    /// The prompt that asks the model to classify `task`.
    pub fn prompt(&self, task: &str) -> (r: String)
        ensures
            r@ == intent_prompt_of(task@),
    {
        "Kullanıcı mesajını tek bir kategoriye sınıflandır.\nKategoriler: sorgu, eylem, analiz, donanım, kripto, sistem, doküman, ses\nSadece kategori adını yaz, açıklama ekleme.\nMesaj: ".to_string().concat(
        task)
    }

    /// The answer for the model's reply: the trimmed, lower-cased category.
    pub fn classification(&self, reply: &str) -> (r: String)
        ensures
            r@ == "Intent classified: "@ + lowercase_of(trim_of(reply@)),
    {
        let t = trim(reply);
        let c = to_lowercase(t.as_str());
        "Intent classified: ".to_string().concat(c.as_str())
    }
}

} // verus!
