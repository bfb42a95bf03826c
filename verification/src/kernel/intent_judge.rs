//! The kernel's intent judge: classifies a request by keywords.
use vstd::prelude::*;
use crate::kernel::agent_lifecycle::{AgentAclLevel, AgentState};
use crate::kernel::protocol::{str_of, AgentMessage, JsonValue};
use crate::text::{contains, has_sub, lowercase_of, to_lowercase};

verus! {

/// The intent for already lower-cased text: market words first, then
/// hardware, then diagnostics; anything else is chat.
pub open spec fn intent_of_lowered(t: Seq<char>) -> Seq<char> {
    if has_sub(t, "sxt"@) || has_sub(t, "fiyat"@) || has_sub(t, "market"@) {
        "MarketAnalysis"@
    } else if has_sub(t, "röle"@) || has_sub(t, "ışık"@) || has_sub(t, "donanım"@) {
        "HardwareControl"@
    } else if has_sub(t, "hata"@) || has_sub(t, "log"@) {
        "Diagnostic"@
    } else {
        "Chat"@
    }
}

/// The text a payload carries: its string, or nothing.
pub open spec fn payload_text(v: JsonValue) -> Seq<char> {
    match str_of(v) {
        Some(t) => t,
        None => Seq::empty(),
    }
}

/// A classification reply: the original text, the intent and a confidence of
/// 0.85, in that order.
pub open spec fn is_classification(v: JsonValue, text: Seq<char>, intent: Seq<char>) -> bool {
    &&& v matches JsonValue::Object(m)
    &&& m@.len() == 3
    &&& m@[0].0@ == "original_text"@
    &&& str_of(m@[0].1) == Some(text)
    &&& m@[1].0@ == "intent"@
    &&& str_of(m@[1].1) == Some(intent)
    &&& m@[2].0@ == "confidence"@
    &&& m@[2].1 matches JsonValue::Number(n) && n@ == "0.85"@
}

/// Classifies requests and answers with the intent found.
pub struct IntentJudgeAgent {
    id: String,
    state: AgentState,
}

impl IntentJudgeAgent {
    pub closed spec fn id_view(&self) -> Seq<char> {
        self.id@
    }

    pub closed spec fn state_view(&self) -> AgentState {
        self.state
    }

    /// The judge "intent_judge_01", idle.
    pub fn new() -> (r: Self)
        ensures
            r.id_view() == "intent_judge_01"@,
            r.state_view() == AgentState::Idle,
    {
        IntentJudgeAgent { id: "intent_judge_01".to_string(), state: AgentState::Idle }
    }

    pub fn id(&self) -> (r: &str)
        ensures
            r@ == self.id_view(),
    {
        self.id.as_str()
    }

    pub fn name(&self) -> (r: &'static str)
        ensures
            r@ == "Intent Judge"@,
    {
        "Intent Judge"
    }

    pub fn status(&self) -> (r: AgentState)
        ensures
            r == self.state_view(),
    {
        self.state
    }

    pub fn acl_level(&self) -> (r: AgentAclLevel)
        ensures
            r == AgentAclLevel::SemiAutonomous,
    {
        AgentAclLevel::SemiAutonomous
    }

    /// The intent of already lower-cased text.
    pub fn classify_lowered(t: &str) -> (r: &'static str)
        ensures
            r@ == intent_of_lowered(t@),
    {
        if contains(t, "sxt") || contains(t, "fiyat") || contains(t, "market") {
            "MarketAnalysis"
        } else if contains(t, "röle") || contains(t, "ışık") || contains(t, "donanım") {
            "HardwareControl"
        } else if contains(t, "hata") || contains(t, "log") {
            "Diagnostic"
        } else {
            "Chat"
        }
    }

    /// The intent of `text`, ignoring case.
    pub fn classify_intent(&self, text: &str) -> (r: String)
        ensures
            r@ == intent_of_lowered(lowercase_of(text@)),
    {
        let t = to_lowercase(text);
        Self::classify_lowered(t.as_str()).to_string()
    }

    /// Answers `msg`: classifies the text it carries (empty when the payload is
    /// not a string) and replies to the sender with the text, the intent and a
    /// confidence of 0.85. The agent is idle again afterwards.
    pub fn execute(&mut self, msg: AgentMessage) -> (r: Option<AgentMessage>)
        ensures
            final(self).state_view() == AgentState::Idle,
            final(self).id_view() == old(self).id_view(),
            r matches Some(m) && {
                &&& m.from@ == old(self).id_view()
                &&& m.to == msg.from
                &&& m.correlation_id is None
                &&& is_classification(
                    m.payload,
                    payload_text(msg.payload),
                    intent_of_lowered(lowercase_of(payload_text(msg.payload))),
                )
            },
    {
        self.state = AgentState::Executing;
        let text: String = match msg.payload.as_str() {
            Some(t) => t.to_string(),
            None => String::new(),
        };
        let intent = self.classify_intent(text.as_str());
        let mut entries: Vec<(String, JsonValue)> = Vec::new();
        entries.push(("original_text".to_string(), JsonValue::Str(text)));
        entries.push(("intent".to_string(), JsonValue::Str(intent)));
        entries.push(("confidence".to_string(), JsonValue::Number("0.85".to_string())));
        self.state = AgentState::Idle;
        Some(AgentMessage::new(self.id.clone(), msg.from, JsonValue::Object(entries)))
    }

    pub fn pause(&mut self) -> (r: Result<(), String>)
        ensures
            r is Ok,
            final(self).state_view() == AgentState::Paused,
            final(self).id_view() == old(self).id_view(),
    {
        self.state = AgentState::Paused;
        Ok(())
    }

    pub fn resume(&mut self) -> (r: Result<(), String>)
        ensures
            r is Ok,
            final(self).state_view() == AgentState::Idle,
            final(self).id_view() == old(self).id_view(),
    {
        self.state = AgentState::Idle;
        Ok(())
    }
}

/// Whether lower-cased text names the market: "sxt", "fiyat" or "market".
pub open spec fn mentions_market(t: Seq<char>) -> bool {
    has_sub(t, "sxt"@) || has_sub(t, "fiyat"@) || has_sub(t, "market"@)
}

/// Whether lower-cased text names hardware: "röle", "ışık" or "donanım".
pub open spec fn mentions_hardware(t: Seq<char>) -> bool {
    has_sub(t, "röle"@) || has_sub(t, "ışık"@) || has_sub(t, "donanım"@)
}

/// Whether lower-cased text names a fault: "hata" or "log".
pub open spec fn mentions_fault(t: Seq<char>) -> bool {
    has_sub(t, "hata"@) || has_sub(t, "log"@)
}

/// How a request is routed: a market word wins; otherwise any of the hardware
/// words röle, ışık or donanım gives hardware control; otherwise a fault word
/// gives diagnostics; anything else is chat. The intent is always one of the
/// four names.
pub proof fn lemma_intent_routing(t: Seq<char>)
    ensures
        mentions_market(t) ==> intent_of_lowered(t) == "MarketAnalysis"@,
        !mentions_market(t) && has_sub(t, "röle"@) ==> intent_of_lowered(t) == "HardwareControl"@,
        !mentions_market(t) && has_sub(t, "ışık"@) ==> intent_of_lowered(t) == "HardwareControl"@,
        !mentions_market(t) && has_sub(t, "donanım"@) ==> intent_of_lowered(t)
            == "HardwareControl"@,
        (intent_of_lowered(t) == "HardwareControl"@) == (!mentions_market(t) && mentions_hardware(t)),
        !mentions_market(t) && !mentions_hardware(t) && mentions_fault(t) ==> intent_of_lowered(t)
            == "Diagnostic"@,
        !mentions_market(t) && !mentions_hardware(t) && !mentions_fault(t) ==> intent_of_lowered(t)
            == "Chat"@,
        intent_of_lowered(t) == "MarketAnalysis"@ || intent_of_lowered(t) == "HardwareControl"@
            || intent_of_lowered(t) == "Diagnostic"@ || intent_of_lowered(t) == "Chat"@,
{
    reveal_strlit("MarketAnalysis");
    reveal_strlit("HardwareControl");
    reveal_strlit("Diagnostic");
    reveal_strlit("Chat");
    assert("MarketAnalysis"@.len() != "HardwareControl"@.len());
    assert("Diagnostic"@.len() != "HardwareControl"@.len());
    assert("Chat"@.len() != "HardwareControl"@.len());
}

} // verus!
