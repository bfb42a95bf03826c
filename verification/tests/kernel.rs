use adler::kernel::agent_lifecycle::{AgentAclLevel, AgentState};
use adler::kernel::events::{EventEnvelope, SystemEvent};
use adler::kernel::health::HealthResponse;
use adler::kernel::intent_judge::IntentJudgeAgent;
use adler::kernel::orchestrator::OrchestratorAgent;
use adler::kernel::protocol::{AgentMessage, JsonValue};

fn text(s: &str) -> JsonValue {
    JsonValue::Str(s.to_string())
}

fn msg(from: &str, to: &str, payload: JsonValue) -> AgentMessage {
    AgentMessage::new(from.to_string(), to.to_string(), payload)
}

#[test]
fn standard_flow_transitions() {
    let flow = vec![
        (AgentState::Created, AgentState::Idle, true),
        (AgentState::Idle, AgentState::Planning, true),
        (AgentState::Planning, AgentState::Executing, true),
        (AgentState::Executing, AgentState::Validating, true),
        (AgentState::Validating, AgentState::Reporting, true),
        (AgentState::Reporting, AgentState::Completed, true),
    ];
    for (from, to, expected) in flow {
        assert_eq!(from.can_transition_to(to), expected,
            "Expected {:?} -> {:?} = {}", from, to, expected);
    }
}

#[test]
fn can_pause_from_any_state() {
    let states = vec![
        AgentState::Created,
        AgentState::Idle,
        AgentState::Planning,
        AgentState::Executing,
        AgentState::Validating,
        AgentState::Reporting,
        AgentState::Completed,
        AgentState::Error,
    ];
    for state in states {
        assert!(state.can_transition_to(AgentState::Paused),
            "Should be able to pause from {:?}", state);
    }
}

#[test]
fn can_error_from_any_state() {
    let states = vec![
        AgentState::Created,
        AgentState::Idle,
        AgentState::Planning,
        AgentState::Executing,
        AgentState::Validating,
        AgentState::Reporting,
        AgentState::Paused,
        AgentState::Completed,
    ];
    for state in states {
        assert!(state.can_transition_to(AgentState::Error),
            "Should be able to error from {:?}", state);
    }
}

#[test]
fn recovery_from_error_to_idle() {
    assert!(AgentState::Error.can_transition_to(AgentState::Idle));
}

#[test]
fn resume_from_paused_to_idle() {
    assert!(AgentState::Paused.can_transition_to(AgentState::Idle));
}

#[test]
fn reporting_can_loop_back_to_idle() {
    assert!(AgentState::Reporting.can_transition_to(AgentState::Idle));
}

#[test]
fn illegal_transitions() {
    assert!(!AgentState::Created.can_transition_to(AgentState::Completed));
    assert!(!AgentState::Idle.can_transition_to(AgentState::Completed));
    assert!(!AgentState::Planning.can_transition_to(AgentState::Completed));
    assert!(!AgentState::Paused.can_transition_to(AgentState::Executing));
    assert!(!AgentState::Error.can_transition_to(AgentState::Completed));
}

#[test]
fn acl_level_debug_clone_partial_eq() {
    let levels = vec![
        AgentAclLevel::Observer,
        AgentAclLevel::SemiAutonomous,
        AgentAclLevel::FullAuthority,
    ];
    for level in &levels {
        let cloned = *level;
        assert_eq!(*level, cloned);
        let _ = format!("{:?}", level);
    }
    assert_ne!(AgentAclLevel::Observer, AgentAclLevel::FullAuthority);
}

#[test]
fn transitions_out_of_completed_only_pause_or_error() {
    let all = vec![
        AgentState::Created,
        AgentState::Idle,
        AgentState::Planning,
        AgentState::Executing,
        AgentState::Validating,
        AgentState::Reporting,
        AgentState::Paused,
        AgentState::Completed,
        AgentState::Error,
    ];
    for to in all {
        let expected = to == AgentState::Paused || to == AgentState::Error;
        assert_eq!(AgentState::Completed.can_transition_to(to), expected);
    }
}

#[test]
fn no_state_skips_ahead_in_the_flow() {
    assert!(!AgentState::Created.can_transition_to(AgentState::Planning));
    assert!(!AgentState::Idle.can_transition_to(AgentState::Executing));
    assert!(!AgentState::Executing.can_transition_to(AgentState::Reporting));
    assert!(!AgentState::Validating.can_transition_to(AgentState::Idle));
    assert!(!AgentState::Idle.can_transition_to(AgentState::Created));
}

#[test]
fn new_creates_message_with_required_fields() {
    let payload = JsonValue::Object(vec![("hello".to_string(), text("world"))]);
    let m = msg("alice", "bob", payload);
    assert_eq!(m.from, "alice");
    assert_eq!(m.to, "bob");
    assert_eq!(m.payload.get("hello").unwrap().as_str(), Some("world"));
    assert!(m.correlation_id.is_none());
}

#[test]
fn new_generates_unique_ids() {
    let msg1 = msg("a", "b", JsonValue::Null);
    let msg2 = msg("a", "b", JsonValue::Null);
    assert_ne!(msg1.id, msg2.id);
}

#[test]
fn with_correlation_sets_id() {
    let correlation = msg("x", "y", JsonValue::Null).id;
    let m = msg("a", "b", JsonValue::Null).with_correlation(correlation);
    assert_eq!(m.correlation_id, Some(correlation));
}

#[test]
fn with_correlation_no_side_effects() {
    let correlation = msg("x", "y", JsonValue::Null).id;
    let m = msg("a", "b", text("data"));
    let m2 = m.clone().with_correlation(correlation);
    assert_eq!(m2.correlation_id, Some(correlation));
    assert_eq!(m2.id, m.id);
    assert_eq!(m2.payload.as_str(), Some("data"));
    assert!(m.correlation_id.is_none());
}

#[test]
fn message_ids_are_version_4_uuids() {
    let m = msg("a", "b", JsonValue::Null);
    assert_eq!((m.id >> 76) & 0xf, 4);
    assert_eq!((m.id >> 62) & 0x3, 2);
    assert!(m.timestamp_ms > 1_500_000_000_000);
}

#[test]
fn json_get_finds_first_member() {
    let v = JsonValue::Object(vec![
        ("a".to_string(), text("first")),
        ("b".to_string(), JsonValue::Bool(true)),
        ("a".to_string(), text("second")),
    ]);
    assert_eq!(v.get("a").unwrap().as_str(), Some("first"));
    assert!(matches!(v.get("b"), Some(JsonValue::Bool(true))));
    assert!(v.get("c").is_none());
    assert!(text("a").get("a").is_none());
    assert_eq!(JsonValue::Number("1".to_string()).as_str(), None);
}

#[test]
fn json_clone_copies_nested_values() {
    let v = JsonValue::Array(vec![text("x"), JsonValue::Object(vec![("k".to_string(), JsonValue::Null)])]);
    let c = v.clone();
    match c {
        JsonValue::Array(items) => {
            assert_eq!(items.len(), 2);
            assert_eq!(items[0].as_str(), Some("x"));
            assert!(matches!(items[1].get("k"), Some(JsonValue::Null)));
        }
        _ => panic!("not an array"),
    }
}

#[test]
fn event_envelope_has_unique_ids() {
    let e1 = EventEnvelope::new(SystemEvent::SystemHeartbeat);
    let e2 = EventEnvelope::new(SystemEvent::SystemHeartbeat);
    assert_ne!(e1.id, e2.id);
}

#[test]
fn event_envelope_keeps_payload() {
    let e = EventEnvelope::new(SystemEvent::HardwareTrigger { pin: 17, state: true });
    assert!(matches!(e.payload, SystemEvent::HardwareTrigger { pin: 17, state: true }));
    assert_eq!((e.id >> 76) & 0xf, 4);
}

#[test]
fn health_response_reports_up() {
    let h = HealthResponse::up(3);
    assert_eq!(h.status, "up");
    assert_eq!(h.active_agents, 3);
    assert!(h.zero_mock_policy);
}

#[test]
fn new_creates_idle_agent() {
    let agent = IntentJudgeAgent::new();
    assert_eq!(agent.id(), "intent_judge_01");
    assert_eq!(agent.name(), "Intent Judge");
    assert_eq!(agent.status(), AgentState::Idle);
    assert_eq!(agent.acl_level(), AgentAclLevel::SemiAutonomous);
}

#[test]
fn classify_market_intent() {
    let agent = IntentJudgeAgent::new();
    assert_eq!(agent.classify_intent("SXT fiyatı nedir?"), "MarketAnalysis");
    assert_eq!(agent.classify_intent("market analizi yap"), "MarketAnalysis");
}

#[test]
fn classify_hardware_intent() {
    let agent = IntentJudgeAgent::new();
    assert_eq!(agent.classify_intent("röleyi aç"), "HardwareControl");
    assert_eq!(agent.classify_intent("donanım durumu"), "HardwareControl");
}

#[test]
fn classify_diagnostic_intent() {
    let agent = IntentJudgeAgent::new();
    assert_eq!(agent.classify_intent("hata var"), "Diagnostic");
    assert_eq!(agent.classify_intent("logları kontrol et"), "Diagnostic");
}

#[test]
fn classify_chat_intent() {
    let agent = IntentJudgeAgent::new();
    assert_eq!(agent.classify_intent("merhaba nasılsın"), "Chat");
    assert_eq!(agent.classify_intent("ne yapıyorsun"), "Chat");
}

#[test]
fn classify_is_case_insensitive() {
    let agent = IntentJudgeAgent::new();
    assert_eq!(agent.classify_intent("MARKET"), "MarketAnalysis");
    assert_eq!(agent.classify_intent("HATA"), "Diagnostic");
    assert_eq!(IntentJudgeAgent::classify_lowered("MARKET"), "Chat");
}

#[test]
fn intent_judge_pause_resume() {
    let mut agent = IntentJudgeAgent::new();
    agent.pause().unwrap();
    assert_eq!(agent.status(), AgentState::Paused);
    agent.resume().unwrap();
    assert_eq!(agent.status(), AgentState::Idle);
}

#[test]
fn execute_returns_classification() {
    let mut agent = IntentJudgeAgent::new();
    let m = msg("user", "intent_judge_01", text("SXT analizi yap"));
    let response = agent.execute(m).unwrap();
    assert_eq!(response.from, "intent_judge_01");
    assert_eq!(response.to, "user");
    assert_eq!(response.payload.get("intent").unwrap().as_str(), Some("MarketAnalysis"));
    assert_eq!(response.payload.get("original_text").unwrap().as_str(), Some("SXT analizi yap"));
    assert!(matches!(response.payload.get("confidence"), Some(JsonValue::Number(n)) if n == "0.85"));
}

#[test]
fn execute_changes_state() {
    let mut agent = IntentJudgeAgent::new();
    let m = msg("user", "intent_judge_01", text("test"));
    assert_eq!(agent.status(), AgentState::Idle);
    let _ = agent.execute(m);
    assert_eq!(agent.status(), AgentState::Idle);
}

#[test]
fn execute_on_non_text_payload_classifies_empty_text() {
    let mut agent = IntentJudgeAgent::new();
    let response = agent.execute(msg("user", "intent_judge_01", JsonValue::Null)).unwrap();
    assert_eq!(response.payload.get("original_text").unwrap().as_str(), Some(""));
    assert_eq!(response.payload.get("intent").unwrap().as_str(), Some("Chat"));
}

#[test]
fn new_creates_orchestrator_with_intent_judge() {
    let orchestrator = OrchestratorAgent::new();
    assert_eq!(orchestrator.id(), "orchestrator_01");
    assert_eq!(orchestrator.name(), "Orchestrator");
    assert_eq!(orchestrator.status(), AgentState::Idle);
    assert_eq!(orchestrator.acl_level(), AgentAclLevel::FullAuthority);
}

#[test]
fn execute_routes_through_intent_judge() {
    let mut orchestrator = OrchestratorAgent::new();
    let mut judge = IntentJudgeAgent::new();
    let m = msg("user", "orchestrator_01", text("SXT fiyatı nedir?"));
    let (judge_msg, caller) = orchestrator.begin_execute(m);
    assert_eq!(orchestrator.status(), AgentState::Executing);
    assert_eq!(judge_msg.to, "intent_judge_01");
    assert_eq!(judge_msg.from, "orchestrator_01");
    assert_eq!(caller, "user");
    let judged = judge.execute(judge_msg);
    let response = orchestrator.finish_execute(caller, judged).unwrap();
    assert_eq!(orchestrator.status(), AgentState::Idle);
    assert_eq!(response.from, "orchestrator_01");
    assert_eq!(response.to, "user");
    assert_eq!(response.payload.get("status").unwrap().as_str(), Some("routed"));
    let analysis = response.payload.get("intent_analysis").unwrap();
    assert_eq!(analysis.get("intent").unwrap().as_str(), Some("MarketAnalysis"));
}

#[test]
fn orchestrator_without_judge_reply_answers_nothing() {
    let mut orchestrator = OrchestratorAgent::new();
    let (_judge_msg, caller) = orchestrator.begin_execute(msg("user", "orchestrator_01", text("x")));
    assert!(orchestrator.finish_execute(caller, None).is_none());
    assert_eq!(orchestrator.status(), AgentState::Idle);
}

#[test]
fn orchestrator_pause_resume() {
    let mut orchestrator = OrchestratorAgent::new();
    orchestrator.pause().unwrap();
    assert_eq!(orchestrator.status(), AgentState::Paused);
    orchestrator.resume().unwrap();
    assert_eq!(orchestrator.status(), AgentState::Idle);
}

#[test]
fn event_envelope_timestamps() {
    let e = EventEnvelope::new(SystemEvent::SystemHeartbeat);
    let now = std::time::SystemTime::now()
        .duration_since(std::time::UNIX_EPOCH)
        .unwrap()
        .as_millis() as i64;
    let diff = now - e.timestamp_ms;
    assert!(diff >= 0);
    assert!(diff < 5_000);
}
