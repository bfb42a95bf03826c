use adler::desktop::agents::diagnostic::DiagnosticAgent;
use adler::desktop::agents::intent_judge::IntentJudge;
use adler::desktop::agents::market_analyst::{is_market_task, market_symbol};
use adler::desktop::agents::market_analyst::paper::{chrono_now, timestamp_text, TradeSide};
use adler::desktop::agents::supervisor::{attempt_prompt, SupervisorAgent, SupervisorRun, SupervisorStep};
use adler::desktop::agents::system_manager::SystemManager;
use adler::desktop::agents::voice_handler::{VoiceCommand, VoiceHandler};
use adler::desktop::agents::{Agent, ApprovalLevel};

#[test]
fn diagnostic_name_returns_correct() {
    let agent = DiagnosticAgent;
    assert_eq!(agent.name(), "Diagnostic Agent");
}

#[test]
fn diagnostic_description_not_empty() {
    let agent = DiagnosticAgent;
    assert!(!agent.description().is_empty());
}

#[test]
fn can_handle_matches_error_keywords() {
    let agent = DiagnosticAgent;
    assert!(agent.can_handle("hata var"));
    assert!(agent.can_handle("diagnostic calistir"));
    assert!(agent.can_handle("arıza tespiti"));
    assert!(agent.can_handle("error log"));
    assert!(!agent.can_handle("sistem durumu"));
}

#[test]
fn execute_returns_diagnostic_format() {
    let agent = DiagnosticAgent;
    let result = agent.report("hatali modul", &vec![]);
    assert!(result.starts_with("[Diagnostic]"));
    assert!(result.contains("hatali modul"));
    assert!(result.contains("No system logs found"));
}

#[test]
fn diagnostic_report_names_first_log() {
    let agent = DiagnosticAgent;
    let found = vec!["/var/log/syslog.log".to_string(), "/var/log/kern.log".to_string()];
    let result = agent.report("x", &found);
    assert_eq!(
        result,
        "[Diagnostic] Analiz: 'x'\nFound 2 log files. First: /var/log/syslog.log\nÖneri: Logları incelemek için 'detayları anlat' komutunu kullan."
    );
}

#[test]
fn intent_judge_name_returns_correct() {
    let agent = IntentJudge;
    assert_eq!(agent.name(), "Intent Judge");
}

#[test]
fn intent_judge_description_not_empty() {
    let agent = IntentJudge;
    assert!(!agent.description().is_empty());
}

#[test]
fn can_handle_matches_intent_keywords() {
    let agent = IntentJudge;
    assert!(agent.can_handle("niyet analizi yap"));
    assert!(agent.can_handle("intent classification"));
    assert!(agent.can_handle("ne yapmalıyım"));
    assert!(!agent.can_handle("role ac"));
    assert!(!agent.can_handle("borsa analiz"));
}

#[test]
fn intent_judge_prompt_and_classification() {
    let agent = IntentJudge;
    assert!(agent.prompt("role ac").ends_with("Mesaj: role ac"));
    assert_eq!(agent.classification("  Donanım \n"), "Intent classified: donanım");
    assert_eq!(agent.classification("SORGU"), "Intent classified: sorgu");
}

#[test]
fn approval_level_debug_clone() {
    let levels = vec![
        ApprovalLevel::Observer,
        ApprovalLevel::SemiAutonomous,
        ApprovalLevel::Strategic,
    ];
    for level in &levels {
        let cloned = level.clone();
        assert_eq!(level, &cloned);
        let _debug = format!("{:?}", level);
    }
}

#[test]
fn approval_level_partial_eq() {
    assert_eq!(ApprovalLevel::Observer, ApprovalLevel::Observer);
    assert_ne!(ApprovalLevel::Observer, ApprovalLevel::Strategic);
}

#[test]
fn agent_trait_object_safe() {
    let _: &dyn Agent = &IntentJudge;
    let _: &dyn Agent = &DiagnosticAgent;
    let _: &dyn Agent = &SystemManager;
    let _: &dyn Agent = &SupervisorAgent;
}

#[test]
fn supervisor_name_returns_correct() {
    let agent = SupervisorAgent;
    assert_eq!(agent.name(), "Supervisor Agent");
}

#[test]
fn can_handle_matches_supervisor_keywords() {
    let agent = SupervisorAgent;
    assert!(agent.can_handle("supervisor calistir"));
    assert!(agent.can_handle("optimize et"));
    assert!(agent.can_handle("retry yap"));
    assert!(!agent.can_handle("sistem durumu"));
}

#[test]
fn execute_fails_after_3_attempts_when_ollama_down() {
    let (mut run, prompt) = SupervisorRun::start("retry test task");
    assert!(prompt.contains("Deneme: 1/3"));
    let mut step = run.on_reply(Err("connection refused".to_string()));
    assert!(matches!(&step, SupervisorStep::Retry(p) if p.contains("Deneme: 2/3")));
    step = run.on_reply(Err("connection refused".to_string()));
    assert!(matches!(&step, SupervisorStep::Retry(p) if p.contains("Deneme: 3/3")));
    step = run.on_reply(Err("connection refused".to_string()));
    match step {
        SupervisorStep::Finished(Err(e)) => {
            assert!(e.contains("3 deneme başarısız"));
            assert!(e.ends_with("connection refused"));
        }
        other => panic!("unexpected step {:?}", other),
    }
}

#[test]
fn supervisor_target_drops_retry_and_optimize() {
    let (run, prompt) = SupervisorRun::start("  retry optimize  disk temizligi ");
    assert_eq!(run.target, "disk temizligi");
    assert_eq!(run.attempt, 1);
    assert_eq!(prompt, attempt_prompt("disk temizligi", 1));
    assert_eq!(
        prompt,
        "Kullanıcı isteğini değerlendir ve nasıl çözüleceğini açıkla.\nİstek: disk temizligi\nDeneme: 1/3\nKısa ve net bir yanıt ver."
    );
}

#[test]
fn supervisor_first_answer_is_a_suggestion() {
    let (mut run, _) = SupervisorRun::start("optimize cache");
    match run.on_reply(Ok("  use a cache  ".to_string())) {
        SupervisorStep::Finished(Ok(out)) => assert_eq!(out, "[Supervisor] Optimizasyon önerisi:\nuse a cache"),
        other => panic!("unexpected step {:?}", other),
    }
}

#[test]
fn supervisor_later_answer_mentions_previous_error() {
    let (mut run, _) = SupervisorRun::start("retry job");
    let _ = run.on_reply(Err("timeout".to_string()));
    match run.on_reply(Ok("done".to_string())) {
        SupervisorStep::Finished(Ok(out)) => {
            assert_eq!(out, "[Supervisor] 2 numaralı denemede başarılı (önceki hata: timeout)\nYanıt: done")
        }
        other => panic!("unexpected step {:?}", other),
    }
}

#[test]
fn system_manager_name_returns_correct() {
    let agent = SystemManager;
    assert_eq!(agent.name(), "System Manager");
}

#[test]
fn can_handle_matches_system_keywords() {
    let agent = SystemManager;
    assert!(agent.can_handle("sistem durumu"));
    assert!(agent.can_handle("ram kullanimi"));
    assert!(agent.can_handle("cpu yuku"));
    assert!(agent.can_handle("system info"));
    assert!(!agent.can_handle("niyet analizi"));
}

#[test]
fn mod_name_returns_correct() {
    let agent = VoiceHandler::new();
    assert_eq!(agent.name(), "Voice Handler");
}

#[test]
fn can_handle_matches_voice_keywords() {
    let agent = VoiceHandler::new();
    assert!(agent.can_handle("ses ile konus"));
    assert!(agent.can_handle("voice command"));
    assert!(agent.can_handle("dinle"));
    assert!(agent.can_handle("konus"));
    assert!(!agent.can_handle("borsa analizi"));
}

#[test]
fn new_returns_inactive_handler() {
    let agent = VoiceHandler::new();
    assert!(!agent.is_active());
}

#[test]
fn voice_handler_routes_tasks() {
    let mut agent = VoiceHandler::new();
    assert!(matches!(agent.route("dinle"), VoiceCommand::StartListening));
    agent.mark_listening();
    assert!(agent.is_active());
    assert!(matches!(agent.route("durdur"), VoiceCommand::StopListening));
    agent.stop_listener();
    assert!(!agent.is_active());
    match agent.route("  merhaba dunya  ") {
        VoiceCommand::Speak(t) => assert_eq!(t, "merhaba dunya"),
        other => panic!("unexpected command {:?}", other),
    }
}

#[test]
fn can_handle_matches_market_keywords() {
    assert!(is_market_task("kripto para analiz"));
    assert!(is_market_task("borsa durumu"));
    assert!(is_market_task("piyasa sinyali"));
    assert!(is_market_task("analiz yap"));
    assert!(is_market_task("sinyal ver"));
    assert!(!is_market_task("sistem durumu"));
}

#[test]
fn trade_timestamps_are_decimal_seconds() {
    assert_eq!(timestamp_text(0), "0");
    assert_eq!(timestamp_text(1700000000), "1700000000");
    let now = chrono_now();
    assert!(!now.is_empty());
    assert!(now.chars().all(|c| c.is_ascii_digit()));
    assert!(now.parse::<u64>().unwrap() > 1_500_000_000);
    assert_ne!(TradeSide::Long, TradeSide::Short);
}

#[test]
fn market_symbol_from_task() {
    assert_eq!(market_symbol("ETH analizi yap"), "ETH");
    assert_eq!(market_symbol("analiz SOL1 ETH"), "ETH");
    assert_eq!(market_symbol("kripto analiz"), "BTC");
    assert_eq!(market_symbol("ABCDEFGHIJK XRP"), "XRP");
    assert_eq!(market_symbol("ÇAĞ"), "ÇAĞ");
    assert_eq!(market_symbol("123"), "BTC");
}
