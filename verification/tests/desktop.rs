use adler::desktop::agents::document_analyst::rag::{sources_report, truncate, KeywordHit, SemanticHit};
use adler::desktop::agents::document_analyst::reader::{is_doc_extension, is_skipped_dir};
use adler::desktop::agents::ApprovalLevel;
use adler::desktop::assimilation::pipeline::PipelineReport;
use adler::desktop::cli::{assimilate_output, join, unencrypted_db_warning, ChatAction, ChatSession};
use adler::desktop::config::AppConfig;
use adler::desktop::self_healing::{status_label, status_report, SelfHealingEngine};
use adler::text::{contains, find_sub, parse_i64, replace, trim};

#[test]
fn truncate_short_string_unchanged() {
    assert_eq!(truncate("hello", 10), "hello");
}

#[test]
fn truncate_long_string() {
    let result = truncate("hello world this is a test", 10);
    assert!(result.ends_with("..."));
    assert!(result.len() <= 13);
    assert_eq!(result, "hello worl...");
}

#[test]
fn truncate_exact_length() {
    assert_eq!(truncate("hello", 5), "hello");
}

#[test]
fn truncate_empty_string() {
    assert_eq!(truncate("", 10), "");
}

#[test]
fn truncate_counts_bytes() {
    assert_eq!(truncate("çok güzel", 3), "ço...");
}

#[test]
fn document_scan_filters() {
    assert!(is_skipped_dir(".git"));
    assert!(is_skipped_dir(".cache"));
    assert!(is_skipped_dir("node_modules"));
    assert!(is_skipped_dir("target"));
    assert!(!is_skipped_dir("docs"));
    assert!(is_doc_extension("md"));
    assert!(is_doc_extension("toml"));
    assert!(is_doc_extension("rs"));
    assert!(is_doc_extension("txt"));
    assert!(!is_doc_extension("png"));
    assert!(!is_doc_extension("MD"));
}

#[test]
fn chat_session_commands() {
    let mut s = ChatSession::new();
    assert!(matches!(s.handle_line("   "), ChatAction::Skip));
    assert!(matches!(s.handle_line(" /exit "), ChatAction::Exit));
    assert!(matches!(s.handle_line("/quit"), ChatAction::Exit));
    assert!(matches!(s.handle_line("/help"), ChatAction::Help));
    assert!(matches!(s.handle_line("/clear"), ChatAction::Cleared));
}

#[test]
fn chat_session_prompt_carries_memory() {
    let mut s = ChatSession::new();
    match s.handle_line("  merhaba ") {
        ChatAction::Ask(p) => assert_eq!(p, "merhaba"),
        other => panic!("unexpected {:?}", other),
    }
    s.record_exchange("  merhaba ", "selam");
    match s.handle_line("nasilsin") {
        ChatAction::Ask(p) => assert_eq!(p, "Kullanici: merhaba\nAdler: selam\nKullanici: nasilsin"),
        other => panic!("unexpected {:?}", other),
    }
    assert!(matches!(s.handle_line("/clear"), ChatAction::Cleared));
    match s.handle_line("yeni") {
        ChatAction::Ask(p) => assert_eq!(p, "yeni"),
        other => panic!("unexpected {:?}", other),
    }
}

#[test]
fn chat_memory_keeps_last_twenty_lines() {
    let mut s = ChatSession::new();
    for i in 0..11 {
        s.record_exchange(&format!("q{}", i), &format!("a{}", i));
    }
    match s.handle_line("son") {
        ChatAction::Ask(p) => {
            assert!(p.starts_with("Kullanici: q1\nAdler: a1\n"));
            assert!(!p.contains("q0"));
            assert_eq!(p.lines().count(), 21);
        }
        other => panic!("unexpected {:?}", other),
    }
}

#[test]
fn join_places_separator_between() {
    assert_eq!(join(&vec![], ", "), "");
    assert_eq!(join(&vec!["a".to_string()], ", "), "a");
    assert_eq!(join(&vec!["a".to_string(), "b".to_string(), "c".to_string()], " → "), "a → b → c");
}

#[test]
fn assimilate_output_for_success_and_failure() {
    let ok = PipelineReport {
        success: true,
        name: "tool".to_string(),
        steps_completed: vec!["Klonlama".to_string(), "Kayıt".to_string()],
        module_dir: Some("/m/tool".to_string()),
        summary: "bitti".to_string(),
        errors: vec![],
    };
    assert_eq!(assimilate_output(&ok), Ok("bitti\n  Adımlar: Klonlama → Kayıt\n  Modül yolu: /m/tool".to_string()));
    let bad = PipelineReport {
        success: false,
        name: "tool".to_string(),
        steps_completed: vec!["Klonlama".to_string()],
        module_dir: None,
        summary: "olmadi".to_string(),
        errors: vec!["e1".to_string(), "e2".to_string()],
    };
    assert_eq!(
        assimilate_output(&bad),
        Err("olmadi\n  Tamamlanan adımlar: Klonlama\n  Hatalar: e1; e2".to_string())
    );
}

#[test]
fn security_audit_flags_plain_database_files() {
    assert!(unencrypted_db_warning("adler.db"));
    assert!(unencrypted_db_warning("/data/x.sqlite"));
    assert!(!unencrypted_db_warning("adler.db.enc"));
}

#[test]
fn app_config_defaults() {
    let c = AppConfig::default();
    assert_eq!(c.ollama_url, "http://localhost:11434");
    assert_eq!(c.ollama_model, "qwen2.5:1.5b");
    assert!(c.claude_api_key.is_none());
    assert_eq!(c.db_path, "adler.db");
    assert_eq!(c.mcp_port, 9876);
    assert_eq!(c.resolve_approval_level(), ApprovalLevel::SemiAutonomous);
}

#[test]
fn approval_level_from_settings_ignores_case() {
    let mut c = AppConfig::default();
    c.approval_level = "OBSERVER".to_string();
    assert_eq!(c.resolve_approval_level(), ApprovalLevel::Observer);
    c.approval_level = "Strategic".to_string();
    assert_eq!(c.resolve_approval_level(), ApprovalLevel::Strategic);
    c.approval_level = "anything".to_string();
    assert_eq!(c.resolve_approval_level(), ApprovalLevel::SemiAutonomous);
}

#[test]
fn self_healing_suggestions_and_severity() {
    let mut e = SelfHealingEngine::new();
    assert_eq!(e.fix_count(), 0);
    e.record_fix();
    e.record_fix();
    assert_eq!(e.fix_count(), 2);
    assert_eq!(
        e.suggestion("panic"),
        Some("Panik olustu. unwrap() veya expect() kullanimini gozden gecirin.".to_string())
    );
    assert!(e.suggestion("bilinmeyen hata").is_none());
    assert_eq!(e.severity("panic"), "KRITIK");
    assert_eq!(e.severity("memory_error"), "KRITIK");
    assert_eq!(e.severity("type_mismatch"), "YUKSEK");
    assert_eq!(e.severity("permission_error"), "ORTA");
    assert_eq!(e.severity("syntax_error"), "DUSUK");
}

#[test]
fn text_helpers_match_std() {
    assert_eq!(trim("\t a b \n"), "a b");
    assert_eq!(trim("\u{3000}x\u{00a0}"), "x");
    assert!(contains("merhaba", "hab"));
    assert!(contains("x", ""));
    assert!(!contains("ab", "abc"));
    assert_eq!(replace("a-b-c", "-", "_"), "a_b_c");
    assert_eq!(replace("aaa", "aa", "b"), "ba");
}

#[test]
fn sources_report_sections_and_dedup() {
    let semantic = vec![SemanticHit {
        category: "doc".to_string(),
        percent: "87".to_string(),
        source: "a.md".to_string(),
        content: "alpha".to_string(),
    }];
    let keyword = vec![
        KeywordHit { category: "doc".to_string(), source: "a.md".to_string(), content: "alpha".to_string() },
        KeywordHit { category: "code".to_string(), source: "b.rs".to_string(), content: "beta".to_string() },
    ];
    assert_eq!(
        sources_report(&semantic, &keyword),
        "=== Semantik Eslesmeler ===\n  [doc | 87%] Kaynak: a.md\n  alpha\n\n=== Anahtar Kelime Eslesmeleri ===\n  [code] Kaynak: b.rs\n  beta\n\n"
    );
    assert_eq!(sources_report(&vec![], &vec![]), "Eslesen dokuman bulunamadi.\n");
    let long = "x".repeat(310);
    let only_kw = vec![KeywordHit { category: "c".to_string(), source: "s".to_string(), content: long }];
    let r = sources_report(&vec![], &only_kw);
    assert!(r.contains(&format!("{}...", "x".repeat(300))));
    assert!(!r.contains(&"x".repeat(301)));
}

#[test]
fn signed_parse_and_find_match_std() {
    let chars = |s: &str| s.chars().collect::<Vec<char>>();
    for w in ["0", "-0", "+7", "-9223372036854775808", "9223372036854775807", "9223372036854775808", "-", "+", "", "1a", "--1", "+-1", " 1"] {
        assert_eq!(parse_i64(&chars(w)), w.parse::<i64>().ok(), "parsing {:?}", w);
    }
    for (s, p) in [("a t=5", "t="), ("t=", "t="), ("abc", "x"), ("aab", "ab"), ("", "")] {
        assert_eq!(find_sub(&chars(s), &chars(p)), s.find(p), "finding {:?} in {:?}", p, s);
    }
}

#[test]
fn repo_status_labels_follow_precedence() {
    assert_eq!(status_label(true, true, true, true), "YENI");
    assert_eq!(status_label(false, true, true, false), "DEGISTI");
    assert_eq!(status_label(false, false, true, true), "YENI(WD)");
    assert_eq!(status_label(false, false, false, true), "DEGISTI(WD)");
    assert_eq!(status_label(false, false, false, false), "?");
}

#[test]
fn repo_status_report_lines_or_clean() {
    assert_eq!(status_report(&vec![]), "Temiz calisma dizini");
    assert_eq!(
        status_report(&vec!["YENI a.rs".to_string(), "DEGISTI(WD) b.rs".to_string()]),
        "YENI a.rs\nDEGISTI(WD) b.rs"
    );
}
