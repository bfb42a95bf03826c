//! The desktop application's settings.
use vstd::prelude::*;
use crate::desktop::agents::ApprovalLevel;
use crate::text::{lowercase_of, same_text, to_lowercase};

verus! {

#[derive(Debug, Clone)]
pub struct AppConfig {
    pub ollama_url: String,
    pub ollama_model: String,
    pub claude_api_key: Option<String>,
    pub claude_model: String,
    pub db_path: String,
    pub vosk_model_path: String,
    pub mcp_port: u16,
    pub approval_level: String,
}

/// The approval level a setting names, ignoring case; anything other than
/// "observer" or "strategic" means semi-autonomous.
pub open spec fn approval_of(lowered: Seq<char>) -> ApprovalLevel {
    if lowered == "observer"@ {
        ApprovalLevel::Observer
    } else if lowered == "strategic"@ {
        ApprovalLevel::Strategic
    } else {
        ApprovalLevel::SemiAutonomous
    }
}

impl Default for AppConfig {
    fn default() -> (r: Self)
        ensures
            r.ollama_url@ == "http://localhost:11434"@,
            r.ollama_model@ == "qwen2.5:1.5b"@,
            r.claude_api_key is None,
            r.claude_model@ == Seq::<char>::empty(),
            r.db_path@ == "adler.db"@,
            r.vosk_model_path@ == Seq::<char>::empty(),
            r.mcp_port == 9876,
            r.approval_level@ == "SemiAutonomous"@,
    {
        AppConfig {
            ollama_url: "http://localhost:11434".to_string(),
            ollama_model: "qwen2.5:1.5b".to_string(),
            claude_api_key: None,
            claude_model: String::new(),
            db_path: "adler.db".to_string(),
            vosk_model_path: String::new(),
            mcp_port: 9876,
            approval_level: "SemiAutonomous".to_string(),
        }
    }
}

impl AppConfig {
    /// The approval level the settings ask for.
    pub fn resolve_approval_level(&self) -> (r: ApprovalLevel)
        ensures
            r == approval_of(lowercase_of(self.approval_level@)),
    {
        let l = to_lowercase(self.approval_level.as_str());
        if same_text(l.as_str(), "observer") {
            ApprovalLevel::Observer
        } else if same_text(l.as_str(), "strategic") {
            ApprovalLevel::Strategic
        } else {
            ApprovalLevel::SemiAutonomous
        }
    }
}

} // verus!
