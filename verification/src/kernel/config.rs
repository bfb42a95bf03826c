//! The kernel's configuration, as read from its YAML file.
use vstd::prelude::*;

verus! {

#[derive(Debug, Clone)]
pub struct OllamaConfig {
    pub host: String,
    pub model: String,
}

#[derive(Debug, Clone)]
pub struct ClaudeConfig {
    pub model: String,
    pub max_tokens: u32,
}

#[derive(Debug, Clone)]
pub struct LlmConfig {
    pub default_provider: String,
    pub ollama: OllamaConfig,
    pub claude: ClaudeConfig,
}

#[derive(Debug, Clone)]
pub struct VoiceConfig {
    pub wake_word: String,
    pub stt_provider: String,
    pub tts_provider: String,
    pub language: String,
}

#[derive(Debug, Clone)]
pub struct HardwareConfig {
    pub enabled: bool,
}

#[derive(Debug, Clone)]
pub struct MemoryConfig {
    pub db_path: String,
    pub vector_dim: usize,
    pub encryption_enabled: bool,
}

#[derive(Debug, Clone)]
pub struct AppConfig {
    pub llm: LlmConfig,
    pub voice: VoiceConfig,
    pub hardware: HardwareConfig,
    pub memory: MemoryConfig,
}

} // verus!
