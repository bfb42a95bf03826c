//! The headless kernel: agent lifecycle, messages, events and configuration.
pub mod agent_lifecycle;
pub mod config;
pub mod events;
pub mod health;
pub mod intent_judge;
pub mod memory;
pub mod orchestrator;
pub mod protocol;
