//! The desktop assistant: agents, hardware control, voice pipeline,
//! repository assimilation, settings and the command line.
pub mod agents;
pub mod assimilation;
pub mod cli;
pub mod config;
pub mod self_healing;
