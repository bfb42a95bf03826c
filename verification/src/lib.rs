//! Verified core of the ADLER autonomous assistant: agent lifecycle, command
//! routing, dialog and audio queue state machines, hardware safety rules and
//! repository assimilation logic.
pub mod text;
pub mod kernel;
pub mod desktop;
