//! Repository assimilation: analysing, planning, bridging and the pipeline
//! that clones, analyses and registers a repository.
pub mod analyzer;
pub mod bridge_gen;
pub mod cloner;
pub mod planner;
pub mod pipeline;
pub mod rollback;
pub mod static_analysis;
