//! Rows of the session and semantic memory tables.
use vstd::prelude::*;

verus! {

#[derive(Debug, Clone)]
pub struct SessionMessage {
    pub id: String,
    pub agent_id: String,
    pub user_id: String,
    pub role: String,
    pub content: String,
    pub timestamp: String,
}

#[derive(Debug, Clone)]
pub struct SemanticDocument {
    pub id: String,
    pub content: String,
    pub source_file: Option<String>,
    pub metadata: Option<String>,
    pub timestamp: String,
}

} // verus!
