//! The document analyst: which files are indexed, and excerpt shortening.
use vstd::prelude::*;

pub mod rag;
pub mod reader;
