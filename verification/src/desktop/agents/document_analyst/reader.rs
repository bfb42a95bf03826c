//! Which files and directories the document scan takes in.
use vstd::prelude::*;
use crate::text::{has_prefix, same_text, starts_with};

verus! {

/// A document found by the scan.
#[derive(Debug)]
pub struct DocFile {
    pub path: String,
    pub content: String,
    pub size: u64,
}

/// Directories the scan does not enter: hidden ones, dependencies and build output.
pub open spec fn skipped_dir(name: Seq<char>) -> bool {
    has_prefix(name, "."@) || name == "node_modules"@ || name == "target"@ || name == ".git"@
}

/// File extensions that count as documents.
pub open spec fn doc_extension(ext: Seq<char>) -> bool {
    ext == "md"@ || ext == "txt"@ || ext == "rs"@ || ext == "toml"@
}

/// Whether the scan skips the directory `name`.
pub fn is_skipped_dir(name: &str) -> (r: bool)
    ensures
        r == skipped_dir(name@),
{
    starts_with(name, ".") || same_text(name, "node_modules") || same_text(name, "target")
        || same_text(name, ".git")
}

/// Whether a file with extension `ext` is read as a document.
pub fn is_doc_extension(ext: &str) -> (r: bool)
    ensures
        r == doc_extension(ext@),
{
    same_text(ext, "md") || same_text(ext, "txt") || same_text(ext, "rs") || same_text(ext, "toml")
}

} // verus!
