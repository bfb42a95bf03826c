//! Undoing a failed assimilation.
use vstd::prelude::*;

verus! {

/// Cleans up after a failed assimilation.
pub struct RollbackManager;

impl RollbackManager {
    pub fn new() -> (r: Self) {
        RollbackManager
    }
}

} // verus!
