//! Paper trading: trade sides and trade timestamps.
use vstd::prelude::*;
use crate::text::{dec_of, dec_string};

verus! {

/// Which way a trade goes.
#[derive(Debug, Clone, Copy, PartialEq, Eq, Structural)]
pub enum TradeSide {
    Long,
    Short,
}

/// Calls `std::time::SystemTime::now` and returns whole seconds since the
/// Unix epoch (0 before the epoch). The value depends on the clock.
#[verifier::external_body]
fn unix_seconds() -> (r: u64) {
    std::time::SystemTime::now().duration_since(std::time::UNIX_EPOCH).unwrap_or_default().as_secs()
}

/// The decimal text of a Unix time in seconds.
pub fn timestamp_text(secs: u64) -> (r: String)
    ensures
        r@ == dec_of(secs as nat),
{
    dec_string(secs)
}

/// The current Unix time in seconds, as decimal text.
pub fn chrono_now() -> (r: String)
    ensures
        exists|secs: u64| r@ == dec_of(secs as nat),
{
    let secs = unix_seconds();
    timestamp_text(secs)
}

} // verus!
