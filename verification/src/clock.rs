use vstd::prelude::*;
use std::time::SystemTime;
use std::time::UNIX_EPOCH;

verus! {

/// Relies on std::time::SystemTime: nanoseconds of wall-clock time since
/// the Unix epoch. The value depends on the clock, so nothing is claimed
/// of it; a clock set before the epoch reads as zero.
#[verifier::external_body]
pub fn get_epoch_nanos() -> (r: u128) {
    match SystemTime::now().duration_since(UNIX_EPOCH) {
        Ok(d) => d.as_nanos(),
        Err(_) => 0,
    }
}

} // verus!
