//! The wall clock.

use vstd::prelude::*;

verus! {

/// `std::time::SystemTime::now()`, as milliseconds since the Unix epoch;
/// negative for a clock set before the epoch. Nothing is stated of the
/// result: it is the time at the call.
#[verifier::external_body]
pub(crate) fn now_millis() -> i64 {
    match std::time::SystemTime::now().duration_since(std::time::UNIX_EPOCH) {
        Ok(since) => since.as_millis() as i64,
        Err(before) => -(before.duration().as_millis() as i64),
    }
}

} // verus!
