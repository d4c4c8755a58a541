//! Access to the system clock, kept behind one trusted function.

use vstd::prelude::*;

verus! {

/// Relies on std's `SystemTime`: the number of milliseconds since the Unix
/// epoch, truncated to 64 bits, or zero if the clock is set before the epoch.
/// Nothing is promised of the value: wall clocks jump.
#[verifier::external_body]
pub fn now_millis() -> u64 {
    match std::time::SystemTime::now().duration_since(std::time::UNIX_EPOCH) {
        Ok(d) => d.as_millis() as u64,
        Err(_) => 0,
    }
}

} // verus!
