//! The wall clock.  Timestamps are nanoseconds since the Unix epoch in a
//! 64-bit value, matching the exporter's decimal-string encoding.

use vstd::prelude::*;

verus! {

/// Relies on std::time::SystemTime::now and duration_since: the wall clock's
/// nanoseconds since the Unix epoch, truncated to 64 bits.  The result
/// depends on the clock, so nothing is promised of it; a clock before the
/// epoch reads as zero rather than failing.
#[verifier::external_body]
fn system_nanos() -> u64 {
    match std::time::SystemTime::now().duration_since(std::time::UNIX_EPOCH) {
        Ok(d) => d.as_nanos() as u64,
        Err(_) => 0,
    }
}

/// The current wall-clock timestamp.  Every value it returns is a legal
/// timestamp; which one depends on the clock, so no more is stated.
pub fn nanos() -> u64 {
    system_nanos()
}

} // verus!
