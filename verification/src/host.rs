//! Trusted access to the machine's clock and entropy source.

use vstd::prelude::*;
use std::time::SystemTime;
use std::time::UNIX_EPOCH;

verus! {

/// Relies on std::time::SystemTime::now: the wall clock's reading, converted
/// to whole milliseconds since the Unix epoch.  Nothing is promised of the
/// value: the clock belongs to the machine, not to the library's state.
#[verifier::external_body]
pub(crate) fn now_millis() -> u64 {
    match SystemTime::now().duration_since(UNIX_EPOCH) {
        Ok(d) => d.as_millis() as u64,
        Err(_) => 0,
    }
}

/// Relies on rand::random: 32 bytes from the thread-local generator.
/// Nothing is promised of the values: they are drawn fresh on every call.
#[verifier::external_body]
pub(crate) fn random_bytes32() -> [u8; 32] {
    rand::random::<[u8; 32]>()
}

} // verus!
