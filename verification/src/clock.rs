//! The engine's clock: wall time in milliseconds.

use vstd::prelude::*;

verus! {

/// Relies on `std::time::SystemTime::now` and
/// `SystemTime::duration_since(UNIX_EPOCH)`: the value depends on the wall
/// clock, so nothing is promised of it. `duration_since` errors when the
/// clock reads a moment before the epoch; that outcome is handed back as
/// `None`, so the call never panics.
#[verifier::external_body]
fn now_ms_since_epoch() -> Option<u128> {
    match std::time::SystemTime::now().duration_since(std::time::UNIX_EPOCH) {
        Ok(elapsed) => Some(elapsed.as_millis()),
        Err(_) => None,
    }
}

/// Milliseconds since the Unix epoch, read from the wall clock, or `None`
/// when the clock reads before the epoch. The engine takes these as event
/// arrival timestamps; a caller must treat `None` as a fatal clock fault.
pub fn get_time_ms() -> Option<u128> {
    now_ms_since_epoch()
}

} // verus!
