//! The wall clock, in whole seconds since the Unix epoch.

use std::time::Duration;
use vstd::prelude::*;

verus! {

/// `SystemTime::elapsed` on `UNIX_EPOCH`: the time since the epoch, or nothing
/// where the system clock stands before it. The result depends on the clock, so
/// nothing is said of it.
#[verifier::external_body]
fn since_epoch() -> (elapsed: Option<Duration>) {
    std::time::UNIX_EPOCH.elapsed().ok()
}

/// `Duration::as_secs`: the whole seconds of a duration.
#[verifier::external_body]
fn whole_seconds(elapsed: Duration) -> (seconds: u64) {
    elapsed.as_secs()
}

/// The current time in seconds since the Unix epoch; zero where the system clock
/// stands before the epoch.
pub fn now_second() -> (now: u64) {
    match since_epoch() {
        Some(elapsed) => whole_seconds(elapsed),
        None => 0,
    }
}

} // verus!
