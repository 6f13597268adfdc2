//! The background poll loop's decisions.
use crate::text::owned;
use vstd::prelude::*;

verus! {

/// Shortest poll interval, in seconds.
pub const MIN_POLL_INTERVAL_SEC: u64 = 15;

/// Delay before the first refresh after start-up, in milliseconds.
pub const INITIAL_DELAY_MS: u64 = 50;

/// Seconds to wait between refreshes: the configured interval, at least 15.
/// The configuration is read again every cycle, so a change takes effect on
/// the next tick.
pub fn poll_interval_secs(configured: u64) -> (r: u64)
    ensures
        r == if configured < 15 { 15 } else { configured },
        r >= MIN_POLL_INTERVAL_SEC,
{
    if configured < MIN_POLL_INTERVAL_SEC {
        MIN_POLL_INTERVAL_SEC
    } else {
        configured
    }
}

/// An immediate refresh needs at least one registered provider.
pub fn refresh_now_guard(registered: usize) -> (r: Result<(), String>)
    ensures
        registered == 0 ==> (r matches Err(m) && m@ == "no providers registered"@),
        registered > 0 ==> r is Ok,
{
    if registered == 0 {
        Err(owned("no providers registered"))
    } else {
        Ok(())
    }
}

} // verus!
