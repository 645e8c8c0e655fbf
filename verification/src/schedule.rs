//! When the station polls the forecast service and when it reconnects to
//! Wi-Fi. The asynchronous tasks perform the waits and the requests; the
//! decisions are taken here.

use vstd::prelude::*;

verus! {

/// Seconds between two forecasts once one has been shown.
pub const REFRESH_INTERVAL_SECS: u64 = 3600;

/// Seconds before a failed forecast request is tried again.
pub const RETRY_DELAY_SECS: u64 = 10;

/// Seconds before the Wi-Fi link is tried again after a failed attempt or a
/// disconnection.
pub const RECONNECT_DELAY_SECS: u64 = 10;

/// What the forecast task does after a request.
#[derive(Clone, Copy, Debug, PartialEq, Eq, Structural)]
pub struct PollAction {
    /// Draw the forecast on the panel.
    pub show_forecast: bool,
    /// Then wait this long before the next request.
    pub wait_secs: u64,
}

/// After a request that obtained a forecast, the forecast is shown and the
/// next one is requested an hour later; after a failed request, nothing is
/// shown and the request is repeated ten seconds later.
pub fn next_poll_action(fetched: bool) -> (action: PollAction)
    ensures
        action.show_forecast == fetched,
        fetched ==> action.wait_secs == REFRESH_INTERVAL_SECS,
        !fetched ==> action.wait_secs == RETRY_DELAY_SECS,
{
    if fetched {
        PollAction { show_forecast: true, wait_secs: REFRESH_INTERVAL_SECS }
    } else {
        PollAction { show_forecast: false, wait_secs: RETRY_DELAY_SECS }
    }
}

/// What the Wi-Fi task does after a connection attempt.
#[derive(Clone, Copy, Debug, PartialEq, Eq, Structural)]
pub struct LinkAction {
    /// Stay connected until the link drops.
    pub await_disconnect: bool,
    /// Then wait this long before the next attempt.
    pub backoff_secs: u64,
}

/// After a successful attempt the task waits for the link to drop; either
/// way the next attempt comes ten seconds after that.
pub fn next_link_action(connected: bool) -> (action: LinkAction)
    ensures
        action.await_disconnect == connected,
        action.backoff_secs == RECONNECT_DELAY_SECS,
{
    LinkAction { await_disconnect: connected, backoff_secs: RECONNECT_DELAY_SECS }
}

} // verus!
