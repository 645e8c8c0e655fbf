use cloudy_with_a_chance_of_rust::schedule::{
    next_link_action, next_poll_action, LinkAction, PollAction, RECONNECT_DELAY_SECS,
    REFRESH_INTERVAL_SECS, RETRY_DELAY_SECS,
};

#[test]
fn fetched_forecast_is_shown_then_refreshed_hourly() {
    assert_eq!(
        next_poll_action(true),
        PollAction { show_forecast: true, wait_secs: 3600 }
    );
    assert_eq!(REFRESH_INTERVAL_SECS, 3600);
}

#[test]
fn failed_request_is_retried_after_ten_seconds() {
    assert_eq!(
        next_poll_action(false),
        PollAction { show_forecast: false, wait_secs: 10 }
    );
    assert_eq!(RETRY_DELAY_SECS, 10);
}

#[test]
fn link_waits_for_disconnect_only_when_connected() {
    assert_eq!(
        next_link_action(true),
        LinkAction { await_disconnect: true, backoff_secs: 10 }
    );
    assert_eq!(
        next_link_action(false),
        LinkAction { await_disconnect: false, backoff_secs: 10 }
    );
    assert_eq!(RECONNECT_DELAY_SECS, 10);
}
