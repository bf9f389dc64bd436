//! The decision logic, on concrete timelines.

use autospot::policy::{Intent, OnReconnect, Policy, RETRY_BACKOFF_SECS};
use autospot::time::{Duration, Instant};

fn threshold() -> Duration {
    Duration::from_secs(120)
}

fn start_of_time() -> Instant {
    Instant::at(Duration::new(5_000, 250_000_000))
}

fn policy() -> (Policy, Instant) {
    (
        Policy::new(threshold(), OnReconnect::StopHotspot),
        start_of_time(),
    )
}

/// `t0 + secs`, to keep the timeline in the tests below readable.
fn at(t0: Instant, secs: u64) -> Instant {
    t0.plus(Duration::from_secs(secs))
}

#[test]
fn stays_idle_while_wifi_is_up() {
    let (mut w, t0) = policy();
    assert_eq!(w.evaluate(t0, true), Intent::Idle);
    assert_eq!(w.evaluate(at(t0, 300), true), Intent::Idle);
}

#[test]
fn reports_the_first_tick_of_a_disconnection() {
    let (mut w, t0) = policy();
    assert_eq!(w.evaluate(t0, false), Intent::WifiLost);
}

#[test]
fn waits_out_the_full_threshold_before_starting() {
    let (mut w, t0) = policy();
    w.evaluate(t0, false);

    assert_eq!(
        w.evaluate(at(t0, 5), false),
        Intent::Waiting {
            remaining: Duration::from_secs(115),
        }
    );
    assert!(matches!(
        w.evaluate(at(t0, 119), false),
        Intent::Waiting { .. }
    ));
    assert_eq!(
        w.evaluate(t0.plus(threshold()), false),
        Intent::StartHotspot {
            down_for: threshold()
        }
    );
}

#[test]
fn a_brief_blip_resets_the_countdown() {
    let (mut w, t0) = policy();
    w.evaluate(t0, false);
    w.evaluate(at(t0, 60), false);

    // Wi-Fi returns at t+70 before the threshold, so no hotspot was ever started.
    assert_eq!(
        w.evaluate(at(t0, 70), true),
        Intent::WifiRestored {
            down_for: Duration::from_secs(70),
            stop_hotspot: false,
        }
    );

    // Dropping again starts a fresh 120s countdown rather than resuming the old one.
    assert_eq!(w.evaluate(at(t0, 75), false), Intent::WifiLost);
    assert!(matches!(
        w.evaluate(at(t0, 180), false),
        Intent::Waiting { .. }
    ));
    assert!(matches!(
        w.evaluate(at(t0, 195), false),
        Intent::StartHotspot { .. }
    ));
}

#[test]
fn asks_to_stop_only_a_hotspot_it_started() {
    let (mut w, t0) = policy();
    w.evaluate(t0, false);
    w.evaluate(t0.plus(threshold()), false);
    w.record_started();

    assert_eq!(
        w.evaluate(at(t0, 200), true),
        Intent::WifiRestored {
            down_for: Duration::from_secs(200),
            stop_hotspot: true,
        }
    );
}

#[test]
fn leaves_a_manually_started_hotspot_alone() {
    let (mut w, t0) = policy();
    w.evaluate(t0, false);
    // No record_started(): the hotspot was already on, not switched on by us.
    assert_eq!(
        w.evaluate(at(t0, 200), true),
        Intent::WifiRestored {
            down_for: Duration::from_secs(200),
            stop_hotspot: false,
        }
    );
}

#[test]
fn honours_auto_disable_on_reconnect_being_off() {
    let mut w = Policy::new(threshold(), OnReconnect::LeaveHotspotOn);
    let t0 = start_of_time();
    w.evaluate(t0, false);
    w.evaluate(t0.plus(threshold()), false);
    w.record_started();

    assert_eq!(
        w.evaluate(at(t0, 200), true),
        Intent::WifiRestored {
            down_for: Duration::from_secs(200),
            stop_hotspot: false,
        }
    );
}

#[test]
fn backs_off_after_a_failed_start_instead_of_retrying_every_poll() {
    let mut w = Policy::with_backoff(
        threshold(),
        OnReconnect::StopHotspot,
        Duration::from_secs(60),
    );
    let t0 = start_of_time();
    w.evaluate(t0, false);

    let at_threshold = t0.plus(threshold());
    assert!(matches!(
        w.evaluate(at_threshold, false),
        Intent::StartHotspot { .. }
    ));
    w.record_start_failure(at_threshold);

    assert_eq!(
        w.evaluate(at(at_threshold, 5), false),
        Intent::HoldingForRetry {
            retry_in: Duration::from_secs(55)
        }
    );
    assert!(matches!(
        w.evaluate(at(at_threshold, 60), false),
        Intent::StartHotspot { .. }
    ));
}

#[test]
fn a_reconnect_clears_a_pending_retry_backoff() {
    let mut w = Policy::with_backoff(
        threshold(),
        OnReconnect::StopHotspot,
        Duration::from_secs(600),
    );
    let t0 = start_of_time();
    w.evaluate(t0, false);
    let at_threshold = t0.plus(threshold());
    w.evaluate(at_threshold, false);
    w.record_start_failure(at_threshold);

    w.evaluate(at(at_threshold, 10), true);

    // Fresh outage: the old backoff must not delay the new attempt.
    let t1 = at(at_threshold, 20);
    w.evaluate(t1, false);
    assert!(matches!(
        w.evaluate(t1.plus(threshold()), false),
        Intent::StartHotspot { .. }
    ));
}

#[test]
fn keeps_asking_to_start_until_told_it_succeeded() {
    let (mut w, t0) = policy();
    w.evaluate(t0, false);
    assert!(matches!(
        w.evaluate(t0.plus(threshold()), false),
        Intent::StartHotspot { .. }
    ));
    // No record_started(), e.g. the caller found the profile missing.
    assert!(matches!(
        w.evaluate(t0.plus(threshold()).plus(Duration::from_secs(5)), false),
        Intent::StartHotspot { .. }
    ));
}

#[test]
fn record_stopped_releases_ownership() {
    let (mut w, t0) = policy();
    w.record_started();
    w.record_stopped();

    w.evaluate(t0, false);
    assert_eq!(
        w.evaluate(at(t0, 10), true),
        Intent::WifiRestored {
            down_for: Duration::from_secs(10),
            stop_hotspot: false,
        }
    );
}

#[test]
fn the_default_backoff_is_a_minute() {
    let (mut w, t0) = policy();
    w.evaluate(t0, false);
    w.record_start_failure(at(t0, 120));
    assert_eq!(
        w.evaluate(at(t0, 120), false),
        Intent::HoldingForRetry {
            retry_in: Duration::from_secs(60)
        }
    );
    assert_eq!(RETRY_BACKOFF_SECS, 60);
}

#[test]
fn a_poll_from_the_past_counts_as_no_time_at_all() {
    let (mut w, t0) = policy();
    w.evaluate(at(t0, 50), false);
    assert_eq!(
        w.evaluate(t0, false),
        Intent::Waiting {
            remaining: threshold()
        }
    );
    assert_eq!(
        w.evaluate(t0, true),
        Intent::WifiRestored {
            down_for: Duration::from_secs(0),
            stop_hotspot: false,
        }
    );
}

#[test]
fn a_start_that_succeeds_after_a_failure_ends_the_backoff() {
    let (mut w, t0) = policy();
    w.evaluate(t0, false);
    w.record_start_failure(t0.plus(threshold()));
    w.record_started();
    assert!(matches!(
        w.evaluate(at(t0, 121), false),
        Intent::StartHotspot { .. }
    ));
}

#[test]
fn ownership_survives_a_reconnection() {
    let (mut w, t0) = policy();
    w.evaluate(t0, false);
    w.record_started();
    w.evaluate(at(t0, 10), true);
    w.evaluate(at(t0, 20), false);
    assert!(matches!(
        w.evaluate(at(t0, 30), true),
        Intent::WifiRestored {
            stop_hotspot: true,
            ..
        }
    ));
}
