//! The companion's status report.

use autospot::status::{HotspotSnapshot, Status, WifiSnapshot};

fn wifi_connected<'a>(ssid: Option<&'a str>, ip: Option<&'a str>) -> WifiSnapshot<'a> {
    WifiSnapshot {
        wifi_ok: true,
        radio_enabled: true,
        connected: true,
        ssid,
        ip_address: ip,
    }
}

fn wifi_disconnected() -> WifiSnapshot<'static> {
    WifiSnapshot {
        wifi_ok: true,
        radio_enabled: true,
        connected: false,
        ssid: None,
        ip_address: None,
    }
}

fn wifi_radio_off() -> WifiSnapshot<'static> {
    WifiSnapshot {
        radio_enabled: false,
        ..wifi_disconnected()
    }
}

fn hotspot_on<'a>(ssid: &'a str, password: &'a str, ip: Option<&'a str>) -> HotspotSnapshot<'a> {
    HotspotSnapshot {
        on: true,
        ssid,
        password,
        ip_address: ip,
    }
}

#[test]
fn status_wifi_query_failure_reports_unknown_regardless_of_everything_else() {
    let unknown = WifiSnapshot {
        wifi_ok: false,
        ..wifi_connected(Some("home"), Some("192.168.1.2"))
    };
    let status = Status::new(
        &unknown,
        Some(&hotspot_on("AP", "pw", Some("192.168.137.1"))),
    );
    assert_eq!(status.as_elements(), ["s:unknown"]);
}

#[test]
fn connected_wifi_reports_ssid_and_address() {
    let status = Status::new(&wifi_connected(Some("home"), Some("192.168.1.2")), None);
    assert_eq!(
        status.as_elements(),
        ["a:192.168.1.2", "i:home", "s:connected"]
    );
}

#[test]
fn hotspot_reports_when_wifi_is_down() {
    let status = Status::new(
        &wifi_disconnected(),
        Some(&hotspot_on("AP", "pw", Some("192.168.137.1"))),
    );
    assert_eq!(
        status.as_elements(),
        ["a:192.168.137.1", "i:AP", "p:pw", "s:hotspot"]
    );
}

#[test]
fn disconnected_when_wifi_and_hotspot_are_both_down() {
    let status = Status::new(&wifi_disconnected(), None);
    assert_eq!(status.as_elements(), ["s:disconnected"]);
}

#[test]
fn disconnected_when_the_hotspot_is_present_but_off() {
    let off = HotspotSnapshot {
        on: false,
        ..hotspot_on("AP", "pw", None)
    };
    let status = Status::new(&wifi_disconnected(), Some(&off));
    assert_eq!(status.as_elements(), ["s:disconnected"]);
}

#[test]
fn wifi_off_reports_even_with_a_hotspot_argument() {
    let status = Status::new(
        &wifi_radio_off(),
        Some(&hotspot_on("AP", "pw", Some("192.168.137.1"))),
    );
    assert_eq!(status.as_elements(), ["s:wifi-off"]);
}

#[test]
fn state_names_the_overall_state_and_is_empty_until_one_is_reported() {
    assert_eq!(Status::default().state(), None);
    assert_eq!(
        Status::new(&wifi_disconnected(), None).state(),
        Some("disconnected")
    );
}

#[test]
fn with_field_attaches_a_side_channel_value_without_touching_the_rest() {
    let status = Status::new(&wifi_connected(Some("home"), Some("192.168.1.2")), None);
    let tagged = status.with_field("t", "42");
    assert!(tagged.as_elements().contains(&"t:42".to_string()));
    // The original is untouched -- with_field returns a copy.
    assert!(!status.as_elements().contains(&"t:42".to_string()));
    assert_eq!(tagged.as_elements().len(), status.as_elements().len() + 1);
}

#[test]
fn fields_that_cannot_be_read_say_so() {
    let status = Status::new(&wifi_connected(None, None), None);
    assert_eq!(status.as_elements(), ["a:N/A", "i:N/A", "s:connected"]);
    let status = Status::new(&wifi_disconnected(), Some(&hotspot_on("AP", "pw", None)));
    assert_eq!(status.get("a"), Some("N/A"));
    assert_eq!(status.get("x"), None);
}

#[test]
fn setting_a_field_again_replaces_it() {
    let status = Status::default()
        .with_field("b", "1")
        .with_field("a", "2")
        .with_field("c", "3")
        .with_field("b", "4");
    assert_eq!(status.as_elements(), ["a:2", "b:4", "c:3"]);
    assert_eq!(status.clone().as_elements(), status.as_elements());
    assert_eq!(status.clone(), status);
}

#[test]
fn the_difference_holds_what_is_new() {
    let before = Status::new(&wifi_connected(Some("home"), Some("192.168.1.2")), None);
    let after = Status::new(&wifi_connected(Some("work"), Some("192.168.1.2")), None);
    assert_eq!(after.diff(&before).as_elements(), ["i:work"]);
    assert!(after.diff(&after).as_elements().is_empty());
    assert_eq!(
        after.diff(&Status::default()).as_elements(),
        after.as_elements()
    );
    // A field that is gone is no news.
    let gone = Status::new(&wifi_disconnected(), None);
    assert_eq!(gone.diff(&after).as_elements(), ["s:disconnected"]);
}
