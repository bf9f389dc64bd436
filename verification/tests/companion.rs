//! The companion.

use autospot::companion::{
    redact_for_log, CompanionConn, CompanionSession, Delivery, PortInfo, UsbInfo, BAUD_RATE,
};
use autospot::config::CompanionConfig;
use autospot::status::Status;
use autospot::time::{Duration, Instant};

fn at(secs: u64) -> Instant {
    Instant::at(Duration::from_secs(secs))
}

fn usb(
    name: &str,
    vid: u16,
    pid: u16,
    manufacturer: Option<&str>,
    product: Option<&str>,
) -> PortInfo {
    PortInfo {
        name: name.to_string(),
        usb: Some(UsbInfo {
            vid,
            pid,
            manufacturer: manufacturer.map(str::to_string),
            product: product.map(str::to_string),
        }),
    }
}

fn port_of(config: CompanionConfig, ports: &[PortInfo]) -> Option<String> {
    CompanionConn::new(config, ports).map(|c| c.port_name)
}

fn configured(vid: Option<u16>, pid: Option<u16>) -> CompanionConfig {
    CompanionConfig {
        enabled: true,
        vid,
        pid,
    }
}

#[test]
fn a_companion_is_found_by_its_ids_or_its_name() {
    let plain = PortInfo {
        name: "COM1".to_string(),
        usb: None,
    };
    let stranger = usb("COM2", 1, 2, Some("autoport"), Some("mouse"));
    let by_default = usb("COM3", 0x1209, 0x3a01, None, None);
    let by_name = usb("COM4", 7, 7, Some("autoport"), Some("companion"));
    let ports = [plain, stranger, by_default, by_name];
    assert_eq!(port_of(configured(None, None), &ports).as_deref(), Some("COM3"));
    assert_eq!(port_of(configured(Some(1), Some(2)), &ports).as_deref(), Some("COM2"));
    // Half a pair of ids is none.
    assert_eq!(port_of(configured(Some(1), None), &ports).as_deref(), Some("COM3"));
    assert_eq!(port_of(configured(None, None), &ports[3..]).as_deref(), Some("COM4"));
    assert_eq!(port_of(configured(None, None), &ports[..2]), None);
    assert_eq!(port_of(configured(None, None), &[]), None);
}

#[test]
fn a_status_is_sent_line_by_line() {
    let conn = CompanionConn {
        port_name: "COM3".to_string(),
    };
    let status = Status::default().with_field("s", "hotspot").with_field("p", "pw");
    assert_eq!(conn.write_status(&status), ["p:pw\n", "s:hotspot\n"]);
    assert_eq!(BAUD_RATE, 9600);
}

#[test]
fn the_password_never_ends_up_in_a_log() {
    let elements = ["a:1.2.3.4", "i:p:x", "p:secret", "p:", "s:hotspot"].map(str::to_string);
    assert_eq!(
        redact_for_log(&elements),
        ["a:1.2.3.4", "i:p:x", "p:<redacted>", "p:<redacted>", "s:hotspot"]
    );
}

fn sent(delivery: Delivery) -> Vec<String> {
    match delivery {
        Delivery::Send { companion, status } => {
            assert_eq!(companion.port_name, "COM3");
            status.as_elements()
        }
        Delivery::Missing { .. } => panic!("there is a companion"),
    }
}

fn warned(delivery: Delivery) -> bool {
    match delivery {
        Delivery::Send { .. } => panic!("there is no companion"),
        Delivery::Missing { warn } => warn,
    }
}

#[test]
fn only_changes_are_sent_with_the_age_of_the_state() {
    let ports = [usb("COM3", 0x1209, 0x3a01, None, None)];
    let mut session = CompanionSession::new(configured(None, None), at(100));
    let home = Status::default()
        .with_field("s", "connected")
        .with_field("i", "home")
        .with_field("a", "N/A");
    assert_eq!(
        sent(session.report(at(105), home.clone(), &ports)),
        ["a:N/A", "i:home", "s:connected", "t:0"]
    );
    // Another address is no other state.
    let addressed = home.with_field("a", "10.0.0.5");
    assert_eq!(
        sent(session.report(at(110), addressed.clone(), &ports)),
        ["a:10.0.0.5", "t:5"]
    );
    assert_eq!(sent(session.report(at(115), addressed, &ports)), ["t:10"]);
    let lost = Status::default().with_field("s", "disconnected");
    assert_eq!(
        sent(session.report(at(120), lost.clone(), &ports)),
        ["s:disconnected", "t:0"]
    );
    // Time is kept while there is no companion.
    assert!(warned(session.report(at(125), lost.clone(), &[])));
    assert_eq!(sent(session.report(at(130), lost, &ports)), ["t:10"]);
}

#[test]
fn a_late_companion_is_told_only_what_changes() {
    let ports = [usb("COM3", 0x1209, 0x3a01, None, None)];
    let mut session = CompanionSession::new(configured(None, None), at(0));
    let home = Status::default()
        .with_field("s", "connected")
        .with_field("i", "home");
    assert!(warned(session.report(at(1), home.clone(), &[])));
    assert_eq!(sent(session.report(at(6), home.clone(), &ports)), ["t:5"]);
    let elsewhere = home.with_field("i", "elsewhere");
    assert_eq!(
        sent(session.report(at(11), elsewhere, &ports)),
        ["i:elsewhere", "t:10"]
    );
}

#[test]
fn a_missing_companion_is_mentioned_once() {
    let ports = [usb("COM3", 0x1209, 0x3a01, None, None)];
    let mut session = CompanionSession::new(configured(None, None), at(0));
    let status = || Status::default().with_field("s", "disconnected");
    assert!(warned(session.report(at(1), status(), &[])));
    assert!(!warned(session.report(at(2), status(), &[])));
    sent(session.report(at(3), status(), &ports));
    assert!(warned(session.report(at(4), status(), &[])));
    assert!(!warned(session.report(at(5), status(), &[])));
}
