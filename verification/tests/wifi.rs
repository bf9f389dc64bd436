//! Wi-Fi status.

use autospot::text::wide_to_string;
use autospot::wifi::{
    current_ssid, is_connected_state, radio_enabled, read_interface, ssid_from, InterfaceStatus,
    RadioReading, SsidReading, WifiStatus,
};

fn iface(connected: bool, ssid: Option<&str>) -> InterfaceStatus {
    InterfaceStatus {
        description: "test".into(),
        connected,
        ssid: ssid.map(str::to_string),
        radio_enabled: true,
    }
}

#[test]
fn no_adapters_means_not_connected() {
    assert!(!WifiStatus::default().is_connected(None));
}

#[test]
fn a_connected_adapter_counts() {
    let status = WifiStatus {
        interfaces: vec![iface(false, None), iface(true, Some("home"))],
    };
    assert!(status.is_connected(None));
    assert_eq!(status.connected_ssid(None), Some("home"));
}

#[test]
fn our_own_hotspot_ssid_does_not_count_as_wifi() {
    let status = WifiStatus {
        interfaces: vec![iface(true, Some("MyFallbackHotspot"))],
    };
    assert!(!status.is_connected(Some("MyFallbackHotspot")));
    assert!(!status.is_connected(Some("myfallbackhotspot")));
    assert!(status.is_connected(Some("SomethingElse")));
}

#[test]
fn a_real_network_still_counts_while_the_hotspot_runs() {
    let status = WifiStatus {
        interfaces: vec![iface(true, Some("MyFallbackHotspot")), iface(true, Some("home"))],
    };
    assert!(status.is_connected(Some("MyFallbackHotspot")));
    assert_eq!(status.connected_ssid(Some("MyFallbackHotspot")), Some("home"));
}

#[test]
fn connected_without_a_readable_ssid_still_counts() {
    let status = WifiStatus {
        interfaces: vec![iface(true, None)],
    };
    assert!(status.is_connected(Some("MyFallbackHotspot")));
    assert_eq!(status.connected_ssid(Some("MyFallbackHotspot")), None);
}

#[test]
fn no_interfaces_counts_as_radio_state_unknown_not_disabled() {
    assert!(WifiStatus::default().radio_enabled());
}

#[test]
fn any_interface_with_radio_on_counts() {
    let mut off = iface(false, None);
    off.radio_enabled = false;
    let status = WifiStatus {
        interfaces: vec![off, iface(true, Some("home"))],
    };
    assert!(status.radio_enabled());
}

#[test]
fn all_radios_off_means_wifi_is_disabled() {
    let mut a = iface(false, None);
    a.radio_enabled = false;
    let mut b = iface(false, None);
    b.radio_enabled = false;
    let status = WifiStatus {
        interfaces: vec![a, b],
    };
    assert!(!status.radio_enabled());
}

#[test]
fn trims_at_the_first_nul() {
    let mut buf = [0u16; 8];
    for (i, c) in "Wi-Fi".encode_utf16().enumerate() {
        buf[i] = c;
    }
    assert_eq!(wide_to_string(&buf), "Wi-Fi");
}

#[test]
fn the_first_active_interface_is_the_one() {
    let status = WifiStatus {
        interfaces: vec![iface(false, Some("x")), iface(true, Some("a")), iface(true, Some("b"))],
    };
    assert_eq!(
        status.active_interface(None).unwrap().ssid.as_deref(),
        Some("a")
    );
    assert_eq!(
        status.active_interface(Some("A")).unwrap().ssid.as_deref(),
        Some("b")
    );
}

#[test]
fn an_ssid_is_read_up_to_its_length() {
    let bytes = *b"homenet\0\0\0";
    let name = |length| {
        current_ssid(&SsidReading {
            length,
            bytes: &bytes,
        })
    };
    assert_eq!(name(4).as_deref(), Some("home"));
    assert_eq!(name(7).as_deref(), Some("homenet"));
    assert_eq!(name(0), None);
    // A length beyond the buffer is cut to it.
    assert_eq!(name(99).unwrap().len(), bytes.len());
}

#[test]
fn an_ssid_that_is_not_utf8_is_read_with_replacement_characters() {
    let reading = SsidReading {
        length: 3,
        bytes: &[b'a', 0xff, b'b'],
    };
    assert_eq!(current_ssid(&reading).as_deref(), Some("a\u{fffd}b"));
    let reading = SsidReading {
        length: 5,
        bytes: "Caf\u{e9}".as_bytes(),
    };
    assert_eq!(current_ssid(&reading).as_deref(), Some("Caf\u{e9}"));
}

#[test]
fn an_empty_name_is_no_name() {
    assert_eq!(ssid_from(String::new()), None);
    assert_eq!(ssid_from("x".to_string()), Some("x".to_string()));
}

#[test]
fn a_radio_counts_as_on_unless_known_to_be_off() {
    assert!(radio_enabled(&None));
    let read = |phys, states: &[i32]| radio_enabled(&Some(RadioReading { phys, states }));
    assert!(read(2, &[2, 1]));
    assert!(!read(1, &[2, 1]));
    assert!(!read(2, &[2, 2]));
    assert!(!read(0, &[1]));
    assert!(read(9, &[0, 1]));
}

#[test]
fn an_interface_is_read_from_what_the_driver_reports() {
    let description: Vec<u16> = "Intel(R)".encode_utf16().chain([0, 65]).collect();
    let connection = || {
        Some(SsidReading {
            length: 4,
            bytes: b"home",
        })
    };
    let on = read_interface(&description, 1, connection(), None);
    assert_eq!(on.description, "Intel(R)");
    assert!(on.connected);
    assert_eq!(on.ssid.as_deref(), Some("home"));
    assert!(on.radio_enabled);

    // The SSID only exists while associated.
    let off = read_interface(
        &description,
        4,
        connection(),
        Some(RadioReading {
            phys: 1,
            states: &[2],
        }),
    );
    assert!(!off.connected);
    assert_eq!(off.ssid, None);
    assert!(!off.radio_enabled);

    assert!(is_connected_state(1));
    assert!(!is_connected_state(4));
}
