//! The status document.

use autospot::status_dump::{
    compute, drive_roots, find_disk_by_label, is_disk, needs_disks, non_empty, resolve_root,
    tmp_name, write_if_changed, ConnectedInfo, DumpConfig, DumpError, HotspotInfo,
    HotspotSnapshot, StatusDump, Volume, WifiSnapshot, NON_WIFI_SSID,
};

fn wifi_connected<'a>(ssid: Option<&'a str>, ip: Option<&'a str>) -> WifiSnapshot<'a> {
    WifiSnapshot {
        connected: true,
        ssid,
        ip_address: ip,
    }
}

fn wifi_disconnected() -> WifiSnapshot<'static> {
    WifiSnapshot {
        connected: false,
        ssid: None,
        ip_address: None,
    }
}

fn hotspot_on<'a>(ssid: &'a str, password: &'a str, ip: Option<&'a str>) -> HotspotSnapshot<'a> {
    HotspotSnapshot {
        on: true,
        ssid,
        password,
        ip_address: ip,
    }
}

fn hotspot_off<'a>() -> HotspotSnapshot<'a> {
    HotspotSnapshot {
        on: false,
        ssid: "",
        password: "",
        ip_address: None,
    }
}

#[test]
fn status_dump_wifi_query_failure_reports_unknown_regardless_of_everything_else() {
    let dump = compute(
        false,
        &wifi_connected(Some("home"), Some("192.168.1.2")),
        Some(&hotspot_on("AP", "pw", Some("192.168.137.1"))),
    );
    assert_eq!(dump, StatusDump::unknown());
    assert_eq!(dump.status, "unknown");
    assert!(dump.connected.is_none());
    assert!(dump.hotspot.is_none());
}

#[test]
fn connected_wifi_reports_ssid_and_ip() {
    let dump = compute(
        true,
        &wifi_connected(Some("home"), Some("192.168.1.2")),
        None,
    );
    assert_eq!(dump.status, "connected");
    assert_eq!(
        dump.connected,
        Some(ConnectedInfo {
            ssid: "home".to_string(),
            ip_address: "192.168.1.2".to_string(),
        })
    );
    assert!(dump.hotspot.is_none());
}

#[test]
fn connected_without_a_readable_ssid_uses_the_ethernet_placeholder() {
    let dump = compute(true, &wifi_connected(None, Some("192.168.1.2")), None);
    assert_eq!(dump.connected.unwrap().ssid, NON_WIFI_SSID);
}

#[test]
fn connected_without_an_ip_yet_uses_an_empty_string() {
    let dump = compute(true, &wifi_connected(Some("home"), None), None);
    assert_eq!(dump.connected.unwrap().ip_address, "");
}

#[test]
fn hotspot_on_reports_when_wifi_is_down() {
    let dump = compute(
        true,
        &wifi_disconnected(),
        Some(&hotspot_on(
            "MyFallbackHotspot",
            "changeme123",
            Some("192.168.137.1"),
        )),
    );
    assert_eq!(dump.status, "hotspot");
    assert_eq!(
        dump.hotspot,
        Some(HotspotInfo {
            ssid: "MyFallbackHotspot".to_string(),
            password: "changeme123".to_string(),
            ip_address: "192.168.137.1".to_string(),
        })
    );
    assert!(dump.connected.is_none());
}

#[test]
fn connected_wifi_wins_over_a_hotspot_still_shutting_down() {
    let dump = compute(
        true,
        &wifi_connected(Some("home"), Some("192.168.1.2")),
        Some(&hotspot_on("AP", "pw", None)),
    );
    assert_eq!(dump.status, "connected");
}

#[test]
fn wifi_down_and_hotspot_off_is_disconnected() {
    let dump = compute(true, &wifi_disconnected(), Some(&hotspot_off()));
    assert_eq!(dump, StatusDump::disconnected());
}

#[test]
fn wifi_down_with_no_hotspot_info_at_all_is_disconnected() {
    let dump = compute(true, &wifi_disconnected(), None);
    assert_eq!(dump, StatusDump::disconnected());
}

#[test]
fn resolve_root_uses_disk_path_directly_without_touching_windows_apis() {
    let cfg = DumpConfig {
        enabled: true,
        disk_label: None,
        disk_path: Some("Z:\\some\\path".to_string()),
        file_name: "status.json".to_string(),
    };
    assert_eq!(resolve_root(&cfg, &[]).unwrap(), "Z:\\some\\path");
    assert!(!needs_disks(&cfg));
}

#[test]
fn only_a_changed_document_is_written() {
    let mut last = None;
    let dump = StatusDump::connected(Some("home"), Some("192.168.1.2"));
    let mut written = Vec::new();

    let wrote = write_if_changed(&dump, &mut last, |d: &StatusDump| {
        written.push(d.clone());
        Ok::<(), String>(())
    });
    assert_eq!(wrote, Ok(true));
    assert_eq!(last.as_ref(), Some(&dump));

    // Second call, same dump: no write.
    let wrote = write_if_changed(&dump, &mut last, |_: &StatusDump| {
        Err("must not be called".to_string())
    });
    assert_eq!(wrote, Ok(false));

    // A write that fails is tried again.
    let dump2 = StatusDump::disconnected();
    let wrote = write_if_changed(&dump2, &mut last, |_: &StatusDump| {
        Err("disk full".to_string())
    });
    assert_eq!(wrote, Err("disk full".to_string()));
    assert_eq!(last.as_ref(), Some(&dump));
    let wrote = write_if_changed(&dump2, &mut last, |d: &StatusDump| {
        written.push(d.clone());
        Ok::<(), String>(())
    });
    assert_eq!(wrote, Ok(true));
    assert_eq!(written, [dump, dump2]);
}

#[test]
fn documents_are_compared_field_by_field() {
    let a = StatusDump::hotspot("AP", "pw", Some("1.2.3.4"));
    assert!(a.same_as(&a.clone()));
    assert!(!a.same_as(&StatusDump::hotspot("AP", "pw2", Some("1.2.3.4"))));
    assert!(!a.same_as(&StatusDump::hotspot("AP", "pw", None)));
    assert!(!a.same_as(&StatusDump::connected(Some("AP"), Some("1.2.3.4"))));
    assert!(!StatusDump::unknown().same_as(&StatusDump::disconnected()));
    let c = StatusDump::connected(None, None);
    assert!(c.same_as(&StatusDump::connected(Some(NON_WIFI_SSID), Some(""))));
}

fn volume(root: &str, drive_type: u32, label: Option<&str>) -> Volume {
    Volume {
        root: root.to_string(),
        drive_type,
        label: label.map(|l| l.encode_utf16().chain([0, 0]).collect()),
    }
}

#[test]
fn a_disk_is_found_by_its_label() {
    let volumes = [
        volume("C:\\", 3, Some("System")),
        volume("D:\\", 5, Some("CIRCUITPY")),
        volume("E:\\", 2, None),
        volume("F:\\", 2, Some("CircuitPy")),
        volume("G:\\", 2, Some("CIRCUITPY")),
    ];
    assert_eq!(find_disk_by_label(" circuitpy ", &volumes), Some("F:\\"));
    assert_eq!(find_disk_by_label("other", &volumes), None);
    assert!(is_disk(2) && is_disk(3) && !is_disk(5));

    let cfg = DumpConfig {
        enabled: true,
        disk_label: Some(" CircuitPy".to_string()),
        disk_path: Some("  ".to_string()),
        file_name: "status.json".to_string(),
    };
    assert!(needs_disks(&cfg));
    assert_eq!(resolve_root(&cfg, &volumes).unwrap(), "F:\\");
    let err = resolve_root(&cfg, &volumes[..2]).unwrap_err();
    assert_eq!(
        err.message(),
        "no disk labeled 'CircuitPy' is currently present"
    );
    let nowhere = DumpConfig {
        disk_label: None,
        ..cfg
    };
    assert_eq!(
        resolve_root(&nowhere, &volumes),
        Err(DumpError::NotConfigured)
    );
    assert_eq!(
        DumpError::NotConfigured.message(),
        "status-dump is enabled but has neither disk_label nor disk_path"
    );
}

#[test]
fn drives_have_letters() {
    assert_eq!(drive_roots(0x0100_00c4).unwrap(), [
        "C:\\", "G:\\", "H:\\", "Y:\\"
    ]);
    assert_eq!(drive_roots(0x0200_0001).unwrap(), ["A:\\", "Z:\\"]);
    // Only twenty-six letters count.
    assert!(drive_roots(0x8000_0000).unwrap().is_empty());
    assert_eq!(drive_roots(0), Err(DumpError::NoDrives));
    assert_eq!(
        DumpError::NoDrives.message(),
        "GetLogicalDrives reported no drives at all"
    );
}

#[test]
fn blank_settings_count_as_missing() {
    assert_eq!(non_empty(Some("  x ")), Some("x"));
    assert_eq!(non_empty(Some("   ")), None);
    assert_eq!(non_empty(None), None);
}

#[test]
fn the_document_is_written_beside_its_place_first() {
    assert_eq!(tmp_name(Some("net.json")), "net.json.tmp");
    assert_eq!(tmp_name(None), "status.json.tmp");
}
