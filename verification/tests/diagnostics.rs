//! What the status command says.

use autospot::adapters::{Adapter, Guid};
use autospot::config::{Band, CompanionConfig, Config, HotspotConfig, LoggingConfig, MonitorConfig};
use autospot::diagnostics::{or_unknown, role_of, status_report, HotspotFindings};
use autospot::hotspot::State;
use autospot::uplink::resolve_hotspot_adapter;
use autospot::wifi::{InterfaceStatus, WifiStatus};

fn config(uplink_adapter: &str) -> Config {
    Config {
        monitor: MonitorConfig::default(),
        hotspot: HotspotConfig {
            ssid: "Fallback".to_string(),
            passphrase: "password1".to_string(),
            band: Band::Auto,
            uplink_adapter: uplink_adapter.to_string(),
            hotspot_adapter: "auto".to_string(),
        },
        companion: CompanionConfig::default(),
        logging: LoggingConfig::default(),
    }
}

fn adapters() -> [Adapter; 2] {
    let adapter = |n: u32, name: &str, description: &str, ipv4: &[&str]| Adapter {
        guid: Guid {
            data1: n,
            data2: 0,
            data3: 0,
            data4: [0; 8],
        },
        friendly_name: name.to_string(),
        description: description.to_string(),
        is_ethernet: n == 1,
        is_wifi: n == 2,
        ipv4: ipv4.iter().map(|s| s.to_string()).collect(),
    };
    [
        adapter(1, "Ethernet", "Realtek", &["10.0.0.5", "10.0.0.6"]),
        adapter(2, "Wi-Fi", "Intel", &[]),
    ]
}

#[test]
fn everything_is_reported() {
    let wifi = WifiStatus {
        interfaces: vec![
            InterfaceStatus {
                description: "Intel".to_string(),
                connected: true,
                ssid: Some("Fallback".to_string()),
                radio_enabled: true,
            },
            InterfaceStatus {
                description: "realtek".to_string(),
                connected: false,
                ssid: None,
                radio_enabled: true,
            },
        ],
    };
    let findings = Ok(HotspotFindings {
        uplink_profile: "Ethernet".to_string(),
        state: Some(State::On),
        ssid: None,
        clients: Some(3),
    });
    assert_eq!(
        status_report(&config("auto"), Ok(&wifi), &adapters(), &findings),
        [
            "Wi-Fi interfaces:",
            "  Intel -- connected to 'Fallback'",
            "  realtek -- not connected , 10.0.0.5",
            "  => watchdog sees Wi-Fi as: DISCONNECTED",
            "\nNetwork adapters:",
            "   'Ethernet' (Realtek, 10.0.0.5, 10.0.0.6)  <== auto-selected uplink.",
            "   'Wi-Fi' (Intel)  <== hotspot adapter (excluded from uplink).",
            "\nHotspot adapter ('auto' -> Wi-Fi):",
            "Hotspot (uplink 'auto' -> Ethernet):",
            "  uplink profile: Ethernet",
            "  state:          on",
            "  current SSID:   ?",
            "  clients:        3",
            "  configured SSID: Fallback",
        ]
    );
}

#[test]
fn what_cannot_be_read_is_reported_as_such() {
    let findings = Err("no uplink".to_string());
    assert_eq!(
        status_report(&config("LTE"), Err("no WLAN service"), &[], &findings),
        [
            "Wi-Fi interfaces:",
            "  error: no WLAN service",
            "\nNetwork adapters:",
            "  (none found, or enumeration failed -- see log)",
            "\nHotspot adapter ('auto' -> none detected):",
            "Hotspot (uplink 'LTE'):",
            "  error: no uplink",
        ]
    );
    let lines = status_report(&config("auto"), Ok(&WifiStatus::default()), &[], &findings);
    assert_eq!(lines[1], "  (none found)");
    assert_eq!(lines[5], "Hotspot (uplink 'auto' -> ?):");
}

#[test]
fn adapters_have_roles() {
    let adapters = adapters();
    let hotspot = resolve_hotspot_adapter("auto", &adapters);
    let role = |cfg: &Config, i: usize, label| role_of(cfg, &adapters[i], &hotspot, label);
    let named = config(" REALTEK ");
    assert_eq!(role(&named, 0, Some("Ethernet")), " <== configured uplink");
    assert_eq!(
        role(&config("Wi-Fi"), 1, Some("Wi-Fi")),
        " <== hotspot adapter (excluded from uplink)"
    );
    assert_eq!(role(&config("Wi-Fi"), 0, Some("Ethernet")), "");
    assert_eq!(role(&config("auto"), 0, Some("ethernet")), "");
    assert_eq!(role(&config("auto"), 0, None), "");
}

#[test]
fn a_value_that_cannot_be_read_is_a_question_mark() {
    assert_eq!(or_unknown(None), "?");
    assert_eq!(or_unknown(Some("on")), "on");
}
