//! The watchdog.

use autospot::adapters::{Adapter, Guid};
use autospot::companion::{Delivery, PortInfo, UsbInfo};
use autospot::config::{Band, CompanionConfig, Config, HotspotConfig, LoggingConfig, MonitorConfig};
use autospot::hotspot::State;
use autospot::policy::Intent;
use autospot::time::{Duration, Instant};
use autospot::watchdog::{
    action_for, announcement, hotspot_summary_text, query_hotspot, start_result, status_line,
    stop_decision, stop_result, wifi_status_text, Action, HotspotReading, LiveHotspot, Readings,
    StartDecision, StartResult, StopDecision, StopResult, Watchdog,
};
use autospot::wifi::{InterfaceStatus, WifiStatus};

fn test_config() -> Config {
    Config {
        monitor: MonitorConfig::default(),
        hotspot: HotspotConfig {
            ssid: "Fallback".to_string(),
            passphrase: "password1".to_string(),
            band: Band::Auto,
            uplink_adapter: "Ethernet".to_string(),
            hotspot_adapter: "auto".to_string(),
        },
        companion: CompanionConfig::default(),
        logging: LoggingConfig::default(),
    }
}

fn adapter(friendly: &str, description: &str, ipv4: &[&str]) -> Adapter {
    Adapter {
        guid: Guid::zeroed(),
        friendly_name: friendly.into(),
        description: description.into(),
        is_ethernet: false,
        is_wifi: false,
        ipv4: ipv4.iter().map(|s| s.to_string()).collect(),
    }
}

fn connected_status(description: &str, ssid: &str) -> WifiStatus {
    WifiStatus {
        interfaces: vec![InterfaceStatus {
            description: description.into(),
            connected: true,
            ssid: Some(ssid.into()),
            radio_enabled: true,
        }],
    }
}

fn disconnected_status() -> WifiStatus {
    WifiStatus { interfaces: vec![] }
}

#[test]
fn watchdog_wifi_status_text_shows_ssid_and_ip_when_connected() {
    let status = connected_status("Intel(R) Wireless-AC 7260", "banderstadt");
    let adapters = [adapter(
        "Wi-Fi",
        "Intel(R) Wireless-AC 7260",
        &["192.168.10.218"],
    )];
    assert_eq!(
        wifi_status_text(&status, &adapters, None, &Intent::Idle),
        "Wi-Fi: connected to 'banderstadt' (192.168.10.218)"
    );
}

#[test]
fn watchdog_wifi_status_text_flags_a_missing_ip_rather_than_hiding_it() {
    let status = connected_status("Intel(R) Wireless-AC 7260", "banderstadt");
    assert_eq!(
        wifi_status_text(&status, &[], None, &Intent::Idle),
        "Wi-Fi: connected to 'banderstadt' (no IP yet)"
    );
}

#[test]
fn watchdog_wifi_status_text_reports_disconnected() {
    assert_eq!(
        wifi_status_text(&disconnected_status(), &[], None, &Intent::WifiLost),
        "Wi-Fi: disconnected"
    );
}

#[test]
fn watchdog_wifi_status_text_appends_a_countdown_while_waiting() {
    let intent = Intent::Waiting {
        remaining: Duration::from_secs(75),
    };
    assert_eq!(
        wifi_status_text(&disconnected_status(), &[], None, &intent),
        "Wi-Fi: disconnected (hotspot in 75s)"
    );
}

#[test]
fn watchdog_wifi_status_text_appends_a_retry_countdown() {
    let intent = Intent::HoldingForRetry {
        retry_in: Duration::from_secs(30),
    };
    assert_eq!(
        wifi_status_text(&disconnected_status(), &[], None, &intent),
        "Wi-Fi: disconnected (retrying hotspot start in 30s)"
    );
}

fn other_intents() -> [Intent; 4] {
    [
        Intent::Idle,
        Intent::WifiLost,
        Intent::StartHotspot {
            down_for: Duration::from_secs(120),
        },
        Intent::WifiRestored {
            down_for: Duration::from_secs(5),
            stop_hotspot: true,
        },
    ]
}

#[test]
fn watchdog_wifi_status_text_has_no_suffix_for_other_intents() {
    for intent in other_intents() {
        assert_eq!(
            wifi_status_text(&disconnected_status(), &[], None, &intent),
            "Wi-Fi: disconnected"
        );
    }
}

#[test]
fn monitor_wifi_status_text_shows_ssid_and_ip_when_connected() {
    let status = connected_status("Intel(R) Wireless-AC 7260", "banderstadt");
    let adapters = [adapter(
        "Wi-Fi",
        "Intel(R) Wireless-AC 7260",
        &["192.168.10.218"],
    )];
    assert_eq!(
        wifi_status_text(&status, &adapters, None, &Intent::Idle),
        "Wi-Fi: connected to 'banderstadt' (192.168.10.218)"
    );
}

#[test]
fn monitor_wifi_status_text_flags_a_missing_ip_rather_than_hiding_it() {
    let status = connected_status("Intel(R) Wireless-AC 7260", "banderstadt");
    assert_eq!(
        wifi_status_text(&status, &[], None, &Intent::Idle),
        "Wi-Fi: connected to 'banderstadt' (no IP yet)"
    );
}

#[test]
fn monitor_wifi_status_text_reports_disconnected() {
    assert_eq!(
        wifi_status_text(&disconnected_status(), &[], None, &Intent::WifiLost),
        "Wi-Fi: disconnected"
    );
}

#[test]
fn monitor_wifi_status_text_appends_a_countdown_while_waiting() {
    let intent = Intent::Waiting {
        remaining: Duration::from_secs(75),
    };
    assert_eq!(
        wifi_status_text(&disconnected_status(), &[], None, &intent),
        "Wi-Fi: disconnected (hotspot in 75s)"
    );
}

#[test]
fn monitor_wifi_status_text_appends_a_retry_countdown() {
    let intent = Intent::HoldingForRetry {
        retry_in: Duration::from_secs(30),
    };
    assert_eq!(
        wifi_status_text(&disconnected_status(), &[], None, &intent),
        "Wi-Fi: disconnected (retrying hotspot start in 30s)"
    );
}

#[test]
fn monitor_wifi_status_text_has_no_suffix_for_other_intents() {
    for intent in other_intents() {
        assert_eq!(
            wifi_status_text(&disconnected_status(), &[], None, &intent),
            "Wi-Fi: disconnected"
        );
    }
}

#[test]
fn hotspot_summary_reports_off_when_there_is_nothing_to_report() {
    assert_eq!(hotspot_summary_text(None, &[]), "off");
}

#[test]
fn hotspot_summary_reports_ssid_ip_and_clients_when_on() {
    let live = LiveHotspot {
        state: State::On,
        ssid: "Fallback".to_string(),
        clients: 2,
    };
    let adapters = [adapter("adapter-1", "", &["192.168.137.1"])];
    assert_eq!(
        hotspot_summary_text(Some(&live), &adapters),
        "on (ssid='Fallback', ip=192.168.137.1, clients=2)"
    );
    // Without the ICS address there is no IP to show yet.
    assert_eq!(
        hotspot_summary_text(Some(&live), &[]),
        "on (ssid='Fallback', clients=2)"
    );
}

#[test]
fn hotspot_summary_names_the_other_states() {
    let text = |state| {
        hotspot_summary_text(
            Some(&LiveHotspot {
                state,
                ssid: String::new(),
                clients: 0,
            }),
            &[],
        )
    };
    assert_eq!(text(State::InTransition), "starting/stopping");
    assert_eq!(text(State::Off), "off");
    assert_eq!(text(State::Unknown), "unknown");
}

#[test]
fn the_status_line_has_both_halves() {
    let mut status = connected_status("nic", "home");
    status.interfaces[0].ssid = None;
    assert_eq!(
        status_line(&status, &[], Some("Fallback"), &Intent::Idle, None),
        "Wi-Fi: connected to '?' (no IP yet) | Hotspot: off"
    );
}

#[test]
fn a_live_hotspot_is_read_as_far_as_it_goes() {
    let cfg = test_config();
    assert_eq!(query_hotspot(&cfg, None), None);
    let reading = HotspotReading {
        state: None,
        ssid: Some("AP".to_string()),
        clients: Some(1),
    };
    assert_eq!(query_hotspot(&cfg, Some(reading.clone())), None);
    let reading = HotspotReading {
        state: Some(State::On),
        ..reading
    };
    assert_eq!(
        query_hotspot(&cfg, Some(reading)),
        Some(LiveHotspot {
            state: State::On,
            ssid: "AP".to_string(),
            clients: 1,
        })
    );
    let bare = HotspotReading {
        state: Some(State::Off),
        ssid: None,
        clients: None,
    };
    assert_eq!(
        query_hotspot(&cfg, Some(bare)),
        Some(LiveHotspot {
            state: State::Off,
            ssid: "Fallback".to_string(),
            clients: 0,
        })
    );
}

fn at(secs: u64) -> Instant {
    Instant::at(Duration::from_secs(secs))
}

fn readings<'r>(wifi: Option<&'r WifiStatus>) -> Readings<'r> {
    Readings {
        wifi,
        adapters: &[],
        hotspot: None,
        ports: &[],
    }
}

#[test]
fn an_outage_ends_in_a_hotspot_and_a_reconnection_without() {
    let cfg = test_config();
    let mut w = Watchdog::new(&cfg, at(0));
    let down = disconnected_status();
    // Our own hotspot is no Wi-Fi.
    let own = connected_status("nic", "FALLBACK");
    let home = connected_status("nic", "home");

    let tick = w.tick(at(0), &readings(Some(&home)));
    assert_eq!(tick.intent, Some(Intent::Idle));
    assert!(tick.delivery.is_none());

    let tick = w.tick(at(5), &readings(Some(&down)));
    assert_eq!(tick.intent, Some(Intent::WifiLost));
    assert_eq!(
        tick.line.as_deref(),
        Some("Wi-Fi: disconnected | Hotspot: off")
    );
    let tick = w.tick(at(10), &readings(Some(&own)));
    assert_eq!(
        tick.line.as_deref(),
        Some("Wi-Fi: disconnected (hotspot in 115s) | Hotspot: off")
    );

    // An unreadable Wi-Fi stack decides nothing.
    let tick = w.tick(at(130), &readings(None));
    assert_eq!(tick.intent, None);
    assert_eq!(tick.line, None);

    let intent = w.tick(at(125), &readings(Some(&down))).intent.unwrap();
    assert_eq!(action_for(&intent), Action::StartHotspot);
    w.finish_start(at(125), StartResult::Failed);
    let intent = w.tick(at(130), &readings(Some(&down))).intent.unwrap();
    assert_eq!(
        intent,
        Intent::HoldingForRetry {
            retry_in: Duration::from_secs(55)
        }
    );
    assert_eq!(action_for(&intent), Action::Nothing);
    let intent = w.tick(at(185), &readings(Some(&down))).intent.unwrap();
    assert_eq!(action_for(&intent), Action::StartHotspot);
    w.finish_start(at(185), StartResult::Started);

    let intent = w.tick(at(300), &readings(Some(&home))).intent.unwrap();
    assert_eq!(action_for(&intent), Action::StopHotspot);
    // A stop that fails is asked for again at the next reconnection.
    w.finish_stop(StopResult::Failed);
    w.tick(at(305), &readings(Some(&down)));
    let intent = w.tick(at(310), &readings(Some(&home))).intent.unwrap();
    assert_eq!(action_for(&intent), Action::StopHotspot);
    w.finish_stop(StopResult::Stopped);
    w.tick(at(315), &readings(Some(&down)));
    let intent = w.tick(at(320), &readings(Some(&home))).intent.unwrap();
    assert_eq!(action_for(&intent), Action::Nothing);
}

#[test]
fn a_hotspot_that_is_not_ours_is_left_alone() {
    let mut cfg = test_config();
    cfg.monitor.disconnect_threshold_secs = 1;
    let mut w = Watchdog::new(&cfg, at(0));
    let down = disconnected_status();
    w.tick(at(0), &readings(Some(&down)));
    let intent = w.tick(at(1), &readings(Some(&down))).intent.unwrap();
    assert_eq!(action_for(&intent), Action::StartHotspot);
    let decision = w.start_decision(&down, Some(State::On), Some("Somebody's"));
    assert_eq!(decision, Some(StartDecision::LeaveOn { mention: true }));
    w.finish_start(at(1), start_result(decision, true));
    let home = connected_status("nic", "home");
    let intent = w.tick(at(2), &readings(Some(&home))).intent.unwrap();
    assert_eq!(action_for(&intent), Action::Nothing);
}

#[test]
fn a_hotspot_stays_on_where_so_configured() {
    let mut cfg = test_config();
    cfg.monitor.auto_disable_on_reconnect = false;
    let mut w = Watchdog::new(&cfg, at(0));
    w.tick(at(0), &readings(Some(&disconnected_status())));
    w.finish_start(at(0), StartResult::Started);
    let home = connected_status("nic", "home");
    let intent = w.tick(at(9), &readings(Some(&home))).intent.unwrap();
    assert_eq!(
        intent,
        Intent::WifiRestored {
            down_for: Duration::from_secs(9),
            stop_hotspot: false,
        }
    );
}

#[test]
fn starting_depends_on_the_state() {
    let cfg = test_config();
    let w = Watchdog::new(&cfg, at(0));
    let down = disconnected_status();
    assert_eq!(
        w.start_decision(&down, Some(State::On), Some("Fallback")),
        Some(StartDecision::LeaveOn { mention: false })
    );
    assert_eq!(
        w.start_decision(&down, Some(State::On), Some("fallback")),
        Some(StartDecision::LeaveOn { mention: true })
    );
    assert_eq!(
        w.start_decision(&down, Some(State::On), None),
        Some(StartDecision::LeaveOn { mention: true })
    );
    assert_eq!(
        w.start_decision(&down, Some(State::InTransition), None),
        Some(StartDecision::Wait)
    );
    assert_eq!(
        w.start_decision(&down, Some(State::Off), None),
        Some(StartDecision::Start)
    );
    assert_eq!(
        w.start_decision(&down, Some(State::Unknown), None),
        Some(StartDecision::Start)
    );
    assert_eq!(w.start_decision(&down, None, Some("Fallback")), None);

    assert_eq!(w.may_start(&disconnected_status()), Ok(()));
    let mut off = connected_status("nic", "home");
    off.interfaces[0].radio_enabled = false;
    assert_eq!(
        w.may_start(&off),
        Err(
            "Wi-Fi is turned off; not starting the hotspot (Mobile Hotspot needs the Wi-Fi radio \
             on to broadcast)"
        )
    );
    assert_eq!(w.start_decision(&off, Some(State::Off), None), None);
    assert_eq!(w.start_decision(&off, Some(State::On), Some("Fallback")), None);
}

#[test]
fn an_attempt_that_cannot_be_made_is_repeated_after_the_backoff() {
    let cfg = test_config();
    let off = WifiStatus {
        interfaces: vec![InterfaceStatus {
            description: "nic".into(),
            connected: false,
            ssid: None,
            radio_enabled: false,
        }],
    };
    let down = disconnected_status();
    for (wifi, state) in [(&off, Some(State::Off)), (&down, None)] {
        let mut w = Watchdog::new(&cfg, at(0));
        w.tick(at(0), &readings(Some(wifi)));
        let intent = w.tick(at(120), &readings(Some(wifi))).intent.unwrap();
        assert_eq!(action_for(&intent), Action::StartHotspot);
        let decision = w.start_decision(wifi, state, None);
        assert_eq!(decision, None);
        let result = start_result(decision, true);
        assert_eq!(result, StartResult::Failed);
        w.finish_start(at(120), result);
        let intent = w.tick(at(179), &readings(Some(wifi))).intent.unwrap();
        assert_eq!(action_for(&intent), Action::Nothing);
        let intent = w.tick(at(180), &readings(Some(wifi))).intent.unwrap();
        assert_eq!(action_for(&intent), Action::StartHotspot);
    }
}

#[test]
fn a_stop_that_cannot_be_made_keeps_ownership() {
    let cfg = test_config();
    let mut w = Watchdog::new(&cfg, at(0));
    let down = disconnected_status();
    let home = connected_status("nic", "home");
    w.tick(at(0), &readings(Some(&down)));
    w.finish_start(at(0), StartResult::Started);
    w.tick(at(5), &readings(Some(&home)));
    w.finish_stop(stop_result(stop_decision(None), true));
    w.tick(at(10), &readings(Some(&down)));
    let intent = w.tick(at(15), &readings(Some(&home))).intent.unwrap();
    assert_eq!(action_for(&intent), Action::StopHotspot);
    w.finish_stop(stop_result(stop_decision(Some(State::Off)), false));
    w.tick(at(20), &readings(Some(&down)));
    let intent = w.tick(at(25), &readings(Some(&home))).intent.unwrap();
    assert_eq!(action_for(&intent), Action::Nothing);
}

#[test]
fn stopping_depends_on_the_state() {
    assert_eq!(stop_decision(Some(State::Off)), Some(StopDecision::AlreadyOff));
    assert_eq!(stop_decision(Some(State::InTransition)), Some(StopDecision::Wait));
    assert_eq!(stop_decision(Some(State::On)), Some(StopDecision::Stop));
    assert_eq!(stop_decision(Some(State::Unknown)), Some(StopDecision::Stop));
    assert_eq!(stop_decision(None), None);
}

#[test]
fn attempts_come_to_something() {
    let leave = StartDecision::LeaveOn { mention: false };
    for switched_on in [false, true] {
        assert_eq!(start_result(None, switched_on), StartResult::Failed);
        assert_eq!(start_result(Some(leave), switched_on), StartResult::NotNeeded);
        assert_eq!(
            start_result(Some(StartDecision::Wait), switched_on),
            StartResult::NotNeeded
        );
    }
    assert_eq!(start_result(Some(StartDecision::Start), true), StartResult::Started);
    assert_eq!(start_result(Some(StartDecision::Start), false), StartResult::Failed);

    for switched_off in [false, true] {
        assert_eq!(stop_result(None, switched_off), StopResult::Failed);
        assert_eq!(
            stop_result(Some(StopDecision::AlreadyOff), switched_off),
            StopResult::Stopped
        );
        assert_eq!(
            stop_result(Some(StopDecision::Wait), switched_off),
            StopResult::NotYet
        );
    }
    assert_eq!(stop_result(Some(StopDecision::Stop), true), StopResult::Stopped);
    assert_eq!(stop_result(Some(StopDecision::Stop), false), StopResult::Failed);
}

#[test]
fn an_outage_counts_while_we_still_own_a_hotspot() {
    let cfg = test_config();
    let mut w = Watchdog::new(&cfg, at(0));
    let down = disconnected_status();
    let home = connected_status("nic", "home");
    w.tick(at(0), &readings(Some(&down)));
    w.finish_start(at(0), StartResult::Started);
    w.tick(at(5), &readings(Some(&home)));
    w.finish_stop(StopResult::Failed);
    w.tick(at(10), &readings(Some(&down)));
    let intent = w.tick(at(129), &readings(Some(&down))).intent.unwrap();
    assert_eq!(action_for(&intent), Action::Nothing);
    let intent = w.tick(at(130), &readings(Some(&down))).intent.unwrap();
    assert_eq!(action_for(&intent), Action::StartHotspot);
}

#[test]
fn a_stop_in_transition_keeps_ownership() {
    let cfg = test_config();
    let mut w = Watchdog::new(&cfg, at(0));
    let down = disconnected_status();
    let home = connected_status("nic", "home");
    w.tick(at(0), &readings(Some(&down)));
    w.finish_start(at(0), StartResult::Started);
    w.tick(at(5), &readings(Some(&home)));
    w.finish_stop(StopResult::NotYet);
    w.tick(at(10), &readings(Some(&down)));
    let intent = w.tick(at(15), &readings(Some(&home))).intent.unwrap();
    assert_eq!(action_for(&intent), Action::StopHotspot);
}

#[test]
fn what_matters_is_announced() {
    let announced: Vec<Option<&str>> = other_intents().iter().map(announcement).collect();
    assert_eq!(
        announced,
        [
            None,
            Some("Wi-Fi disconnected; starting countdown"),
            Some("Wi-Fi has been down past the threshold; bringing the hotspot up"),
            Some("Wi-Fi reconnected"),
        ]
    );
}

#[test]
fn the_companion_is_told_what_was_seen() {
    let mut cfg = test_config();
    cfg.companion.enabled = true;
    let mut w = Watchdog::new(&cfg, at(0));
    let ports = [PortInfo {
        name: "COM3".to_string(),
        usb: Some(UsbInfo {
            vid: 0x1209,
            pid: 0x3a01,
            manufacturer: None,
            product: None,
        }),
    }];
    let adapters = [
        adapter("Wi-Fi", "nic", &["10.0.0.5"]),
        adapter("Virtual", "vnic", &["192.168.137.1"]),
    ];
    let live = LiveHotspot {
        state: State::On,
        ssid: "Other".to_string(),
        clients: 0,
    };
    let sent = |delivery: Option<Delivery>| match delivery {
        Some(Delivery::Send { companion, status }) => {
            assert_eq!(companion.port_name, "COM3");
            status.as_elements()
        }
        _ => panic!("nothing to send"),
    };

    let tick = w.tick(
        at(5),
        &Readings {
            wifi: None,
            adapters: &adapters,
            hotspot: Some(&live),
            ports: &ports,
        },
    );
    assert_eq!(sent(tick.delivery), ["s:unknown", "t:0"]);

    let home = connected_status("NIC", "home");
    let tick = w.tick(
        at(10),
        &Readings {
            wifi: Some(&home),
            adapters: &adapters,
            hotspot: Some(&live),
            ports: &ports,
        },
    );
    assert_eq!(
        sent(tick.delivery),
        ["a:10.0.0.5", "i:home", "s:connected", "t:0"]
    );

    // The hotspot is reported as configured.
    let own = connected_status("nic", "Fallback");
    let tick = w.tick(
        at(20),
        &Readings {
            wifi: Some(&own),
            adapters: &adapters,
            hotspot: Some(&live),
            ports: &ports,
        },
    );
    assert_eq!(
        sent(tick.delivery),
        ["a:192.168.137.1", "i:Fallback", "p:password1", "s:hotspot", "t:0"]
    );

    let tick = w.tick(at(25), &readings(Some(&own)));
    assert!(matches!(
        tick.delivery,
        Some(Delivery::Missing { warn: true })
    ));
}
