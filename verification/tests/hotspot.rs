//! What Windows' tethering numbers mean.

use autospot::config::Band;
use autospot::hotspot::{
    additional_message, check_capability, describe_capability, describe_status, rank_connectivity,
    start_outcome, stop_outcome, timeout_message, uplink_score, AfterStep, SetupStep, Started,
    State, RANK_INTERNET,
};

#[test]
fn winrt_states_map_onto_our_state_enum() {
    assert_eq!(State::from_winrt(1), State::On);
    assert_eq!(State::from_winrt(2), State::Off);
    assert_eq!(State::from_winrt(3), State::InTransition);
    assert_eq!(State::from_winrt(0), State::Unknown);
    assert_eq!(State::from_winrt(-7), State::Unknown);
}

#[test]
fn bands_map_onto_the_winrt_enum() {
    assert_eq!(Band::Auto.to_winrt(), 0);
    assert_eq!(Band::TwoPointFourGigahertz.to_winrt(), 1);
    assert_eq!(Band::FiveGigahertz.to_winrt(), 2);
    assert_eq!(Band::SixGigahertz.to_winrt(), 3);
}

#[test]
fn a_profile_with_internet_outranks_one_without() {
    assert!(rank_connectivity(Some(3)) > rank_connectivity(Some(2)));
    assert!(rank_connectivity(Some(2)) > rank_connectivity(Some(1)));
    assert!(rank_connectivity(Some(1)) > rank_connectivity(Some(0)));
    assert_eq!(rank_connectivity(None), 0);
    assert_eq!(rank_connectivity(Some(3)), RANK_INTERNET);
}

#[test]
fn hotspot_ethernet_always_outranks_a_non_ethernet_adapter() {
    // Even a barely-connected Ethernet adapter beats a fully-connected non-Ethernet
    // one -- this app doesn't care about the uplink's own internet access, and a
    // wired link is always the safe, predictable choice over anything else.
    assert!(uplink_score(Some(0), true) > uplink_score(Some(3), false));
}

#[test]
fn hotspot_connectivity_rank_breaks_a_tie_within_the_same_ethernet_ness() {
    assert!(uplink_score(Some(3), true) > uplink_score(Some(1), true));
    assert!(uplink_score(Some(3), false) > uplink_score(Some(1), false));
}

#[test]
fn states_render_for_logs() {
    assert_eq!(State::On.to_text(), "on");
    assert_eq!(State::InTransition.to_text(), "in-transition");
    assert_eq!(State::Off.to_text(), "off");
    assert_eq!(State::Unknown.to_text(), "unknown");
}

#[test]
fn capabilities_are_judged_and_described() {
    assert_eq!(check_capability("lan", Some(0)), Ok(()));
    // The probe is advisory.
    assert_eq!(check_capability("lan", None), Ok(()));
    assert_eq!(
        check_capability("lan", Some(1)),
        Err(
            "Windows reports tethering is not available on 'lan': disabled by group policy"
                .to_string()
        )
    );
    let described: Vec<&str> = (0..9).map(describe_capability).collect();
    assert_eq!(
        described,
        [
            "enabled",
            "disabled by group policy",
            "disabled by a hardware limitation",
            "disabled by the mobile operator",
            "disabled by this Windows edition",
            "disabled because a required app is not installed",
            "disabled for an unknown reason",
            "disabled by a system capability",
            "unrecognised capability",
        ]
    );
}

#[test]
fn statuses_are_described() {
    let described: Vec<&str> = (0..13).map(describe_status).collect();
    assert_eq!(
        described,
        [
            "success",
            "unknown error",
            "the mobile broadband device is off",
            "the Wi-Fi device is off",
            "the entitlement check timed out",
            "the entitlement check failed",
            "another tethering operation is in progress",
            "the Bluetooth device is off",
            "the uplink network has limited connectivity",
            "the hotspot is already on",
            "a radio restriction is in effect",
            "band interference was detected",
            "unrecognised status",
        ]
    );
}

#[test]
fn outcomes_are_judged() {
    assert_eq!(start_outcome(0, None), Ok(Started::Now));
    assert_eq!(start_outcome(9, Some("x")), Ok(Started::Already));
    assert_eq!(
        start_outcome(8, Some("no uplink")),
        Err(
            "starting the hotspot failed: the uplink network has limited connectivity (no uplink)"
                .to_string()
        )
    );
    assert_eq!(stop_outcome(0, None), Ok(()));
    assert_eq!(
        stop_outcome(9, Some("")),
        Err("stopping the hotspot failed: the hotspot is already on".to_string())
    );
    assert_eq!(additional_message(None), "");
    assert_eq!(additional_message(Some("")), "");
    assert_eq!(additional_message(Some("m")), " (m)");
    assert_eq!(
        timeout_message("StartTetheringAsync"),
        "StartTetheringAsync did not complete within 45s"
    );
}

#[test]
fn only_the_band_may_fail_to_be_set() {
    let mut step = SetupStep::ReadAccessPoint;
    let mut taken = Vec::new();
    loop {
        taken.push(step.context());
        match step.after(step != SetupStep::SetBand) {
            AfterStep::Take(next) => step = next,
            AfterStep::Done => break,
            AfterStep::Fail => panic!("{step:?}"),
        }
    }
    assert_eq!(
        taken,
        [
            "reading access point configuration",
            "setting hotspot SSID",
            "setting hotspot passphrase",
            "could not set the hotspot band, leaving the driver default",
            "ConfigureAccessPointAsync",
            "StartTetheringAsync",
        ]
    );
    for step in [
        SetupStep::ReadAccessPoint,
        SetupStep::SetSsid,
        SetupStep::SetPassphrase,
        SetupStep::Configure,
        SetupStep::StartTethering,
    ] {
        assert_eq!(step.after(false), AfterStep::Fail);
    }
}
