//! Choosing the uplink.

use autospot::adapters::{Adapter, Guid};
use autospot::config::{Band, HotspotConfig};
use autospot::hotspot::find_uplink_profile;
use autospot::uplink::{
    describe_connectivity, find_profile, resolve_hotspot_adapter, score_outranks, uplink_score,
    Connectivity, HotspotAdapter, Profile, UplinkError,
};

type Reading = Option<i32>;

const INTERNET: Reading = Some(3);
const CONSTRAINED: Reading = Some(2);
const LOCAL: Reading = Some(1);
const NONE: Reading = Some(0);

fn guid(n: u32) -> Guid {
    Guid {
        data1: n,
        data2: 0,
        data3: 0,
        data4: [0; 8],
    }
}

fn adapter(n: u32, is_ethernet: bool, is_wifi: bool) -> Adapter {
    Adapter {
        guid: guid(n),
        friendly_name: format!("adapter-{n}"),
        description: String::new(),
        is_ethernet,
        is_wifi,
        ipv4: Vec::new(),
    }
}

fn ethernet(n: u32) -> Adapter {
    adapter(n, true, false)
}

fn wifi(n: u32) -> Adapter {
    adapter(n, false, true)
}

fn other(n: u32) -> Adapter {
    adapter(n, false, false)
}

fn profile(name: &str, adapter: Option<u32>, connectivity: Reading) -> Profile {
    Profile {
        network_name: name.to_string(),
        adapter_guid: adapter.map(guid),
        connectivity,
    }
}

fn cfg(uplink_adapter: &str, hotspot_adapter: &str) -> HotspotConfig {
    HotspotConfig {
        ssid: "Fallback".to_string(),
        passphrase: "password1".to_string(),
        band: Band::Auto,
        uplink_adapter: uplink_adapter.to_string(),
        hotspot_adapter: hotspot_adapter.to_string(),
    }
}

#[test]
fn connectivity_ranks_internet_highest_and_unknown_lowest() {
    assert!(Connectivity::of(INTERNET) > Connectivity::of(CONSTRAINED));
    assert!(Connectivity::of(CONSTRAINED) > Connectivity::of(LOCAL));
    assert!(Connectivity::of(LOCAL) > Connectivity::of(NONE));
    assert_eq!(Connectivity::of(None), Connectivity::Nothing);
}

#[test]
fn uplink_ethernet_always_outranks_a_non_ethernet_adapter() {
    // Even a barely-connected Ethernet adapter beats a fully-connected non-Ethernet
    // one -- this app doesn't care about the uplink's own internet access, and a
    // wired link is always the safe, predictable choice over anything else.
    assert!(uplink_score(NONE, true) > uplink_score(INTERNET, false));
    assert!(score_outranks(
        uplink_score(NONE, true),
        uplink_score(INTERNET, false)
    ));
}

#[test]
fn uplink_connectivity_rank_breaks_a_tie_within_the_same_ethernet_ness() {
    assert!(uplink_score(INTERNET, true) > uplink_score(LOCAL, true));
    assert!(uplink_score(INTERNET, false) > uplink_score(LOCAL, false));
    assert!(score_outranks(
        uplink_score(INTERNET, true),
        uplink_score(LOCAL, true)
    ));
    assert!(score_outranks(
        uplink_score(INTERNET, false),
        uplink_score(LOCAL, false)
    ));
}

#[test]
fn uplink_resolves_hotspot_adapter_automatically_with_exactly_one_wifi_adapter() {
    let adapters = [ethernet(1), wifi(2)];
    let resolved = resolve_hotspot_adapter("auto", &adapters);
    assert!(matches!(resolved, HotspotAdapter::Known(Some(a)) if a.guid == adapters[1].guid));
}

#[test]
fn uplink_auto_resolution_is_none_without_any_wifi_adapter() {
    let adapters = [ethernet(1)];
    let resolved = resolve_hotspot_adapter("auto", &adapters);
    assert!(matches!(resolved, HotspotAdapter::Known(None)));
}

#[test]
fn uplink_auto_resolution_is_ambiguous_with_two_wifi_adapters() {
    let adapters = [wifi(1), wifi(2)];
    let resolved = resolve_hotspot_adapter("auto", &adapters);
    assert!(matches!(resolved, HotspotAdapter::Ambiguous));
}

#[test]
fn uplink_a_named_hotspot_adapter_is_matched_by_friendly_name() {
    let adapters = [ethernet(1), wifi(2)];
    let resolved = resolve_hotspot_adapter(&adapters[1].friendly_name, &adapters);
    assert!(matches!(resolved, HotspotAdapter::Known(Some(a)) if a.guid == adapters[1].guid));
}

#[test]
fn uplink_a_named_hotspot_adapter_not_currently_present_resolves_to_none() {
    let adapters = [ethernet(1)];
    let resolved = resolve_hotspot_adapter("some other adapter", &adapters);
    assert!(matches!(resolved, HotspotAdapter::Known(None)));
}

#[test]
fn uplink_known_hotspot_adapter_excludes_only_itself() {
    let hotspot = wifi(1);
    let other = ethernet(2);
    let resolution = HotspotAdapter::Known(Some(&hotspot));
    assert!(resolution.excludes(Some(&hotspot)));
    assert!(!resolution.excludes(Some(&other)));
    assert!(!resolution.excludes(None));
}

#[test]
fn uplink_known_none_excludes_nothing() {
    let other = ethernet(2);
    let resolution: HotspotAdapter = HotspotAdapter::Known(None);
    assert!(!resolution.excludes(Some(&other)));
    assert!(!resolution.excludes(None));
}

#[test]
fn uplink_ambiguous_excludes_every_wifi_adapter_but_not_others() {
    let wifi = wifi(1);
    let ethernet = ethernet(2);
    let resolution = HotspotAdapter::Ambiguous;
    assert!(resolution.excludes(Some(&wifi)));
    assert!(!resolution.excludes(Some(&ethernet)));
    assert!(!resolution.excludes(None));
}

#[test]
fn hotspot_resolves_hotspot_adapter_automatically_with_exactly_one_wifi_adapter() {
    let ethernet = adapter(1, true, false);
    let wifi = adapter(2, false, true);
    let adapters = [ethernet, wifi.clone()];
    let resolved = resolve_hotspot_adapter("auto", &adapters);
    assert!(matches!(resolved, HotspotAdapter::Known(Some(a)) if a.guid == wifi.guid));
}

#[test]
fn hotspot_auto_resolution_is_none_without_any_wifi_adapter() {
    let adapters = [adapter(1, true, false)];
    let resolved = resolve_hotspot_adapter("auto", &adapters);
    assert!(matches!(resolved, HotspotAdapter::Known(None)));
}

#[test]
fn hotspot_auto_resolution_is_ambiguous_with_two_wifi_adapters() {
    let adapters = [adapter(1, false, true), adapter(2, false, true)];
    let resolved = resolve_hotspot_adapter("auto", &adapters);
    assert!(matches!(resolved, HotspotAdapter::Ambiguous));
}

#[test]
fn hotspot_a_named_hotspot_adapter_is_matched_by_friendly_name() {
    let wifi = adapter(2, false, true);
    let adapters = [adapter(1, true, false), wifi.clone()];
    let resolved = resolve_hotspot_adapter(&wifi.friendly_name, &adapters);
    assert!(matches!(resolved, HotspotAdapter::Known(Some(a)) if a.guid == wifi.guid));
}

#[test]
fn hotspot_a_named_hotspot_adapter_not_currently_present_resolves_to_none() {
    let adapters = [adapter(1, true, false)];
    let resolved = resolve_hotspot_adapter("some other adapter", &adapters);
    assert!(matches!(resolved, HotspotAdapter::Known(None)));
}

#[test]
fn hotspot_known_hotspot_adapter_excludes_only_itself() {
    let hotspot = adapter(1, false, true);
    let other = adapter(2, true, false);
    let resolution = HotspotAdapter::Known(Some(&hotspot));
    assert!(resolution.excludes(Some(&hotspot)));
    assert!(!resolution.excludes(Some(&other)));
    assert!(!resolution.excludes(None));
}

#[test]
fn hotspot_known_none_excludes_nothing() {
    let other = adapter(2, true, false);
    let resolution: HotspotAdapter = HotspotAdapter::Known(None);
    assert!(!resolution.excludes(Some(&other)));
    assert!(!resolution.excludes(None));
}

#[test]
fn hotspot_ambiguous_excludes_every_wifi_adapter_but_not_others() {
    let wifi = adapter(1, false, true);
    let ethernet = adapter(2, true, false);
    let resolution = HotspotAdapter::Ambiguous;
    assert!(resolution.excludes(Some(&wifi)));
    assert!(!resolution.excludes(Some(&ethernet)));
    assert!(!resolution.excludes(None));
}

#[test]
fn a_resolved_hotspot_adapter_is_described() {
    let hotspot = wifi(1);
    assert_eq!(
        HotspotAdapter::Known(Some(&hotspot)).describe(),
        "adapter-1"
    );
    assert_eq!(HotspotAdapter::Known(None).describe(), "none detected");
    assert_eq!(
        HotspotAdapter::Ambiguous.describe(),
        "multiple Wi-Fi adapters present"
    );
}

#[test]
fn connectivity_levels_are_described() {
    assert_eq!(describe_connectivity(INTERNET), "internet access");
    assert_eq!(describe_connectivity(CONSTRAINED), "constrained internet");
    assert_eq!(describe_connectivity(LOCAL), "local access only");
    assert_eq!(describe_connectivity(NONE), "no connectivity");
    assert_eq!(describe_connectivity(None), "connectivity unknown");
    assert_eq!(describe_connectivity(Some(17)), "connectivity unknown");
}

/// What both ways of locating the uplink find, which is the same while no two adapters share
/// a GUID.
fn found(
    cfg: &HotspotConfig,
    profiles: &[Profile],
    adapters: &[Adapter],
) -> Result<(usize, String), UplinkError> {
    let one = find_profile(cfg, profiles, adapters);
    let other = find_uplink_profile(cfg, profiles, adapters);
    assert_eq!(one, other);
    one
}

#[test]
fn auto_prefers_ethernet_and_then_connectivity() {
    let adapters = [other(1), ethernet(2), ethernet(3), wifi(4)];
    let profiles = [
        profile("lte", Some(1), INTERNET),
        profile("lan", Some(2), NONE),
        profile("lan-2", Some(3), LOCAL),
        profile("lan-3", Some(3), LOCAL),
        profile("home", Some(4), INTERNET),
    ];
    assert_eq!(
        found(&cfg("auto", "auto"), &profiles, &adapters),
        Ok((2, "adapter-3".to_string()))
    );
    // Without Ethernet, connectivity decides.
    assert_eq!(
        found(&cfg("AUTO ", "auto"), &profiles[..1], &adapters),
        Ok((0, "adapter-1".to_string()))
    );
}

#[test]
fn auto_skips_the_hotspot_and_what_cannot_be_identified() {
    let mut own = other(1);
    own.ipv4.push("192.168.137.1".to_string());
    let adapters = [own, wifi(2)];
    let profiles = [
        profile("own", Some(1), INTERNET),
        profile("home", Some(2), INTERNET),
        profile("mystery", None, INTERNET),
    ];
    let err = found(&cfg("auto", "auto"), &profiles, &adapters).unwrap_err();
    assert_eq!(
        err.message(),
        "the only usable network(s) found are also needed to host the hotspot itself, so none of \
         them can be used as its uplink too (one Wi-Fi radio can't reliably act as both a client \
         and an access point at once). Connect a wired Ethernet uplink, add another Wi-Fi \
         adapter, or set hotspot.hotspot_adapter and hotspot.uplink_adapter explicitly in \
         autospot.toml. Connected networks right now: 'own' (on adapter-1, internet access), \
         'home' (on adapter-2, internet access), 'mystery' (on unknown adapter, internet access)."
    );
    let err = found(&cfg("auto", "auto"), &profiles[2..], &adapters).unwrap_err();
    assert_eq!(
        err.message(),
        "auto uplink selection found no usable connected network to share. Connected networks \
         right now: 'mystery' (on unknown adapter, internet access)."
    );
}

#[test]
fn a_named_uplink_is_found_by_adapter_or_network() {
    let adapters = [ethernet(1), other(2), wifi(3)];
    let profiles = [
        profile("lan", Some(1), INTERNET),
        profile("lte", Some(2), LOCAL),
        profile("lte-old", Some(2), NONE),
        profile("guest", None, INTERNET),
    ];
    assert_eq!(
        found(&cfg(" Adapter-2 ", "auto"), &profiles, &adapters),
        Ok((1, "adapter-2".to_string()))
    );
    assert_eq!(
        found(&cfg("GUEST", "auto"), &profiles, &adapters),
        Ok((3, "guest".to_string()))
    );
    let err = found(&cfg("cable", "auto"), &profiles[..1], &adapters).unwrap_err();
    assert_eq!(
        err.message(),
        "no connected network found for uplink adapter 'cable'. Connected networks right now: \
         'lan' (on adapter-1, internet access). Note that an adapter only has a connection \
         profile while it is plugged in and up."
    );
    let err = found(&cfg("cable", "auto"), &[], &adapters).unwrap_err();
    assert!(err.message().contains("right now: none."));
}

#[test]
fn a_named_uplink_is_never_the_hotspot_itself() {
    let mut own = other(1);
    own.ipv4.push("192.168.137.1".to_string());
    let adapters = [own, wifi(2), wifi(3)];
    let profiles = [
        profile("own", Some(1), INTERNET),
        profile("home", Some(2), INTERNET),
    ];
    assert!(matches!(
        found(&cfg("adapter-1", "auto"), &profiles, &adapters),
        Err(UplinkError::NotConnected { .. })
    ));
    assert!(matches!(
        found(&cfg("adapter-2", "auto"), &profiles, &adapters),
        Err(UplinkError::NeededForHotspot { .. })
    ));
    // With the hotspot pinned to the other radio, this one is free.
    assert_eq!(
        found(&cfg("adapter-2", "adapter-3"), &profiles, &adapters),
        Ok((1, "adapter-2".to_string()))
    );
}

#[test]
fn the_two_lookups_differ_where_adapters_share_a_guid() {
    let first = ethernet(1);
    let mut second = ethernet(1);
    second.friendly_name = "Bridge".to_string();
    let adapters = [first, second];
    let profiles = [profile("lan", Some(1), INTERNET)];
    let cfg = cfg("bridge", "auto");
    assert!(find_profile(&cfg, &profiles, &adapters).is_err());
    assert_eq!(
        find_uplink_profile(&cfg, &profiles, &adapters),
        Ok((0, "adapter-1".to_string()))
    );
}
