//! The adapter inventory.

use autospot::adapters::{
    guid_from_adapter_name, hotspot_ip, ipv4_addresses, ipv4_of, list_step, parse_guid,
    sockaddr_to_ipv4, Adapter, Guid, ListError, ListStep, SocketAddress, ERROR_BUFFER_OVERFLOW,
    ERROR_NO_DATA,
};

fn adapter(friendly: &str, description: &str, ipv4: &[&str]) -> Adapter {
    Adapter {
        guid: Guid::zeroed(),
        friendly_name: friendly.into(),
        description: description.into(),
        is_ethernet: false,
        is_wifi: false,
        ipv4: ipv4.iter().map(|s| s.to_string()).collect(),
    }
}

#[test]
fn matches_the_friendly_name_case_insensitively() {
    let a = adapter("Ethernet", "Realtek PCIe GbE Family Controller", &[]);
    assert!(a.matches("Ethernet"));
    assert!(a.matches("ethernet"));
    assert!(a.matches("  Ethernet  "));
}

#[test]
fn matches_the_hardware_description_too() {
    let a = adapter("Ethernet", "Realtek PCIe GbE Family Controller", &[]);
    assert!(a.matches("Realtek PCIe GbE Family Controller"));
}

#[test]
fn does_not_match_a_different_adapter() {
    let a = adapter("Ethernet", "Realtek PCIe GbE Family Controller", &[]);
    assert!(!a.matches("Wi-Fi"));
    assert!(!a.matches("Ether"));
}

#[test]
fn recognises_the_hotspot_virtual_adapter_by_its_ics_subnet() {
    let mut a = adapter(
        "Local Area Connection* 2",
        "Microsoft Wi-Fi Direct Virtual Adapter",
        &[],
    );
    assert!(!a.is_hotspot_virtual_adapter());
    a.ipv4.push("192.168.137.1".to_string());
    assert!(a.is_hotspot_virtual_adapter());
}

#[test]
fn does_not_mistake_a_normal_adapter_for_the_hotspot_one() {
    let mut a = adapter("Wi-Fi", "Intel(R) Wireless-AC 7260", &[]);
    a.ipv4.push("192.168.10.218".to_string());
    assert!(!a.is_hotspot_virtual_adapter());
}

#[test]
fn ipv4_of_matches_by_hardware_description_case_insensitively() {
    let adapters = [adapter("Ethernet", "Realtek PCIe GbE", &["10.0.0.5"])];
    assert_eq!(ipv4_of(&adapters, "realtek pcie gbe"), Some("10.0.0.5"));
    assert_eq!(ipv4_of(&adapters, "nope"), None);
}

#[test]
fn ipv4_of_is_none_when_the_adapter_has_no_address() {
    let adapters = [adapter("Ethernet", "Realtek PCIe GbE", &[])];
    assert_eq!(ipv4_of(&adapters, "Realtek PCIe GbE"), None);
}

#[test]
fn hotspot_ip_finds_the_ics_subnet_address() {
    let adapters = [
        adapter("Wi-Fi", "desc1", &["192.168.10.218"]),
        adapter("Local Area Connection* 2", "desc2", &["192.168.137.1"]),
    ];
    assert_eq!(hotspot_ip(&adapters), Some("192.168.137.1"));
}

#[test]
fn hotspot_ip_is_none_without_a_matching_subnet() {
    let adapters = [adapter("Wi-Fi", "desc1", &["192.168.10.218"])];
    assert_eq!(hotspot_ip(&adapters), None);
}

#[test]
fn parses_a_braced_guid() {
    let g = parse_guid("{9D534A4D-FEB4-43C9-906D-6F842FB3D32D}").unwrap();
    assert_eq!(g.data1, 0x9D53_4A4D);
    assert_eq!(g.data2, 0xFEB4);
    assert_eq!(g.data3, 0x43C9);
    assert_eq!(g.data4, [0x90, 0x6D, 0x6F, 0x84, 0x2F, 0xB3, 0xD3, 0x2D]);
}

#[test]
fn parses_an_unbraced_lowercase_guid() {
    assert_eq!(
        parse_guid("9d534a4d-feb4-43c9-906d-6f842fb3d32d").unwrap(),
        parse_guid("{9D534A4D-FEB4-43C9-906D-6F842FB3D32D}").unwrap()
    );
}

#[test]
fn rejects_malformed_guids() {
    assert!(parse_guid("").is_none());
    assert!(parse_guid("not-a-guid").is_none());
    assert!(parse_guid("{9d534a4d-feb4-43c9-906d}").is_none());
    assert!(parse_guid("{zzzzzzzz-feb4-43c9-906d-6f842fb3d32d}").is_none());
}

#[test]
fn guids_may_have_blanks_around_and_short_middle_groups() {
    let g = parse_guid("  {00000001-2-3-0405-060708090a0b} ").unwrap();
    assert_eq!(
        g,
        Guid {
            data1: 1,
            data2: 2,
            data3: 3,
            data4: [4, 5, 6, 7, 8, 9, 10, 11],
        }
    );
    // The last two groups are sixteen digits together, twelve of them in the last.
    assert!(parse_guid("00000001-2-3-04050-60708090a0b").is_none());
    assert!(parse_guid("00000001-2-3-040-060708090a0b").is_none());
    assert!(parse_guid("00000001-10000-3-0405-060708090a0b").is_none());
    assert!(parse_guid("0000001-2-3-0405-060708090a0b").is_none());
    assert!(parse_guid("00000001-2-3-0405-0607\u{e9}8090a0b").is_none());
}

#[test]
fn an_adapter_name_that_is_no_guid_counts_as_zero() {
    assert_eq!(guid_from_adapter_name(None), Guid::zeroed());
    assert_eq!(guid_from_adapter_name(Some("eth0")), Guid::zeroed());
    let g = guid_from_adapter_name(Some("{9D534A4D-FEB4-43C9-906D-6F842FB3D32D}"));
    assert_eq!(g.data1, 0x9D53_4A4D);
    assert!(!g.same(&Guid::zeroed()));
    assert!(g.same(&g));
    let mut other = g;
    other.data4[7] = 0;
    assert!(!g.same(&other));
}

#[test]
fn addresses_are_written_with_dots() {
    let v4 = SocketAddress {
        family: 2,
        octets: [192, 168, 0, 7],
    };
    let v6 = SocketAddress {
        family: 23,
        octets: [0; 4],
    };
    assert_eq!(sockaddr_to_ipv4(&v4).as_deref(), Some("192.168.0.7"));
    assert_eq!(sockaddr_to_ipv4(&v6), None);
    assert_eq!(
        ipv4_addresses(&[v6, v4, v6, SocketAddress { octets: [10, 0, 0, 5], ..v4 }]),
        ["192.168.0.7", "10.0.0.5"]
    );
}

#[test]
fn enumerating_is_tried_a_few_times() {
    assert_eq!(list_step(0, 1), ListStep::Collect);
    assert_eq!(list_step(ERROR_NO_DATA, 1), ListStep::NoAdapters);
    assert_eq!(list_step(ERROR_BUFFER_OVERFLOW, 1), ListStep::Retry);
    assert_eq!(list_step(ERROR_BUFFER_OVERFLOW, 3), ListStep::Retry);
    assert_eq!(
        list_step(ERROR_BUFFER_OVERFLOW, 4),
        ListStep::Fail(ListError::KeptGrowing)
    );
    assert_eq!(list_step(87, 2), ListStep::Fail(ListError::Failed(87)));
    assert_eq!(
        ListError::Failed(87).message(),
        "GetAdaptersAddresses failed with error 87"
    );
    assert_eq!(
        ListError::KeptGrowing.message(),
        "GetAdaptersAddresses kept reporting a too-small buffer"
    );
}
