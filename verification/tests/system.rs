use crayon_ctrl::error::RegistryError;
use crayon_ctrl::registry::Interfaces;
use crayon_ctrl::system::{collect_ipv4, lookup_ipv4, RawIfAddr, SystemInterfaces};

fn entry(name: &str, addr: Option<&str>, netmask: Option<&str>) -> RawIfAddr {
    RawIfAddr {
        name: String::from(name),
        addr: addr.map(String::from),
        netmask: netmask.map(String::from),
    }
}

#[test]
fn listing_filters_incomplete_entries() {
    let entries = vec![
        entry("lo", Some("127.0.0.1"), Some("255.0.0.0")),
        entry("lo", None, None),
        entry("eth0", Some("10.0.0.2"), None),
        entry("wlan0", Some("192.168.1.4"), Some("255.255.255.0")),
    ];
    let listed = collect_ipv4(&entries);
    assert_eq!(listed.len(), 2);
    assert_eq!(listed[0].name(), "lo");
    assert_eq!(listed[0].addr(), "127.0.0.1");
    assert_eq!(listed[1].name(), "wlan0");
    assert_eq!(listed[1].netmask(), "255.255.255.0");
}

#[test]
fn lookup_takes_the_first_matching_entry() {
    let entries = vec![
        entry("eth0", Some("10.0.0.2"), Some("255.255.0.0")),
        entry("eth0", None, None),
    ];
    let found = lookup_ipv4(&entries, "eth0").unwrap().unwrap();
    assert_eq!(found.addr(), "10.0.0.2");
}

#[test]
fn lookup_of_absent_name_is_none() {
    let entries = vec![entry("lo", Some("127.0.0.1"), Some("255.0.0.0"))];
    assert!(lookup_ipv4(&entries, "eth0").unwrap().is_none());
}

#[test]
fn lookup_errs_on_unresolved_matching_entry() {
    let entries = vec![
        entry("tun0", None, None),
        entry("tun0", Some("10.8.0.1"), Some("255.255.255.0")),
    ];
    let err = lookup_ipv4(&entries, "tun0").unwrap_err();
    assert!(matches!(err, RegistryError::AddressResolution { .. }));
    assert_eq!(
        err.message(),
        "Unknown type of address/netmask for interface tun0"
    );
}

#[test]
fn live_listing_yields_dotted_quads() {
    // The live OS query may legitimately fail in a constrained environment;
    // when it succeeds, every record must carry IPv4 dotted-quad texts.
    let reg = SystemInterfaces::new();
    if let Ok(listed) = reg.all() {
        for iface in &listed {
            assert!(!iface.name().is_empty());
            assert_eq!(iface.addr().split('.').count(), 4);
            assert_eq!(iface.netmask().split('.').count(), 4);
        }
    }
}
