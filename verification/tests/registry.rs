use crayon_ctrl::error::RegistryError;
use crayon_ctrl::iface::Interface;
use crayon_ctrl::memory::MemoryInterfaces;
use crayon_ctrl::registry::Interfaces;
use crayon_ctrl::system::SystemInterfaces;

#[test]
fn empty_start() {
    let reg = MemoryInterfaces::new();
    let all = reg.all().unwrap();
    assert_eq!(all.len(), 0);
}

#[test]
fn create_read_round_trip() {
    let mut reg = MemoryInterfaces::new();
    let created = reg.create("eth0").unwrap();
    assert_eq!(created.name(), "eth0");
    assert_eq!(created.addr(), "127.0.0.1");
    assert_eq!(created.netmask(), "255.0.0.0");

    let got = reg.get("eth0").unwrap().unwrap();
    assert_eq!(got.name(), "eth0");
    assert!(got == created);

    let all = reg.all().unwrap();
    assert_eq!(all.len(), 1);
    assert!(all[0] == created);
}

#[test]
fn no_dups() {
    let mut reg = MemoryInterfaces::new();
    reg.create("lo").unwrap();

    let err = reg.create("lo").unwrap_err();
    assert_eq!(err.message(), "lo: Already exists");
    assert!(matches!(err, RegistryError::AlreadyExists { .. }));

    let all = reg.all().unwrap();
    assert_eq!(all.len(), 1);
    assert_eq!(all[0].name(), "lo");
}

#[test]
fn delete_idempotence() {
    let mut reg = MemoryInterfaces::new();
    assert_eq!(reg.delete("lo").unwrap(), false);

    reg.create("lo").unwrap();
    assert_eq!(reg.delete("lo").unwrap(), true);
    assert_eq!(reg.delete("lo").unwrap(), false);
    assert_eq!(reg.all().unwrap().len(), 0);
}

#[test]
fn delete_keeps_other_entries() {
    let mut reg = MemoryInterfaces::new();
    reg.create("lo").unwrap();
    reg.create("eth0").unwrap();
    reg.create("wlan0").unwrap();
    assert_eq!(reg.delete("eth0").unwrap(), true);

    let all = reg.all().unwrap();
    assert_eq!(all.len(), 2);
    assert_eq!(all[0].name(), "lo");
    assert_eq!(all[1].name(), "wlan0");
    assert!(reg.get("eth0").unwrap().is_none());
}

#[test]
fn memory_modify_unimplemented() {
    let reg = MemoryInterfaces::new();
    let iface = Interface::new("lo", "127.0.0.1", "255.0.0.0");
    let err = reg.modify(iface).unwrap_err();
    assert_eq!(err.message(), "TODO: ip link modify lo");
    assert!(matches!(err, RegistryError::Unimplemented { .. }));
}

#[test]
fn system_mutations_unimplemented() {
    let mut reg = SystemInterfaces::new();
    let err = reg.create("lo").unwrap_err();
    assert_eq!(err.message(), "TODO: ip link create lo");

    let err = reg.delete("lo").unwrap_err();
    assert_eq!(err.message(), "TODO: ip link delete lo");

    let iface = Interface::new("dummy0", "10.0.0.1", "255.255.255.0");
    let err = reg.modify(iface).unwrap_err();
    assert_eq!(err.message(), "TODO: ip link modify dummy0");
}

#[test]
fn error_messages() {
    let already = RegistryError::AlreadyExists { name: String::from("lo") };
    assert_eq!(already.message(), "lo: Already exists");

    let unresolved = RegistryError::AddressResolution { name: String::from("tun0") };
    assert_eq!(
        unresolved.message(),
        "Unknown type of address/netmask for interface tun0"
    );

    let query = RegistryError::SystemQuery { message: String::from("EPERM") };
    assert_eq!(query.message(), "getifaddrs() failed: EPERM");
}

#[test]
fn interface_equality_is_structural() {
    let a = Interface::new("lo", "127.0.0.1", "255.0.0.0");
    let b = Interface::new("lo", "127.0.0.1", "255.0.0.0");
    let c = Interface::new("lo", "127.0.0.2", "255.0.0.0");
    assert!(a == b);
    assert!(!(a == c));
    assert!(a == a.clone());
}
