use crayon_ctrl::error::RegistryError;
use crayon_ctrl::handlers;
use crayon_ctrl::memory::MemoryInterfaces;
use crayon_ctrl::registry::Interfaces;

#[test]
fn health_is_empty_200() {
    let resp = handlers::health();
    assert_eq!(resp.status, 200);
    assert_eq!(resp.body, "");
}

#[test]
fn no_interfaces() {
    let reg = MemoryInterfaces::new();
    let resp = handlers::list(reg.all());
    assert_eq!(resp.status, 200);
    assert_eq!(resp.body, "[]");
}

#[test]
fn some_interfaces() {
    let mut reg = MemoryInterfaces::new();
    reg.create("lo").unwrap();
    let resp = handlers::list(reg.all());
    assert_eq!(resp.status, 200);
    assert_eq!(
        resp.body,
        "[{\"name\":\"lo\",\"addr\":\"127.0.0.1\",\"netmask\":\"255.0.0.0\"}]"
    );
}

#[test]
fn unknown_interface_detail() {
    let reg = MemoryInterfaces::new();
    let resp = handlers::get("lo", reg.get("lo"));
    assert_eq!(resp.status, 404);
}

#[test]
fn interface_detail() {
    let mut reg = MemoryInterfaces::new();
    reg.create("lo").unwrap();
    let resp = handlers::get("lo", reg.get("lo"));
    assert_eq!(resp.status, 200);
    assert_eq!(
        resp.body,
        "{\"name\":\"lo\",\"addr\":\"127.0.0.1\",\"netmask\":\"255.0.0.0\"}"
    );
}

#[test]
fn delete_interface() {
    let mut reg = MemoryInterfaces::new();
    reg.create("lo").unwrap();
    let resp = handlers::get("lo", reg.get("lo"));
    assert_eq!(resp.status, 200);

    let resp = handlers::delete("lo", reg.delete("lo"));
    assert_eq!(resp.status, 200);

    let resp = handlers::get("lo", reg.get("lo"));
    assert_eq!(resp.status, 404);
}

#[test]
fn delete_unknown_interface() {
    let mut reg = MemoryInterfaces::new();
    let resp = handlers::delete("no-such-iface", reg.delete("no-such-iface"));
    assert_eq!(resp.status, 404);
}

#[test]
fn missing_name_echoed_in_404_body() {
    let reg = MemoryInterfaces::new();
    let resp = handlers::get("wlan0", reg.get("wlan0"));
    assert_eq!(resp.status, 404);
    assert_eq!(resp.body, "\"wlan0\"");
}

#[test]
fn create_maps_to_200_with_record() {
    let mut reg = MemoryInterfaces::new();
    let resp = handlers::create(reg.create("lo"));
    assert_eq!(resp.status, 200);
    assert_eq!(
        resp.body,
        "{\"name\":\"lo\",\"addr\":\"127.0.0.1\",\"netmask\":\"255.0.0.0\"}"
    );
}

#[test]
fn duplicate_create_maps_to_500() {
    let mut reg = MemoryInterfaces::new();
    reg.create("lo").unwrap();
    let resp = handlers::create(reg.create("lo"));
    assert_eq!(resp.status, 500);
    assert_eq!(resp.body, "\"lo: Already exists\"");
}

#[test]
fn modify_maps_capability_gap_to_500() {
    let reg = MemoryInterfaces::new();
    let iface = crayon_ctrl::iface::Interface::new("lo", "127.0.0.1", "255.0.0.0");
    let resp = handlers::modify(reg.modify(iface));
    assert_eq!(resp.status, 500);
    assert_eq!(resp.body, "\"TODO: ip link modify lo\"");
}

#[test]
fn registry_error_maps_to_500_with_text() {
    let err = RegistryError::SystemQuery { message: String::from("EPERM") };
    let resp = handlers::list(Err(err));
    assert_eq!(resp.status, 500);
    assert_eq!(resp.body, "\"getifaddrs() failed: EPERM\"");
}

#[test]
fn list_orders_by_insertion() {
    let mut reg = MemoryInterfaces::new();
    reg.create("lo").unwrap();
    reg.create("eth0").unwrap();
    let resp = handlers::list(reg.all());
    assert_eq!(resp.status, 200);
    assert_eq!(
        resp.body,
        "[{\"name\":\"lo\",\"addr\":\"127.0.0.1\",\"netmask\":\"255.0.0.0\"},\
         {\"name\":\"eth0\",\"addr\":\"127.0.0.1\",\"netmask\":\"255.0.0.0\"}]"
    );
}
