use crayon_ctrl::iface::Interface;
use crayon_ctrl::json::{json_interface, json_interface_list, json_string};

#[test]
fn plain_text_is_quoted() {
    assert_eq!(json_string("lo"), "\"lo\"");
    assert_eq!(json_string(""), "\"\"");
}

#[test]
fn quotes_and_backslashes_are_escaped() {
    assert_eq!(json_string("a\"b"), "\"a\\\"b\"");
    assert_eq!(json_string("a\\b"), "\"a\\\\b\"");
}

#[test]
fn control_characters_take_the_u00_form() {
    assert_eq!(json_string("a\nb"), "\"a\\u000ab\"");
    assert_eq!(json_string("\t"), "\"\\u0009\"");
    assert_eq!(json_string("\u{1f}"), "\"\\u001f\"");
}

#[test]
fn interface_object_shape() {
    let iface = Interface::new("eth0", "192.168.0.2", "255.255.255.0");
    assert_eq!(
        json_interface(&iface),
        "{\"name\":\"eth0\",\"addr\":\"192.168.0.2\",\"netmask\":\"255.255.255.0\"}"
    );
}

#[test]
fn list_shape() {
    let empty: Vec<Interface> = Vec::new();
    assert_eq!(json_interface_list(&empty), "[]");

    let one = vec![Interface::new("lo", "127.0.0.1", "255.0.0.0")];
    assert_eq!(
        json_interface_list(&one),
        "[{\"name\":\"lo\",\"addr\":\"127.0.0.1\",\"netmask\":\"255.0.0.0\"}]"
    );

    let two = vec![
        Interface::new("lo", "127.0.0.1", "255.0.0.0"),
        Interface::new("eth0", "10.0.0.7", "255.255.0.0"),
    ];
    assert_eq!(
        json_interface_list(&two),
        "[{\"name\":\"lo\",\"addr\":\"127.0.0.1\",\"netmask\":\"255.0.0.0\"},\
         {\"name\":\"eth0\",\"addr\":\"10.0.0.7\",\"netmask\":\"255.255.0.0\"}]"
    );
}
