use cosmic_connect::device::{Device, DeviceInfo, DeviceType};
use cosmic_connect::error::ProtocolError;
use cosmic_connect::packet::Packet;
use cosmic_connect::plugins::remoteinput::{
    InputAction, Modifiers, RemoteInputPlugin, RemoteInputPluginFactory, RemoteInputRequest,
    SpecialKey, PACKET_TYPE_MOUSEPAD_KEYBOARDSTATE, PACKET_TYPE_MOUSEPAD_REQUEST,
};
use serde_json::Value;

fn create_test_device() -> Device {
    let info = DeviceInfo::new("test-device-id", "Test Device", DeviceType::Desktop, 1716);
    Device::from_discovery(info)
}

fn input_body(pairs: Vec<(&str, Value)>) -> Value {
    let mut m = serde_json::Map::new();
    for (k, v) in pairs {
        m.insert(k.to_string(), v);
    }
    Value::Object(m)
}

const NO_MODIFIERS: Modifiers = Modifiers { alt: false, ctrl: false, shift: false, super_key: false };

#[test]
fn test_plugin_creation() {
    let plugin = RemoteInputPlugin::new();
    assert_eq!(plugin.name(), "remoteinput");
    assert!(plugin.device_id().is_none());
}

#[test]
fn test_plugin_initialization() {
    let mut plugin = RemoteInputPlugin::new();
    let device = create_test_device();

    assert!(plugin.init(&device).is_ok());
    assert_eq!(plugin.device_id(), Some(device.id().to_string()));
}

#[test]
fn test_handle_mouse_movement() {
    let mut plugin = RemoteInputPlugin::new();
    let device = create_test_device();
    plugin.init(&device).unwrap();

    let packet = Packet::new(
        0,
        "kdeconnect.mousepad.request",
        input_body(vec![("dx", Value::from(10.0)), ("dy", Value::from(20.0))]),
    );

    let mut device_mut = device;
    let result = plugin.handle_packet(&packet, &mut device_mut);
    assert!(result.is_ok());
    assert_eq!(
        result.unwrap(),
        vec![InputAction::MovePointer { dx: Some(Value::from(10.0)), dy: Some(Value::from(20.0)) }]
    );
}

#[test]
fn test_handle_mouse_click() {
    let mut plugin = RemoteInputPlugin::new();
    let device = create_test_device();
    plugin.init(&device).unwrap();

    let packet = Packet::new(
        0,
        "kdeconnect.mousepad.request",
        input_body(vec![("singleclick", Value::from(true))]),
    );

    let mut device_mut = device;
    let result = plugin.handle_packet(&packet, &mut device_mut);
    assert!(result.is_ok());
    assert_eq!(result.unwrap(), vec![InputAction::SingleClick]);
}

#[test]
fn test_handle_keyboard_input() {
    let mut plugin = RemoteInputPlugin::new();
    let device = create_test_device();
    plugin.init(&device).unwrap();

    let packet =
        Packet::new(0, "kdeconnect.mousepad.request", input_body(vec![("key", Value::from("a"))]));

    let mut device_mut = device;
    let result = plugin.handle_packet(&packet, &mut device_mut);
    assert!(result.is_ok());
    assert_eq!(
        result.unwrap(),
        vec![InputAction::Key { key: "a".to_string(), modifiers: NO_MODIFIERS }]
    );
}

#[test]
fn test_handle_special_key() {
    let mut plugin = RemoteInputPlugin::new();
    let device = create_test_device();
    plugin.init(&device).unwrap();

    let packet = Packet::new(
        0,
        "kdeconnect.mousepad.request",
        input_body(vec![("specialKey", Value::from(1))]),
    );

    let mut device_mut = device;
    let result = plugin.handle_packet(&packet, &mut device_mut);
    assert!(result.is_ok());
    assert_eq!(result.unwrap(), vec![InputAction::SpecialKey { code: 1, modifiers: NO_MODIFIERS }]);
}

#[test]
fn test_scroll_event() {
    let mut plugin = RemoteInputPlugin::new();
    let device = create_test_device();
    plugin.init(&device).unwrap();

    let packet = Packet::new(
        0,
        "kdeconnect.mousepad.request",
        input_body(vec![
            ("dx", Value::from(0.0)),
            ("dy", Value::from(-5.0)),
            ("scroll", Value::from(true)),
        ]),
    );

    let mut device_mut = device;
    let result = plugin.handle_packet(&packet, &mut device_mut);
    assert!(result.is_ok());
    assert_eq!(
        result.unwrap(),
        vec![InputAction::Scroll { dx: Some(Value::from(0.0)), dy: Some(Value::from(-5.0)) }]
    );
}

#[test]
fn test_modifiers() {
    let mut plugin = RemoteInputPlugin::new();
    let device = create_test_device();
    plugin.init(&device).unwrap();

    let packet = Packet::new(
        0,
        "kdeconnect.mousepad.request",
        input_body(vec![("key", Value::from("c")), ("ctrl", Value::from(true))]),
    );

    let mut device_mut = device;
    let result = plugin.handle_packet(&packet, &mut device_mut);
    assert!(result.is_ok());
    assert_eq!(
        result.unwrap(),
        vec![InputAction::Key {
            key: "c".to_string(),
            modifiers: Modifiers { alt: false, ctrl: true, shift: false, super_key: false },
        }]
    );
}

#[test]
fn test_factory() {
    let factory = RemoteInputPluginFactory;
    assert_eq!(factory.name(), "remoteinput");

    let incoming = factory.incoming_capabilities();
    assert!(incoming.contains(&PACKET_TYPE_MOUSEPAD_REQUEST.to_string()));

    let outgoing = factory.outgoing_capabilities();
    assert!(outgoing.contains(&PACKET_TYPE_MOUSEPAD_KEYBOARDSTATE.to_string()));

    let plugin = factory.create();
    assert_eq!(plugin.name(), "remoteinput");
}

#[test]
fn test_plugin_lifecycle() {
    let mut plugin = RemoteInputPlugin::new();
    let device = create_test_device();

    assert!(plugin.init(&device).is_ok());
    assert!(plugin.start().is_ok());
    assert!(plugin.stop().is_ok());
}

#[test]
fn input_actions_come_in_a_fixed_order() {
    let body = input_body(vec![
        ("specialKey", Value::from(12)),
        ("key", Value::from("x")),
        ("singlerelease", Value::from(true)),
        ("singlehold", Value::from(true)),
        ("rightclick", Value::from(true)),
        ("middleclick", Value::from(true)),
        ("doubleclick", Value::from(true)),
        ("singleclick", Value::from(true)),
        ("dx", Value::from(3)),
        ("shift", Value::from(true)),
        ("super", Value::from(true)),
        ("alt", Value::from(false)),
    ]);
    let request = RemoteInputRequest::from_body(&body).unwrap();
    let m = Modifiers { alt: false, ctrl: false, shift: true, super_key: true };
    assert_eq!(
        RemoteInputPlugin::actions(request),
        vec![
            InputAction::MovePointer { dx: Some(Value::from(3)), dy: None },
            InputAction::SingleClick,
            InputAction::DoubleClick,
            InputAction::MiddleClick,
            InputAction::RightClick,
            InputAction::SingleHold,
            InputAction::SingleRelease,
            InputAction::Key { key: "x".to_string(), modifiers: m },
            InputAction::SpecialKey { code: 12, modifiers: m },
        ]
    );
}

#[test]
fn input_request_with_nothing_asks_for_nothing() {
    let plugin = RemoteInputPlugin::new();
    let packet = Packet::new(0, PACKET_TYPE_MOUSEPAD_REQUEST, input_body(vec![]));
    assert_eq!(plugin.handle_request(&packet), Ok(vec![]));
    let off = Packet::new(
        0,
        PACKET_TYPE_MOUSEPAD_REQUEST,
        input_body(vec![("singleclick", Value::from(false)), ("scroll", Value::from(true))]),
    );
    assert_eq!(plugin.handle_request(&off), Ok(vec![]));
}

#[test]
fn input_request_rejects_wrong_types() {
    let plugin = RemoteInputPlugin::new();
    for body in [
        input_body(vec![("dx", Value::from("far"))]),
        input_body(vec![("singleclick", Value::from("yes"))]),
        input_body(vec![("key", Value::from(65))]),
        input_body(vec![("specialKey", Value::from(1.5))]),
        input_body(vec![("specialKey", Value::from(i64::MAX))]),
        input_body(vec![("sendAck", Value::from(0))]),
        Value::Null,
        Value::from("text"),
    ] {
        let packet = Packet::new(0, PACKET_TYPE_MOUSEPAD_REQUEST, body.clone());
        assert!(
            matches!(plugin.handle_request(&packet), Err(ProtocolError::MalformedPacket(_))),
            "{:?}",
            body
        );
    }
}

#[test]
fn input_plugin_ignores_other_packet_types() {
    let mut plugin = RemoteInputPlugin::new();
    let mut device = create_test_device();
    for t in ["kdeconnect.mousepad.echo", "KDEConnect.mousepad.request", ""] {
        let packet = Packet::new(0, t, Value::from("not an object"));
        assert_eq!(plugin.handle_packet(&packet, &mut device), Ok(vec![]));
    }
}

#[test]
fn special_key_codes_round_trip() {
    let keys = [
        (SpecialKey::Backspace, 1),
        (SpecialKey::Tab, 2),
        (SpecialKey::Enter, 12),
        (SpecialKey::Left, 21),
        (SpecialKey::Up, 22),
        (SpecialKey::Right, 23),
        (SpecialKey::Down, 24),
        (SpecialKey::PageUp, 25),
        (SpecialKey::PageDown, 26),
        (SpecialKey::Escape, 27),
        (SpecialKey::Home, 28),
        (SpecialKey::End, 29),
        (SpecialKey::Delete, 30),
        (SpecialKey::F1, 31),
        (SpecialKey::F12, 42),
    ];
    for (key, code) in keys {
        assert_eq!(key.code(), code);
        assert_eq!(SpecialKey::from_code(code), Some(key));
    }
    for code in [0, 3, 11, 13, 20, 43, -1, i32::MAX] {
        assert_eq!(SpecialKey::from_code(code), None);
    }
}
