use cosmic_connect::connection::{delay_after, RetrySchedule, BACKOFF_BASE, BACKOFF_CEILING};
use cosmic_connect::device::{Device, DeviceInfo, DeviceType};
use cosmic_connect::discovery::{DISCOVERY_PORT, PACKET_TYPE_IDENTITY};
use cosmic_connect::error::ProtocolError;
use cosmic_connect::keyed::StringMap;
use cosmic_connect::packet::Packet;
use cosmic_connect::pairing::LinkEvent;
use cosmic_connect::payload::{FileTransferInfo, Transfer};
use cosmic_connect::plugins::remoteinput::{InputAction, RemoteInputPlugin};
use cosmic_connect::plugins::screenshare::PortalSession;
use cosmic_connect::plugins::systemvolume::{SinkTarget, SystemVolumePlugin, VolumePlan};
use cosmic_connect::plugins::{
    declares, negotiate, overlaps, PluginInstance, PluginKind, PluginManager, PluginOutput,
};
use cosmic_connect::text::{
    joined, parse_u32, precedes, str_eq, strip_prefix, u32_to_string,
};
use cosmic_connect::trust::{TrustEntry, TrustStore};
use serde_json::Value;

fn body_of(pairs: Vec<(&str, Value)>) -> Value {
    let mut m = serde_json::Map::new();
    for (k, v) in pairs {
        m.insert(k.to_string(), v);
    }
    Value::Object(m)
}

fn words(list: &[&str]) -> Vec<String> {
    list.iter().map(|s| s.to_string()).collect()
}

fn paired_device(id: &str) -> Device {
    let mut device = Device::from_discovery(DeviceInfo::new(id, "Peer", DeviceType::Phone, 1716));
    let store = &mut TrustStore::new();
    device.link.apply(store, "me", id, LinkEvent::ConnectStarted).unwrap();
    device
        .link
        .apply(store, "me", id, LinkEvent::HandshakeCompleted { fingerprint: "FP".to_string() })
        .unwrap();
    device.link.apply(store, "me", id, LinkEvent::PeerRequested).unwrap();
    device.link.apply(store, "me", id, LinkEvent::PairingAccepted).unwrap();
    assert!(device.is_paired());
    device
}

#[test]
fn identity_packets_round_trip() {
    let mut info = DeviceInfo::new("dev-A", "Ann's phone", DeviceType::Phone, 1739);
    info.incoming_capabilities = words(&["x.ping", "kdeconnect.mousepad.request"]);
    info.outgoing_capabilities = words(&["x.ping"]);
    let packet = info.to_identity_packet(42);
    assert_eq!(packet.id, 42);
    assert_eq!(packet.packet_type, PACKET_TYPE_IDENTITY);
    assert_eq!(packet.body.get("deviceId"), Some(&Value::from("dev-A")));
    assert_eq!(packet.body.get("deviceType"), Some(&Value::from("phone")));
    assert_eq!(packet.body.get("protocolVersion"), Some(&Value::from(7)));
    assert_eq!(packet.body.get("tcpPort"), Some(&Value::from(1739)));
    assert_eq!(
        packet.body.get("incomingCapabilities"),
        Some(&Value::Array(vec![Value::from("x.ping"), Value::from("kdeconnect.mousepad.request")]))
    );
    assert_eq!(DeviceInfo::from_identity_packet(&packet), Ok(info.clone()));
    let over_the_wire = Packet::decode(&packet.encode().unwrap()).unwrap().packet.unwrap();
    assert_eq!(DeviceInfo::from_identity_packet(&over_the_wire), Ok(info));
    assert_eq!(DISCOVERY_PORT, 1716);
}

#[test]
fn identity_with_a_missing_or_mistyped_member_is_malformed() {
    let good = DeviceInfo::new("d", "n", DeviceType::Laptop, 1716).to_identity_packet(1);
    for key in [
        "deviceId",
        "deviceName",
        "deviceType",
        "protocolVersion",
        "incomingCapabilities",
        "outgoingCapabilities",
        "tcpPort",
    ] {
        let mut body = good.body.clone();
        body.as_object_mut().unwrap().remove(key);
        let packet = Packet::new(1, PACKET_TYPE_IDENTITY, body);
        assert!(
            matches!(DeviceInfo::from_identity_packet(&packet), Err(ProtocolError::MalformedPacket(_))),
            "{key}"
        );
        let mut body = good.body.clone();
        body.as_object_mut().unwrap().insert(key.to_string(), Value::from(true));
        let packet = Packet::new(1, PACKET_TYPE_IDENTITY, body);
        assert!(DeviceInfo::from_identity_packet(&packet).is_err(), "{key}");
    }
    for (key, value) in [
        ("tcpPort", Value::from(65536)),
        ("tcpPort", Value::from(-1)),
        ("protocolVersion", Value::from(4294967296u64)),
        ("incomingCapabilities", Value::Array(vec![Value::from("a"), Value::from(1)])),
    ] {
        let mut body = good.body.clone();
        body.as_object_mut().unwrap().insert(key.to_string(), value);
        let packet = Packet::new(1, PACKET_TYPE_IDENTITY, body);
        assert!(DeviceInfo::from_identity_packet(&packet).is_err(), "{key}");
    }
    let mut body = good.body.clone();
    body.as_object_mut().unwrap().insert("deviceType".to_string(), Value::from("fridge"));
    body.as_object_mut().unwrap().insert("later".to_string(), Value::from(1));
    let info = DeviceInfo::from_identity_packet(&Packet::new(1, PACKET_TYPE_IDENTITY, body)).unwrap();
    assert_eq!(info.device_type, DeviceType::Unknown);
}

#[test]
fn device_type_names() {
    let all = [
        (DeviceType::Desktop, "desktop"),
        (DeviceType::Laptop, "laptop"),
        (DeviceType::Phone, "phone"),
        (DeviceType::Tablet, "tablet"),
        (DeviceType::Unknown, "unknown"),
    ];
    for (t, name) in all {
        assert_eq!(t.as_str(), name);
        assert_eq!(DeviceType::from_str(name), t);
    }
    assert_eq!(DeviceType::from_str("tv"), DeviceType::Unknown);
    assert_eq!(DeviceType::from_str("Phone"), DeviceType::Unknown);
    let device = Device::from_discovery(DeviceInfo::new("id-1", "Name", DeviceType::Tablet, 9));
    assert_eq!(device.id(), "id-1");
    assert_eq!(device.name(), "Name");
    assert_eq!(device.info.protocol_version, 7);
    assert_eq!(device.info.tcp_port, 9);
    assert!(device.reachable);
    assert!(!device.is_paired());
}

#[test]
fn trust_store_holds_one_fingerprint_per_device() {
    let mut store = TrustStore::new();
    assert_eq!(store.len(), 0);
    assert!(!store.contains("a"));
    assert!(!store.is_trusted("a", ""));
    store.record("a", "AA");
    store.record("b", "BB");
    store.record("a", "A2");
    assert_eq!(store.len(), 2);
    assert_eq!(store.fingerprint_of("a"), Some("A2".to_string()));
    assert!(store.is_trusted("a", "A2"));
    assert!(!store.is_trusted("a", "AA"));
    assert!(!store.is_trusted("b", "A2"));
    assert!(!store.is_trusted("c", "BB"));
    assert!(store.forget("a"));
    assert!(!store.forget("a"));
    assert_eq!(store.fingerprint_of("a"), None);
    assert_eq!(
        store.entries(),
        vec![TrustEntry { device_id: "b".to_string(), fingerprint: "BB".to_string() }]
    );
}

#[test]
fn trust_store_survives_being_written_out_and_read_back() {
    let mut store = TrustStore::new();
    store.record("x", "1");
    store.record("y", "2");
    store.record("z", "3");
    store.forget("y");
    let restored = TrustStore::from_entries(&store.entries());
    assert_eq!(restored.entries(), store.entries());
    let entry = |id: &str, fp: &str| TrustEntry { device_id: id.to_string(), fingerprint: fp.to_string() };
    let later_wins = TrustStore::from_entries(&vec![entry("a", "old"), entry("b", "B"), entry("a", "new")]);
    assert_eq!(later_wins.len(), 2);
    assert_eq!(later_wins.fingerprint_of("a"), Some("new".to_string()));
}

#[test]
fn string_map_keeps_insertion_order() {
    let mut map: StringMap<u32> = StringMap::new();
    assert_eq!(map.len(), 0);
    assert_eq!(map.get("a"), None);
    map.insert("b", 2);
    map.insert("a", 1);
    map.insert("c", 3);
    map.insert("a", 10);
    assert_eq!(map.len(), 3);
    assert_eq!(map.key_at(0), "b");
    assert_eq!(map.key_at(1), "a");
    assert_eq!(*map.value_at(1), 10);
    assert_eq!(map.position("c"), Some(2));
    assert_eq!(map.position("d"), None);
    assert!(map.contains_key("a"));
    assert_eq!(map.remove("b"), Some(2));
    assert_eq!(map.remove("b"), None);
    assert_eq!(map.key_at(0), "a");
    assert_eq!(map.key_at(1), "c");
    assert_eq!(map.get("c"), Some(&3));
}

#[test]
fn short_payload_fails_the_transfer_only() {
    let packet = Packet::new(
        1,
        "kdeconnect.share.request",
        body_of(vec![
            ("filename", Value::from("a.bin")),
            ("payloadSize", Value::from(1024)),
            ("payloadTransferInfo", body_of(vec![("port", Value::from(1739))])),
        ]),
    );
    let info = FileTransferInfo::from_packet(&packet).unwrap();
    assert_eq!(info, FileTransferInfo { size: 1024, port: 1739 });
    let mut device = paired_device("peer");
    let mut transfer = Transfer::new(info);
    assert_eq!(transfer.receive(512), Ok(()));
    assert_eq!(transfer.remaining(), 512);
    assert!(!transfer.is_complete());
    assert!(matches!(transfer.finish(), Err(ProtocolError::Transfer(_))));
    // The packet connection is as it was: packets still reach the plugins.
    assert!(device.is_paired());
    let mut plugins = PluginManager::new();
    plugins.register(PluginInstance::RemoteInput(RemoteInputPlugin::new()));
    let next = Packet::new(2, "kdeconnect.mousepad.request", body_of(vec![]));
    assert_eq!(plugins.dispatch(&next, &mut device).unwrap().len(), 1);
}

#[test]
fn transfer_counts_exactly_the_declared_bytes() {
    let mut transfer = Transfer::new(FileTransferInfo { size: 10, port: 1 });
    assert_eq!(transfer.receive(0), Ok(()));
    assert_eq!(transfer.receive(4), Ok(()));
    assert!(matches!(transfer.receive(7), Err(ProtocolError::Transfer(_))));
    assert_eq!(transfer.remaining(), 6);
    assert!(matches!(transfer.receive(u64::MAX), Err(ProtocolError::Transfer(_))));
    assert_eq!(transfer.receive(6), Ok(()));
    assert!(transfer.is_complete());
    assert!(matches!(transfer.receive(1), Err(ProtocolError::Transfer(_))));
    assert_eq!(transfer.finish(), Ok(10));
    assert_eq!(Transfer::new(FileTransferInfo { size: 0, port: 1 }).finish(), Ok(0));
}

#[test]
fn transfer_announcements_need_a_size_and_a_port() {
    let with = |size: Value, port: Value| {
        Packet::new(
            1,
            "x.share",
            body_of(vec![
                ("payloadSize", size),
                ("payloadTransferInfo", body_of(vec![("port", port)])),
            ]),
        )
    };
    assert_eq!(
        FileTransferInfo::from_packet(&with(Value::from(0), Value::from(65535))),
        Some(FileTransferInfo { size: 0, port: 65535 })
    );
    assert_eq!(
        FileTransferInfo::from_packet(&with(Value::from(i64::MAX), Value::from(1))),
        Some(FileTransferInfo { size: i64::MAX as u64, port: 1 })
    );
    for (size, port) in [
        (Value::from(-1), Value::from(1739)),
        (Value::from(10), Value::from(0)),
        (Value::from(10), Value::from(65536)),
        (Value::from(1.5), Value::from(1739)),
        (Value::from("10"), Value::from(1739)),
        (Value::from(10), Value::Null),
    ] {
        assert_eq!(FileTransferInfo::from_packet(&with(size, port)), None);
    }
    let none = Packet::new(1, "x.ping", body_of(vec![("payloadSize", Value::from(3))]));
    assert_eq!(FileTransferInfo::from_packet(&none), None);
}

#[test]
fn backoff_doubles_up_to_the_ceiling() {
    assert_eq!(BACKOFF_BASE, 1_000);
    assert_eq!(BACKOFF_CEILING, 64_000);
    let expect = [1_000, 1_000, 2_000, 4_000, 8_000, 16_000, 32_000, 64_000, 64_000];
    for (failures, delay) in expect.iter().enumerate() {
        assert_eq!(delay_after(failures as u32), *delay, "{failures}");
    }
    assert_eq!(delay_after(1_000), 64_000);
    assert_eq!(delay_after(u32::MAX), 64_000);
}

#[test]
fn retry_schedule_waits_and_yields_to_announcements() {
    let mut schedule = RetrySchedule::lost(10_000);
    assert_eq!(schedule, RetrySchedule { failures: 0, next_attempt: 11_000 });
    assert!(!schedule.is_due(10_999));
    assert!(schedule.is_due(11_000));
    schedule.failed(11_000);
    assert_eq!(schedule, RetrySchedule { failures: 1, next_attempt: 12_000 });
    schedule.failed(12_000);
    assert_eq!(schedule, RetrySchedule { failures: 2, next_attempt: 14_000 });
    schedule.failed(14_000);
    assert_eq!(schedule.next_attempt, 18_000);
    schedule.announced(15_000);
    assert_eq!(schedule, RetrySchedule { failures: 3, next_attempt: 15_000 });
    schedule.announced(16_000);
    assert_eq!(schedule.next_attempt, 15_000);
    let mut late = RetrySchedule { failures: u32::MAX, next_attempt: 0 };
    late.failed(u64::MAX - 5);
    assert_eq!(late, RetrySchedule { failures: u32::MAX, next_attempt: u64::MAX });
}

#[test]
fn packets_fan_out_to_every_plugin_that_declares_their_type() {
    let mut plugins = PluginManager::new();
    plugins.register(PluginInstance::SystemVolume(SystemVolumePlugin::new()));
    plugins.register(PluginInstance::RemoteInput(RemoteInputPlugin::new()));
    plugins.register(PluginInstance::SystemVolume(SystemVolumePlugin::new()));
    plugins.register(PluginInstance::RemoteInput(RemoteInputPlugin::new()));
    assert_eq!(plugins.len(), 4);
    assert_eq!(plugins.targets("kdeconnect.mousepad.request"), vec![1, 3]);
    assert_eq!(plugins.targets("cconnect.systemvolume.request"), vec![0, 2]);
    assert_eq!(plugins.targets("kdeconnect.systemvolume.request"), vec![0, 2]);
    assert_eq!(plugins.targets("cconnect.systemvolume"), Vec::<usize>::new());
    assert_eq!(plugins.targets("x.unknown"), Vec::<usize>::new());
    assert_eq!(plugins.name_of(0), Some("systemvolume"));
    assert_eq!(plugins.name_of(3), Some("remoteinput"));
    assert_eq!(plugins.name_of(4), None);
    let mut device = paired_device("peer");
    let packet = Packet::new(
        1,
        "kdeconnect.mousepad.request",
        body_of(vec![("singleclick", Value::from(true))]),
    );
    let deliveries = plugins.handle_packet(&packet, &mut device);
    let to: Vec<usize> = deliveries.iter().map(|d| d.plugin).collect();
    assert_eq!(to, vec![1, 3]);
    for d in &deliveries {
        assert_eq!(d.result, Ok(PluginOutput::Input(vec![InputAction::SingleClick])));
    }
    let unknown = Packet::new(2, "x.unknown", Value::Null);
    assert!(plugins.handle_packet(&unknown, &mut device).is_empty());
}

#[test]
fn a_failing_plugin_does_not_stop_the_others_or_the_next_packet() {
    let mut plugins = PluginManager::new();
    plugins.register(PluginInstance::SystemVolume(SystemVolumePlugin::new()));
    plugins.register(PluginInstance::SystemVolume(SystemVolumePlugin::new()));
    let mut device = paired_device("peer");
    let bad = Packet::new(1, "cconnect.systemvolume.request", body_of(vec![("volume", Value::from("x"))]));
    let deliveries = plugins.dispatch(&bad, &mut device).unwrap();
    assert_eq!(deliveries.len(), 2);
    assert!(deliveries.iter().all(|d| matches!(d.result, Err(ProtocolError::MalformedPacket(_)))));
    let good = Packet::new(2, "cconnect.systemvolume.request", body_of(vec![("volume", Value::from(5))]));
    let deliveries = plugins.dispatch(&good, &mut device).unwrap();
    assert_eq!(deliveries.len(), 2);
    let plan = VolumePlan::Change { target: SinkTarget::Default, volume: Some(5), muted: None };
    for d in &deliveries {
        assert_eq!(d.result, Ok(PluginOutput::Volume(Some(plan.clone()))));
    }
    // Another device's plugins are their own.
    let mut other_plugins = PluginManager::new();
    other_plugins.register(PluginInstance::SystemVolume(SystemVolumePlugin::new()));
    let mut other = paired_device("other");
    assert_eq!(other_plugins.dispatch(&good, &mut other).unwrap().len(), 1);
    assert!(device.is_paired());
}

#[test]
fn plugins_are_made_for_what_the_device_announced() {
    let mut info = DeviceInfo::new("peer", "Peer", DeviceType::Phone, 1716);
    let none = PluginManager::for_device(&Device::from_discovery(info.clone()));
    assert_eq!(none.len(), 0);
    info.outgoing_capabilities = words(&["kdeconnect.mousepad.request", "x.other"]);
    let device = Device::from_discovery(info.clone());
    let one = PluginManager::for_device(&device);
    assert_eq!(one.len(), 1);
    assert_eq!(one.name_of(0), Some("remoteinput"));
    info.incoming_capabilities = words(&["kdeconnect.systemvolume"]);
    let both = PluginManager::for_device(&Device::from_discovery(info.clone()));
    assert_eq!(both.len(), 2);
    assert_eq!(both.name_of(1), Some("systemvolume"));
    info.outgoing_capabilities = vec![];
    info.incoming_capabilities = words(&["kdeconnect.mousepad.keyboardstate"]);
    let by_outgoing = PluginManager::for_device(&Device::from_discovery(info));
    assert_eq!(by_outgoing.len(), 1);
    assert_eq!(by_outgoing.name_of(0), Some("remoteinput"));
    let instance = PluginInstance::RemoteInput(RemoteInputPlugin::new());
    assert_eq!(instance.kind(), PluginKind::RemoteInput);
    assert!(instance.accepts("kdeconnect.mousepad.request"));
    assert!(!instance.accepts("kdeconnect.mousepad.keyboardstate"));
    assert_eq!(instance.outgoing_capabilities(), vec!["kdeconnect.mousepad.keyboardstate"]);
}

#[test]
fn negotiated_capabilities_are_the_intersection() {
    let local = words(&["b", "a", "c", "a"]);
    let announced = words(&["a", "x", "c"]);
    assert_eq!(negotiate(&local, &announced), words(&["a", "c", "a"]));
    assert_eq!(negotiate(&announced, &local), words(&["a", "c"]));
    assert_eq!(negotiate(&local, &vec![]), Vec::<String>::new());
    assert_eq!(negotiate(&vec![], &announced), Vec::<String>::new());
    assert_eq!(negotiate(&words(&["A"]), &words(&["a"])), Vec::<String>::new());
    assert!(declares(&local, "c"));
    assert!(!declares(&local, "C"));
    assert!(overlaps(&local, &announced));
    assert!(!overlaps(&local, &words(&["x", "y"])));
    assert!(!overlaps(&vec![], &vec![]));
}

#[test]
fn first_stream_is_the_session() {
    assert_eq!(PortalSession::from_streams(&vec![42, 7]), Ok(PortalSession { pipewire_node_id: 42 }));
    assert_eq!(
        PortalSession::from_streams(&vec![]),
        Err(ProtocolError::Plugin("No streams available".to_string()))
    );
}

#[test]
fn numerals_read_and_write() {
    for (text, n) in [("0", 0u32), ("7", 7), ("10", 10), ("4294967295", u32::MAX), ("1000000", 1_000_000)] {
        assert_eq!(u32_to_string(n), text);
        assert_eq!(parse_u32(text), Some(n));
    }
    assert_eq!(parse_u32("+12"), Some(12));
    assert_eq!(parse_u32("0012"), Some(12));
    for bad in ["", "+", "-", "-0", "++1", "1+", "4294967296", "99999999999", "1.0", "1 ", "١٢", "0x10"] {
        assert_eq!(parse_u32(bad), None, "{bad}");
        assert_eq!(parse_u32(bad), bad.parse::<u32>().ok(), "{bad}");
    }
    for n in [0u32, 1, 9, 10, 99, 100, 65535, 4294967294] {
        assert_eq!(parse_u32(&u32_to_string(n)), Some(n));
        assert_eq!(u32_to_string(n), n.to_string());
    }
}

#[test]
fn string_helpers() {
    assert!(str_eq("abc", "abc"));
    assert!(!str_eq("abc", "abd"));
    assert!(!str_eq("abc", "ab"));
    assert!(str_eq("", ""));
    assert_eq!(joined("ab", "cd"), "abcd");
    assert_eq!(strip_prefix("prefix-rest", "prefix-"), Some("rest".to_string()));
    assert_eq!(strip_prefix("prefix-", "prefix-"), Some(String::new()));
    assert_eq!(strip_prefix("pre", "prefix-"), None);
    assert_eq!(strip_prefix("Prefix-rest", "prefix-"), None);
    assert_eq!(strip_prefix("äöü", "ä"), Some("öü".to_string()));
    assert_eq!(strip_prefix("x", ""), Some("x".to_string()));
    let pairs = [("a", "b"), ("", "a"), ("a", "aa"), ("dev-A", "dev-B"), ("Z", "a"), ("z", "é")];
    for (small, large) in pairs {
        assert!(precedes(small, large), "{small} {large}");
        assert!(!precedes(large, small), "{small} {large}");
        assert_eq!(precedes(small, large), small < large);
    }
    assert!(!precedes("same", "same"));
    assert!(!precedes("", ""));
    assert_eq!(precedes("é", "z"), "é" < "z");
}
