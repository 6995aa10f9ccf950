use cosmic_connect::device::{Device, DeviceInfo, DeviceType};
use cosmic_connect::error::ProtocolError;
use cosmic_connect::packet::Packet;
use cosmic_connect::plugins::systemvolume::{
    AudioSink, SinkInfo, SinkListResponse, SinkTarget, SystemVolumePlugin,
    SystemVolumePluginFactory, SystemVolumeRequest, VolumePlan, PACKET_TYPE_SYSTEMVOLUME,
    PACKET_TYPE_SYSTEMVOLUME_REQUEST,
};
use serde_json::Value;

fn volume_body(pairs: Vec<(&str, Value)>) -> Value {
    let mut m = serde_json::Map::new();
    for (k, v) in pairs {
        m.insert(k.to_string(), v);
    }
    Value::Object(m)
}

fn speaker(id: u32, name: &str) -> AudioSink {
    AudioSink {
        id,
        name: name.to_string(),
        volume: 75,
        muted: false,
        is_default: true,
        max_volume: 150,
    }
}

fn volume_test_device() -> Device {
    Device::from_discovery(DeviceInfo::new("dev-1", "Test Device", DeviceType::Desktop, 1716))
}

#[test]
fn test_sink_info_from_audio_sink() {
    let audio_sink = AudioSink {
        id: 50,
        name: "Test Speaker".to_string(),
        volume: 75,
        muted: false,
        is_default: true,
        max_volume: 150,
    };

    let sink_info: SinkInfo = audio_sink.into();
    assert_eq!(sink_info.name, "50");
    assert_eq!(sink_info.description, "Test Speaker");
    assert_eq!(sink_info.volume, 75);
    assert!(!sink_info.muted);
    assert!(sink_info.enabled);
    assert_eq!(sink_info.max_volume, 150);
}

#[test]
fn test_parse_volume_request() {
    let json = volume_body(vec![
        ("name", Value::from("50")),
        ("volume", Value::from(80)),
        ("muted", Value::from(false)),
        ("requestSinks", Value::from(false)),
    ]);

    let request: SystemVolumeRequest = SystemVolumeRequest::from_body(&json).unwrap();
    assert_eq!(request.name, Some("50".to_string()));
    assert_eq!(request.volume, Some(80));
    assert_eq!(request.muted, Some(false));
    assert!(!request.request_sinks);
}

#[test]
fn test_parse_request_sinks() {
    let json = volume_body(vec![("requestSinks", Value::from(true))]);

    let request: SystemVolumeRequest = SystemVolumeRequest::from_body(&json).unwrap();
    assert!(request.request_sinks);
    assert!(request.name.is_none());
    assert!(request.volume.is_none());
}

#[test]
fn volume_request_rejects_wrong_types() {
    for body in [
        volume_body(vec![("volume", Value::from("loud"))]),
        volume_body(vec![("volume", Value::from(1.5))]),
        volume_body(vec![("volume", Value::from(3_000_000_000i64))]),
        volume_body(vec![("muted", Value::from(1))]),
        volume_body(vec![("name", Value::from(7))]),
        volume_body(vec![("requestSinks", Value::Null)]),
        Value::Null,
        Value::from(3),
        Value::Array(vec![]),
    ] {
        let r = SystemVolumeRequest::from_body(&body);
        assert!(matches!(r, Err(ProtocolError::MalformedPacket(_))), "{:?}", body);
    }
}

#[test]
fn volume_request_takes_null_as_absent_and_ignores_unknown_members() {
    let body = volume_body(vec![
        ("name", Value::Null),
        ("volume", Value::Null),
        ("enabled", Value::from(true)),
        ("somethingNew", Value::from("x")),
    ]);
    let request = SystemVolumeRequest::from_body(&body).unwrap();
    assert_eq!(
        request,
        SystemVolumeRequest {
            name: None,
            volume: None,
            muted: None,
            enabled: Some(true),
            request_sinks: false
        }
    );
}

#[test]
fn volume_plan_for_a_numeric_name_targets_the_id() {
    let plugin = SystemVolumePlugin::new();
    let packet = Packet::new(
        1,
        PACKET_TYPE_SYSTEMVOLUME_REQUEST,
        volume_body(vec![("name", Value::from("50")), ("volume", Value::from(80))]),
    );
    assert_eq!(
        plugin.handle_volume_request(&packet),
        Ok(VolumePlan::Change { target: SinkTarget::Id(50), volume: Some(80), muted: None })
    );
}

#[test]
fn volume_plan_targets() {
    let plugin = SystemVolumePlugin::new();
    assert_eq!(plugin.target(&None), SinkTarget::Default);
    assert_eq!(plugin.target(&Some("+7".to_string())), SinkTarget::Id(7));
    assert_eq!(plugin.target(&Some("007".to_string())), SinkTarget::Id(7));
    assert_eq!(plugin.target(&Some("4294967295".to_string())), SinkTarget::Id(u32::MAX));
    for name in ["Speakers", "", "+", "-1", "4294967296", "12a", " 12"] {
        assert_eq!(
            plugin.target(&Some(name.to_string())),
            SinkTarget::Named(name.to_string()),
            "{name}"
        );
    }
}

#[test]
fn volume_plan_for_request_sinks_ignores_the_rest() {
    let plugin = SystemVolumePlugin::new();
    let packet = Packet::new(
        1,
        PACKET_TYPE_SYSTEMVOLUME_REQUEST,
        volume_body(vec![("requestSinks", Value::from(true)), ("volume", Value::from(10))]),
    );
    assert_eq!(plugin.handle_volume_request(&packet), Ok(VolumePlan::SendSinkList));
}

#[test]
fn volume_packets_of_both_prefixes_are_handled_and_others_ignored() {
    let mut plugin = SystemVolumePlugin::new();
    let mut device = volume_test_device();
    let body = volume_body(vec![("muted", Value::from(true))]);
    let expect = VolumePlan::Change { target: SinkTarget::Default, volume: None, muted: Some(true) };
    for t in ["cconnect.systemvolume.request", "kdeconnect.systemvolume.request"] {
        let packet = Packet::new(1, t, body.clone());
        assert_eq!(plugin.handle_packet(&packet, &mut device), Ok(Some(expect.clone())));
    }
    for t in ["cconnect.systemvolume", "CConnect.systemvolume.request", "x.ping"] {
        let packet = Packet::new(1, t, Value::Null);
        assert_eq!(plugin.handle_packet(&packet, &mut device), Ok(None));
    }
    let bad = Packet::new(1, PACKET_TYPE_SYSTEMVOLUME_REQUEST, Value::from(1));
    assert!(matches!(
        plugin.handle_packet(&bad, &mut device),
        Err(ProtocolError::MalformedPacket(_))
    ));
}

#[test]
fn sink_list_packet_lists_the_sinks_in_order() {
    let mut plugin = SystemVolumePlugin::new();
    assert!(plugin.send_sink_list(vec![speaker(1, "a")], 5).is_none());
    plugin.init(&volume_test_device()).unwrap();
    let (to, packet) = plugin.send_sink_list(vec![speaker(50, "Front"), speaker(7, "Rear")], 99).unwrap();
    assert_eq!(to, "dev-1");
    assert_eq!(packet.id, 99);
    assert_eq!(packet.packet_type, PACKET_TYPE_SYSTEMVOLUME);
    let list = packet.body.get("sinkList").unwrap().as_array().unwrap();
    assert_eq!(list.len(), 2);
    let expect = volume_body(vec![
        ("name", Value::from("50")),
        ("description", Value::from("Front")),
        ("volume", Value::from(75)),
        ("muted", Value::from(false)),
        ("maxVolume", Value::from(150)),
        ("enabled", Value::from(true)),
    ]);
    assert_eq!(list[0], expect);
    assert_eq!(list[1].get("name"), Some(&Value::from("7")));
    assert_eq!(packet.body.as_object().unwrap().len(), 1);
}

#[test]
fn announced_sink_name_leads_back_to_the_sink() {
    let plugin = SystemVolumePlugin::new();
    for id in [0u32, 9, 10, 50, 4096, u32::MAX] {
        let info = SinkInfo::from_sink(speaker(id, "s"));
        assert_eq!(plugin.target(&Some(info.name)), SinkTarget::Id(id));
    }
}

#[test]
fn sink_list_response_keeps_every_field() {
    let response = SinkListResponse::from_sinks(vec![AudioSink {
        id: 3,
        name: "HDMI".to_string(),
        volume: 120,
        muted: true,
        is_default: false,
        max_volume: 150,
    }]);
    assert_eq!(
        response.sink_list,
        vec![SinkInfo {
            name: "3".to_string(),
            description: "HDMI".to_string(),
            volume: 120,
            muted: true,
            max_volume: 150,
            enabled: false,
        }]
    );
}

#[test]
fn system_volume_factory_and_lifecycle() {
    let factory = SystemVolumePluginFactory;
    assert_eq!(factory.name(), "systemvolume");
    assert_eq!(
        factory.incoming_capabilities(),
        vec!["cconnect.systemvolume.request", "kdeconnect.systemvolume.request"]
    );
    assert_eq!(
        factory.outgoing_capabilities(),
        vec!["cconnect.systemvolume", "kdeconnect.systemvolume"]
    );
    let mut plugin = factory.create();
    assert_eq!(plugin.name(), "systemvolume");
    assert_eq!(plugin.device_id(), None);
    plugin.init(&volume_test_device()).unwrap();
    assert_eq!(plugin.device_id(), Some("dev-1".to_string()));
    assert_eq!(plugin.start(true), Ok(true));
    assert_eq!(plugin.start(false), Ok(false));
    assert!(plugin.stop().is_ok());
}
