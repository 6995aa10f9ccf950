use cosmic_connect::error::ProtocolError;
use cosmic_connect::keyed::StringMap;
use cosmic_connect::mpris::{query_metadata, MetadataValue, PlayerMetadata};
use cosmic_connect::device::DeviceInfo;
use cosmic_connect::discovery::NOT_AN_IDENTITY;
use cosmic_connect::packet::{Packet, LINE_FEED_INSIDE, NOT_A_PACKET, NOT_JSON};
use cosmic_connect::pairing::{PairKind, NO_PAIR_FLAG};
use cosmic_connect::payload::{FileTransferInfo, Transfer, CLOSED_EARLY, TOO_MANY_BYTES};
use cosmic_connect::plugins::remoteinput::{self, RemoteInputPlugin, RemoteInputRequest};
use cosmic_connect::plugins::systemvolume::{
    self, steps, AudioSink, SinkCall, SinkInfo, SinkListResponse, SinkTarget, Steps,
    SystemVolumePlugin, SystemVolumeRequest, VolumePlan, NOT_A_SINK_LIST,
};
use serde_json::Value;

fn body(pairs: Vec<(&str, Value)>) -> Value {
    let mut m = serde_json::Map::new();
    for (k, v) in pairs {
        m.insert(k.to_string(), v);
    }
    Value::Object(m)
}

fn message_of<T: std::fmt::Debug>(r: Result<T, ProtocolError>) -> String {
    match r {
        Err(ProtocolError::MalformedPacket(m)) => m,
        other => panic!("expected a malformed packet, got {:?}", other),
    }
}

#[test]
fn mistyped_volume_is_refused_with_the_volume_prefix() {
    let plugin = SystemVolumePlugin::new();
    let packet = Packet::new(
        1,
        "cconnect.systemvolume.request",
        body(vec![("volume", Value::from("loud"))]),
    );
    let message = message_of(plugin.handle_volume_request(&packet));
    assert!(message.starts_with("Failed to parse volume request: "), "{}", message);
    assert_eq!(message, "Failed to parse volume request: body member has the wrong type");
    assert_eq!(systemvolume::PARSE_FAILURE, "Failed to parse volume request: ");
    assert!(plugin.device_id().is_none());
}

#[test]
fn volume_body_that_is_no_object_is_refused_with_the_volume_prefix() {
    for v in [Value::Null, Value::from(3), Value::from("x"), Value::Array(vec![])] {
        let message = message_of(SystemVolumeRequest::from_body(&v));
        assert_eq!(message, "Failed to parse volume request: not an object");
    }
}

#[test]
fn mistyped_motion_is_refused_with_the_request_prefix() {
    let plugin = RemoteInputPlugin::new();
    let packet =
        Packet::new(1, "kdeconnect.mousepad.request", body(vec![("dx", Value::from("ten"))]));
    let message = message_of(plugin.handle_request(&packet));
    assert!(message.starts_with("Failed to parse request: "), "{}", message);
    assert_eq!(message, "Failed to parse request: body member has the wrong type");
    assert_eq!(remoteinput::PARSE_FAILURE, "Failed to parse request: ");
    assert!(plugin.device_id().is_none());
}

#[test]
fn input_body_that_is_no_object_is_refused_with_the_request_prefix() {
    let message = message_of(RemoteInputRequest::from_body(&Value::from(true)));
    assert_eq!(message, "Failed to parse request: not an object");
}

#[test]
fn a_change_on_an_unknown_sink_does_nothing() {
    for target in [SinkTarget::Named("Speakers".to_string()), SinkTarget::Default] {
        let plan = VolumePlan::Change { target, volume: Some(40), muted: Some(true) };
        assert_eq!(steps(&plan, None), Steps { calls: vec![], send_list: false });
    }
}

#[test]
fn a_change_sets_the_volume_then_the_mute_state_then_sends_the_list() {
    let plan = VolumePlan::Change {
        target: SinkTarget::Named("Speakers".to_string()),
        volume: Some(40),
        muted: Some(true),
    };
    assert_eq!(
        steps(&plan, Some(7)),
        Steps {
            calls: vec![
                SinkCall::SetVolume { sink: 7, volume: 40 },
                SinkCall::SetMute { sink: 7, muted: true },
            ],
            send_list: true,
        }
    );
    let only_mute =
        VolumePlan::Change { target: SinkTarget::Default, volume: None, muted: Some(false) };
    assert_eq!(
        steps(&only_mute, Some(3)),
        Steps { calls: vec![SinkCall::SetMute { sink: 3, muted: false }], send_list: true }
    );
    let nothing = VolumePlan::Change { target: SinkTarget::Default, volume: None, muted: None };
    assert_eq!(steps(&nothing, Some(3)), Steps { calls: vec![], send_list: true });
}

#[test]
fn a_change_by_id_does_not_look_at_what_was_found() {
    let plan = VolumePlan::Change { target: SinkTarget::Id(50), volume: Some(10), muted: None };
    let expected =
        Steps { calls: vec![SinkCall::SetVolume { sink: 50, volume: 10 }], send_list: true };
    assert_eq!(steps(&plan, None), expected);
    assert_eq!(steps(&plan, Some(9)), expected);
}

#[test]
fn a_request_for_the_list_makes_no_call() {
    let expected = Steps { calls: vec![], send_list: true };
    assert_eq!(steps(&VolumePlan::SendSinkList, None), expected);
    assert_eq!(steps(&VolumePlan::SendSinkList, Some(1)), expected);
}

#[test]
fn sink_list_survives_the_codec_sink_by_sink() {
    let sinks = vec![
        AudioSink {
            id: 50,
            name: "Speakers \"front\"\nleft".to_string(),
            volume: 75,
            muted: false,
            is_default: true,
            max_volume: 150,
        },
        AudioSink {
            id: 7,
            name: "Kopfh\u{f6}rer".to_string(),
            volume: -1,
            muted: true,
            is_default: false,
            max_volume: i32::MAX,
        },
    ];
    let expected: Vec<SinkInfo> = sinks.iter().cloned().map(SinkInfo::from_sink).collect();
    let mut plugin = SystemVolumePlugin::new();
    let device = cosmic_connect::device::Device::from_discovery(
        cosmic_connect::device::DeviceInfo::new(
            "dev-1",
            "Phone",
            cosmic_connect::device::DeviceType::Phone,
            1716,
        ),
    );
    plugin.init(&device).unwrap();
    let (to, packet) = plugin.send_sink_list(sinks, 99).unwrap();
    assert_eq!(to, "dev-1");

    let bytes = packet.encode().unwrap();
    let frame = Packet::decode(&bytes).unwrap();
    assert_eq!(frame.consumed, bytes.len());
    let back = frame.packet.unwrap();
    assert_eq!(back, packet);

    let read = SinkListResponse::from_body(&back.body).unwrap();
    assert_eq!(read.sink_list, expected);
    let first = back.body["sinkList"][0].as_object().unwrap();
    let mut keys: Vec<&str> = first.keys().map(|k| k.as_str()).collect();
    keys.sort();
    assert_eq!(keys, ["description", "enabled", "maxVolume", "muted", "name", "volume"]);
}

#[test]
fn a_body_without_a_well_formed_sink_list_is_refused() {
    let sink = |volume: Value| {
        body(vec![
            ("name", Value::from("1")),
            ("description", Value::from("Speakers")),
            ("volume", volume),
            ("muted", Value::from(false)),
            ("maxVolume", Value::from(150)),
            ("enabled", Value::from(true)),
        ])
    };
    let good = body(vec![("sinkList", Value::Array(vec![sink(Value::from(5))]))]);
    assert_eq!(SinkListResponse::from_body(&good).unwrap().sink_list[0].volume, 5);
    assert_eq!(
        SinkListResponse::from_body(&body(vec![("sinkList", Value::Array(vec![]))])),
        Ok(SinkListResponse { sink_list: vec![] })
    );
    let bad = [
        body(vec![]),
        body(vec![("sinkList", Value::from("none"))]),
        body(vec![("sinkList", Value::Array(vec![Value::from(1)]))]),
        body(vec![("sinkList", Value::Array(vec![sink(Value::from("5"))]))]),
        body(vec![("sinkList", Value::Array(vec![sink(Value::from(1i64 << 31))]))]),
        body(vec![("sinkList", Value::Array(vec![sink(Value::from(5)), body(vec![])]))]),
    ];
    for b in bad {
        assert_eq!(
            SinkListResponse::from_body(&b),
            Err(ProtocolError::MalformedPacket(NOT_A_SINK_LIST.to_string())),
            "{:?}",
            b
        );
    }
    assert!(SinkInfo::from_json(&sink(Value::from(5))).is_some());
    assert!(SinkInfo::from_json(&sink(Value::Null)).is_none());
}

#[test]
fn every_packet_has_a_frame() {
    let packet = Packet::new(
        5,
        "x.note\n",
        body(vec![("text\n", Value::from("line one\nline two\r\n\ttabbed \u{1} \"q\" \\"))]),
    );
    let bytes = packet.encode().unwrap();
    assert_eq!(bytes.iter().filter(|b| **b == 10).count(), 1);
    assert_eq!(*bytes.last().unwrap(), 10);
    let frame = Packet::decode(&bytes).unwrap();
    assert_eq!(frame.consumed, bytes.len());
    assert_eq!(frame.packet, Ok(packet));
}

#[test]
fn metadata_is_read_by_key_and_by_type() {
    let mut dict: StringMap<MetadataValue> = StringMap::new();
    dict.insert("xesam:artist", MetadataValue::Text("Artist".to_string()));
    dict.insert("xesam:title", MetadataValue::Text("Title".to_string()));
    dict.insert("xesam:album", MetadataValue::Other);
    dict.insert("mpris:artUrl", MetadataValue::Integer(4));
    dict.insert("mpris:length", MetadataValue::Integer(180_000_000));
    dict.insert("xesam:genre", MetadataValue::Text("ignored".to_string()));
    assert_eq!(
        query_metadata(&dict),
        PlayerMetadata {
            artist: Some("Artist".to_string()),
            title: Some("Title".to_string()),
            album: None,
            album_art_url: None,
            length: 180_000_000,
        }
    );
}

#[test]
fn metadata_of_an_empty_or_mistyped_dictionary_says_nothing() {
    let empty: StringMap<MetadataValue> = StringMap::new();
    let nothing =
        PlayerMetadata { artist: None, title: None, album: None, album_art_url: None, length: 0 };
    assert_eq!(query_metadata(&empty), nothing);
    let mut dict: StringMap<MetadataValue> = StringMap::new();
    dict.insert("mpris:length", MetadataValue::Text("long".to_string()));
    dict.insert("xesam:artist", MetadataValue::Other);
    assert_eq!(query_metadata(&dict), nothing);
}

#[test]
fn every_refusal_says_why() {
    let malformed = |m: &str| ProtocolError::MalformedPacket(m.to_string());
    assert_eq!(Packet::decode(b"{oops\n").unwrap().packet, Err(malformed(NOT_JSON)));
    assert_eq!(Packet::decode(b"{\"id\":1}\n").unwrap().packet, Err(malformed(NOT_A_PACKET)));
    assert_eq!(Packet::from_json(&Value::from(1)), Err(malformed(NOT_A_PACKET)));
    assert_eq!(Packet::frame(b"a\nb".to_vec()), Err(malformed(LINE_FEED_INSIDE)));

    let empty = Packet::new(1, "kdeconnect.identity", body(vec![]));
    assert_eq!(DeviceInfo::from_identity_packet(&empty), Err(malformed(NOT_AN_IDENTITY)));
    let flagless = Packet::new(1, "kdeconnect.pair", body(vec![("pair", Value::from("yes"))]));
    assert_eq!(PairKind::from_packet(&flagless), Err(malformed(NO_PAIR_FLAG)));

    let mut transfer = Transfer::new(FileTransferInfo { size: 4, port: 1 });
    assert_eq!(transfer.receive(5), Err(ProtocolError::Transfer(TOO_MANY_BYTES.to_string())));
    assert_eq!(transfer.receive(3), Ok(()));
    assert_eq!(transfer.finish(), Err(ProtocolError::Transfer(CLOSED_EARLY.to_string())));
}
