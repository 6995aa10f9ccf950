//! Discovery: the identity packet devices announce themselves with.
//!
//! Every device broadcasts its identity on the discovery port and listens
//! there for the identities of others. This module writes and reads the
//! identity packet; the datagrams are the caller's.

use vstd::prelude::*;
use crate::device::{lemma_device_type_round_trip, DeviceInfo, DeviceType};
use crate::error::ProtocolError;
use crate::json::{
    array, as_array, as_i64, as_str, empty_object, integer, json_of, json_seq, member, set_member,
    string, Json,
};
use crate::packet::{Packet, PacketView};

verus! {

/// What is said of a body that does not announce an identity.
pub const NOT_AN_IDENTITY: &'static str = "identity lacks a member";

/// The UDP port identities are broadcast on.
pub const DISCOVERY_PORT: u16 = 1716;

/// Packet type of identity packets.
pub const PACKET_TYPE_IDENTITY: &'static str = "kdeconnect.identity";

/// The identity packet type under the newer prefix.
pub const ALIAS_PACKET_TYPE_IDENTITY: &'static str = "cconnect.identity";

/// Whether a packet type is the identity type, under either prefix.
pub open spec fn is_identity_type(packet_type: Seq<char>) -> bool {
    packet_type == PACKET_TYPE_IDENTITY@ || packet_type == ALIAS_PACKET_TYPE_IDENTITY@
}

/// What a [`DeviceInfo`] means.
pub struct IdentityView {
    pub device_id: Seq<char>,
    pub device_name: Seq<char>,
    pub device_type: DeviceType,
    pub protocol_version: u32,
    pub incoming: Seq<Seq<char>>,
    pub outgoing: Seq<Seq<char>>,
    pub tcp_port: u16,
}

pub open spec fn texts(list: Seq<String>) -> Seq<Seq<char>> {
    list.map_values(|s: String| s@)
}

impl View for DeviceInfo {
    type V = IdentityView;

    open spec fn view(&self) -> IdentityView {
        IdentityView {
            device_id: self.device_id@,
            device_name: self.device_name@,
            device_type: self.device_type,
            protocol_version: self.protocol_version,
            incoming: texts(self.incoming_capabilities@),
            outgoing: texts(self.outgoing_capabilities@),
            tcp_port: self.tcp_port,
        }
    }
}

/// A list of strings as a JSON array.
pub open spec fn strings_json(list: Seq<Seq<char>>) -> Json {
    Json::Array(list.map_values(|s: Seq<char>| Json::Str(s)))
}

/// The strings of a JSON array, if that is what the document is.
pub open spec fn strings_of(document: Json) -> Option<Seq<Seq<char>>> {
    match document {
        Json::Array(items) => if forall|i: int| 0 <= i < items.len() ==> items[i] is Str {
            Some(items.map_values(|item: Json| item->Str_0))
        } else {
            None
        },
        _ => None,
    }
}

/// The body of the identity packet of a device.
pub open spec fn identity_body(v: IdentityView) -> Json {
    Json::empty_object().with("deviceId"@, Json::Str(v.device_id)).with(
        "deviceName"@,
        Json::Str(v.device_name),
    ).with("deviceType"@, Json::Str(v.device_type.name())).with(
        "protocolVersion"@,
        Json::Int(v.protocol_version as int),
    ).with("incomingCapabilities"@, strings_json(v.incoming)).with(
        "outgoingCapabilities"@,
        strings_json(v.outgoing),
    ).with("tcpPort"@, Json::Int(v.tcp_port as int))
}

pub open spec fn member_str(body: Json, key: Seq<char>) -> Option<Seq<char>> {
    match body.member(key) {
        Some(Json::Str(s)) => Some(s),
        _ => None,
    }
}

pub open spec fn member_int(body: Json, key: Seq<char>, max: int) -> Option<int> {
    match body.member(key) {
        Some(Json::Int(i)) => if 0 <= i <= max {
            Some(i)
        } else {
            None
        },
        _ => None,
    }
}

pub open spec fn member_strings(body: Json, key: Seq<char>) -> Option<Seq<Seq<char>>> {
    match body.member(key) {
        Some(list) => strings_of(list),
        None => None,
    }
}

/// The identity a packet body announces: `None` unless every member of an
/// identity is there with the type it calls for. Further members are ignored.
pub open spec fn identity_of(body: Json) -> Option<IdentityView> {
    if member_str(body, "deviceId"@) is Some && member_str(body, "deviceName"@) is Some
        && member_str(body, "deviceType"@) is Some && member_int(
        body,
        "protocolVersion"@,
        u32::MAX as int,
    ) is Some && member_strings(body, "incomingCapabilities"@) is Some && member_strings(
        body,
        "outgoingCapabilities"@,
    ) is Some && member_int(body, "tcpPort"@, u16::MAX as int) is Some {
        Some(
            IdentityView {
                device_id: member_str(body, "deviceId"@)->0,
                device_name: member_str(body, "deviceName"@)->0,
                device_type: DeviceType::of(member_str(body, "deviceType"@)->0),
                protocol_version: member_int(body, "protocolVersion"@, u32::MAX as int)->0 as u32,
                incoming: member_strings(body, "incomingCapabilities"@)->0,
                outgoing: member_strings(body, "outgoingCapabilities"@)->0,
                tcp_port: member_int(body, "tcpPort"@, u16::MAX as int)->0 as u16,
            },
        )
    } else {
        None
    }
}

/// An identity written as a packet body reads back as the same identity.
pub proof fn lemma_identity_round_trip(v: IdentityView)
    ensures
        identity_of(identity_body(v)) == Some(v),
{
    reveal_strlit("deviceId");
    reveal_strlit("deviceName");
    reveal_strlit("deviceType");
    reveal_strlit("protocolVersion");
    reveal_strlit("incomingCapabilities");
    reveal_strlit("outgoingCapabilities");
    reveal_strlit("tcpPort");
    assert("deviceId"@.len() == 8 && "deviceName"@.len() == 10 && "deviceType"@.len() == 10);
    assert("protocolVersion"@.len() == 15 && "tcpPort"@.len() == 7);
    assert("incomingCapabilities"@.len() == 20 && "outgoingCapabilities"@.len() == 20);
    assert("deviceName"@[6] != "deviceType"@[6]);
    assert("incomingCapabilities"@[0] != "outgoingCapabilities"@[0]);
    lemma_device_type_round_trip(v.device_type);
    lemma_strings_round_trip(v.incoming);
    lemma_strings_round_trip(v.outgoing);
    let body = identity_body(v);
    assert(member_str(body, "deviceId"@) == Some(v.device_id));
    assert(member_str(body, "deviceName"@) == Some(v.device_name));
    assert(member_str(body, "deviceType"@) == Some(v.device_type.name()));
    assert(member_int(body, "protocolVersion"@, u32::MAX as int) == Some(
        v.protocol_version as int,
    ));
    assert(member_strings(body, "incomingCapabilities"@) == Some(v.incoming));
    assert(member_strings(body, "outgoingCapabilities"@) == Some(v.outgoing));
    assert(member_int(body, "tcpPort"@, u16::MAX as int) == Some(v.tcp_port as int));
}

/// A list of strings written as a JSON array reads back as the same list.
pub proof fn lemma_strings_round_trip(list: Seq<Seq<char>>)
    ensures
        strings_of(strings_json(list)) == Some(list),
{
    let items = list.map_values(|s: Seq<char>| Json::Str(s));
    assert(items.map_values(|item: Json| item->Str_0) =~= list);
}

fn strings_value(list: &Vec<String>) -> (v: serde_json::Value)
    ensures
        json_of(v) == strings_json(texts(list@)),
{
    let mut items: Vec<serde_json::Value> = Vec::new();
    let mut i: usize = 0;
    while i < list.len()
        invariant
            i <= list.len(),
            items.len() == i,
            forall|k: int| 0 <= k < i ==> json_of(items[k]) == Json::Str(list[k]@),
        decreases list.len() - i,
    {
        items.push(string(list[i].as_str()));
        i += 1;
    }
    assert(json_seq(items@) =~= texts(list@).map_values(|s: Seq<char>| Json::Str(s)));
    array(items)
}

fn read_strings(body: &serde_json::Value, key: &str) -> (r: Option<Vec<String>>)
    ensures
        match r {
            Some(list) => member_strings(json_of(*body), key@) == Some(texts(list@)),
            None => member_strings(json_of(*body), key@) is None,
        },
{
    let found = match member(body, key) {
        Some(found) => found,
        None => {
            return None;
        },
    };
    let items = match as_array(found) {
        Some(items) => items,
        None => {
            return None;
        },
    };
    let ghost documents = json_seq(items@);
    let mut list: Vec<String> = Vec::new();
    let mut i: usize = 0;
    while i < items.len()
        invariant
            i <= items.len(),
            list.len() == i,
            documents == json_seq(items@),
            member_strings(json_of(*body), key@) == strings_of(Json::Array(documents)),
            forall|k: int| 0 <= k < i ==> documents[k] == Json::Str(list[k]@),
        decreases items.len() - i,
    {
        assert(documents[i as int] == json_of(items[i as int]));
        match as_str(&items[i]) {
            Some(s) => {
                list.push(s.to_owned());
            },
            None => {
                assert(!(documents[i as int] is Str));
                return None;
            },
        }
        i += 1;
    }
    assert(documents.map_values(|item: Json| item->Str_0) =~= texts(list@));
    Some(list)
}

fn read_text(body: &serde_json::Value, key: &str) -> (r: Option<String>)
    ensures
        match r {
            Some(s) => member_str(json_of(*body), key@) == Some(s@),
            None => member_str(json_of(*body), key@) is None,
        },
{
    match member(body, key) {
        Some(found) => match as_str(found) {
            Some(s) => Some(s.to_owned()),
            None => None,
        },
        None => None,
    }
}

fn read_int(body: &serde_json::Value, key: &str, max: i64) -> (r: Option<i64>)
    requires
        max >= 0,
    ensures
        match r {
            Some(i) => member_int(json_of(*body), key@, max as int) == Some(i as int),
            None => member_int(json_of(*body), key@, max as int) is None,
        },
{
    match member(body, key) {
        Some(found) => match as_i64(found) {
            Some(i) => if 0 <= i && i <= max {
                Some(i)
            } else {
                None
            },
            None => None,
        },
        None => None,
    }
}

impl DeviceInfo {
    /// The identity packet that announces this device, made at time `now`.
    pub fn to_identity_packet(&self, now: i64) -> (packet: Packet)
        ensures
            packet@ == (PacketView {
                id: now,
                packet_type: PACKET_TYPE_IDENTITY@,
                body: identity_body(self@),
            }),
    {
        let mut body = empty_object();
        set_member(&mut body, "deviceId", string(self.device_id.as_str()));
        set_member(&mut body, "deviceName", string(self.device_name.as_str()));
        set_member(&mut body, "deviceType", string(self.device_type.as_str()));
        set_member(&mut body, "protocolVersion", integer(self.protocol_version as i64));
        set_member(&mut body, "incomingCapabilities", strings_value(&self.incoming_capabilities));
        set_member(&mut body, "outgoingCapabilities", strings_value(&self.outgoing_capabilities));
        set_member(&mut body, "tcpPort", integer(self.tcp_port as i64));
        Packet::new(now, PACKET_TYPE_IDENTITY, body)
    }

    /// Reads the identity a packet announces. A body that lacks a member of
    /// an identity, or has one of the wrong type, is malformed.
    pub fn from_identity_packet(packet: &Packet) -> (r: Result<DeviceInfo, ProtocolError>)
        ensures
            match identity_of(packet@.body) {
                Some(identity) => r matches Ok(info) && info@ == identity,
                None => r matches Err(e) && e is MalformedPacket && e.message()
                    == NOT_AN_IDENTITY@,
            },
    {
        let body = &packet.body;
        let device_id = read_text(body, "deviceId");
        let device_name = read_text(body, "deviceName");
        let device_type = read_text(body, "deviceType");
        let protocol_version = read_int(body, "protocolVersion", 0xffff_ffff);
        let incoming = read_strings(body, "incomingCapabilities");
        let outgoing = read_strings(body, "outgoingCapabilities");
        let tcp_port = read_int(body, "tcpPort", 0xffff);
        match (device_id, device_name, device_type, protocol_version, incoming, outgoing, tcp_port) {
            (
                Some(device_id),
                Some(device_name),
                Some(device_type),
                Some(protocol_version),
                Some(incoming_capabilities),
                Some(outgoing_capabilities),
                Some(tcp_port),
            ) => Ok(
                DeviceInfo {
                    device_id,
                    device_name,
                    device_type: DeviceType::from_str(device_type.as_str()),
                    protocol_version: protocol_version as u32,
                    incoming_capabilities,
                    outgoing_capabilities,
                    tcp_port: tcp_port as u16,
                },
            ),
            _ => Err(ProtocolError::MalformedPacket(NOT_AN_IDENTITY.to_owned())),
        }
    }
}

} // verus!
