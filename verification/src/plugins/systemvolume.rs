//! System volume: remote control of the host's audio sinks.
//!
//! The plugin consumes `cconnect.systemvolume.request` (and the older
//! `kdeconnect.systemvolume.request`) and produces `cconnect.systemvolume`
//! sink lists. Talking to the audio server is the caller's job: the plugin
//! turns a request into a [`VolumePlan`], the plan and the audio server's
//! answer into the [`Steps`] to take, and the sinks the caller then reads
//! back into the packet to send.
//!
//! Sinks are named on the wire by the decimal numeral of their id, so a
//! request's sink name is first read as a number and only then looked up.

use vstd::prelude::*;
use vstd::hash_map::StringHashMap;
use crate::device::Device;
use crate::error::ProtocolError;
use crate::fields::{
    bool_or_false, not_an_object, opt_bool, opt_i32, opt_str, parse_failure, prefixed, read_bool,
    read_flag, read_i32, read_str, reason,
};
use crate::json::{
    array, as_array, as_bool, as_i64, as_str, boolean, empty_object, integer, is_object, json_of,
    json_seq, member, set_member, string, Json,
};
use crate::packet::{Packet, PacketView};
use crate::text::{decimal, parse_u32, parsed_u32, u32_to_string};

verus! {

/// What the message of every error about an unreadable request begins with.
pub const PARSE_FAILURE: &'static str = "Failed to parse volume request: ";

/// What is said of a body that does not announce a list of sinks.
pub const NOT_A_SINK_LIST: &'static str = "body holds no list of sinks";

/// Packet type for system volume requests (incoming).
pub const PACKET_TYPE_SYSTEMVOLUME_REQUEST: &'static str = "cconnect.systemvolume.request";

/// Packet type for sink list updates (outgoing).
pub const PACKET_TYPE_SYSTEMVOLUME: &'static str = "cconnect.systemvolume";

/// The request type under its older prefix.
pub const LEGACY_PACKET_TYPE_SYSTEMVOLUME_REQUEST: &'static str = "kdeconnect.systemvolume.request";

/// The sink list type under its older prefix.
pub const LEGACY_PACKET_TYPE_SYSTEMVOLUME: &'static str = "kdeconnect.systemvolume";

/// Whether a packet type is a volume request, under either prefix.
pub open spec fn is_request_type(packet_type: Seq<char>) -> bool {
    packet_type == PACKET_TYPE_SYSTEMVOLUME_REQUEST@ || packet_type
        == LEGACY_PACKET_TYPE_SYSTEMVOLUME_REQUEST@
}

/// System volume request body (incoming).
#[derive(Debug, Clone, PartialEq, Eq)]
pub struct SystemVolumeRequest {
    /// Name of the audio sink to control.
    pub name: Option<String>,
    /// Volume level (0-100, can go higher for boost).
    pub volume: Option<i32>,
    /// Mute status.
    pub muted: Option<bool>,
    /// Set as default sink.
    pub enabled: Option<bool>,
    /// Ask for the list of sinks instead of changing one.
    pub request_sinks: bool,
}

/// What a [`SystemVolumeRequest`] means.
pub struct VolumeRequestView {
    pub name: Option<Seq<char>>,
    pub volume: Option<i32>,
    pub muted: Option<bool>,
    pub enabled: Option<bool>,
    pub request_sinks: bool,
}

impl View for SystemVolumeRequest {
    type V = VolumeRequestView;

    open spec fn view(&self) -> VolumeRequestView {
        VolumeRequestView {
            name: match self.name {
                Some(name) => Some(name@),
                None => None,
            },
            volume: self.volume,
            muted: self.muted,
            enabled: self.enabled,
            request_sinks: self.request_sinks,
        }
    }
}

/// The request a body denotes: `None` unless the body is an object whose
/// known members are well typed. Unknown members are ignored.
pub open spec fn volume_request_of(body: Json) -> Option<VolumeRequestView> {
    if body is Object && opt_str(body, "name"@) is Some && opt_i32(body, "volume"@) is Some
        && opt_bool(body, "muted"@) is Some && opt_bool(body, "enabled"@) is Some && bool_or_false(
        body,
        "requestSinks"@,
    ) is Some {
        Some(
            VolumeRequestView {
                name: opt_str(body, "name"@)->0,
                volume: opt_i32(body, "volume"@)->0,
                muted: opt_bool(body, "muted"@)->0,
                enabled: opt_bool(body, "enabled"@)->0,
                request_sinks: bool_or_false(body, "requestSinks"@)->0,
            },
        )
    } else {
        None
    }
}

impl SystemVolumeRequest {
    /// Reads a request out of a packet body. A body that is not a well-typed
    /// request is refused with a message that begins with [`PARSE_FAILURE`].
    pub fn from_body(body: &serde_json::Value) -> (r: Result<SystemVolumeRequest, ProtocolError>)
        ensures
            match volume_request_of(json_of(*body)) {
                Some(request) => r matches Ok(parsed) && parsed@ == request,
                None => r matches Err(e) && parse_failure(e, PARSE_FAILURE@, json_of(*body)),
            },
    {
        match Self::read(body) {
            Ok(request) => Ok(request),
            Err(e) => Err(prefixed(PARSE_FAILURE, e)),
        }
    }

    /// Reads the members one by one; an error says only why.
    fn read(body: &serde_json::Value) -> (r: Result<SystemVolumeRequest, ProtocolError>)
        ensures
            match volume_request_of(json_of(*body)) {
                Some(request) => r matches Ok(parsed) && parsed@ == request,
                None => r matches Err(e) && e.message() == reason(json_of(*body)),
            },
    {
        if !is_object(body) {
            return Err(not_an_object());
        }
        let name = read_str(body, "name")?;
        let volume = read_i32(body, "volume")?;
        let muted = read_bool(body, "muted")?;
        let enabled = read_bool(body, "enabled")?;
        let request_sinks = read_flag(body, "requestSinks")?;
        Ok(SystemVolumeRequest { name, volume, muted, enabled, request_sinks })
    }
}

/// An audio sink as the audio server reports it.
#[derive(Debug, Clone, PartialEq, Eq)]
pub struct AudioSink {
    pub id: u32,
    pub name: String,
    pub volume: i32,
    pub muted: bool,
    pub is_default: bool,
    pub max_volume: i32,
}

/// What an [`AudioSink`] means.
pub struct AudioSinkView {
    pub id: u32,
    pub name: Seq<char>,
    pub volume: i32,
    pub muted: bool,
    pub is_default: bool,
    pub max_volume: i32,
}

impl View for AudioSink {
    type V = AudioSinkView;

    open spec fn view(&self) -> AudioSinkView {
        AudioSinkView {
            id: self.id,
            name: self.name@,
            volume: self.volume,
            muted: self.muted,
            is_default: self.is_default,
            max_volume: self.max_volume,
        }
    }
}

/// Sink information for the protocol (outgoing).
#[derive(Debug, Clone, PartialEq, Eq)]
pub struct SinkInfo {
    /// Unique sink name: the numeral of the sink's id.
    pub name: String,
    /// Human-readable description.
    pub description: String,
    /// Current volume (0-100+).
    pub volume: i32,
    /// Whether the sink is muted.
    pub muted: bool,
    /// Maximum volume (typically 150 for boost).
    pub max_volume: i32,
    /// Whether this is the default sink.
    pub enabled: bool,
}

/// What a [`SinkInfo`] means.
pub struct SinkInfoView {
    pub name: Seq<char>,
    pub description: Seq<char>,
    pub volume: i32,
    pub muted: bool,
    pub max_volume: i32,
    pub enabled: bool,
}

impl View for SinkInfo {
    type V = SinkInfoView;

    open spec fn view(&self) -> SinkInfoView {
        SinkInfoView {
            name: self.name@,
            description: self.description@,
            volume: self.volume,
            muted: self.muted,
            max_volume: self.max_volume,
            enabled: self.enabled,
        }
    }
}

/// How a sink is presented to the peer.
pub open spec fn sink_info_of(sink: AudioSinkView) -> SinkInfoView {
    SinkInfoView {
        name: decimal(sink.id as nat),
        description: sink.name,
        volume: sink.volume,
        muted: sink.muted,
        max_volume: sink.max_volume,
        enabled: sink.is_default,
    }
}

impl SinkInfo {
    /// How a sink is presented to the peer: named by its id, described by its name.
    pub fn from_sink(sink: AudioSink) -> (info: SinkInfo)
        ensures
            info@ == sink_info_of(sink@),
    {
        SinkInfo {
            name: u32_to_string(sink.id),
            description: sink.name,
            volume: sink.volume,
            muted: sink.muted,
            max_volume: sink.max_volume,
            enabled: sink.is_default,
        }
    }

    /// The JSON object a sink is written as.
    pub fn to_json(&self) -> (v: serde_json::Value)
        ensures
            json_of(v) == sink_json(self@),
    {
        let mut v = empty_object();
        set_member(&mut v, "name", string(self.name.as_str()));
        set_member(&mut v, "description", string(self.description.as_str()));
        set_member(&mut v, "volume", integer(self.volume as i64));
        set_member(&mut v, "muted", boolean(self.muted));
        set_member(&mut v, "maxVolume", integer(self.max_volume as i64));
        set_member(&mut v, "enabled", boolean(self.enabled));
        v
    }
}

impl From<AudioSink> for SinkInfo {
    fn from(sink: AudioSink) -> (info: SinkInfo)
        ensures
            info@ == sink_info_of(sink@),
    {
        SinkInfo::from_sink(sink)
    }
}

impl vstd::std_specs::convert::FromSpecImpl<AudioSink> for SinkInfo {
    open spec fn obeys_from_spec() -> bool {
        false
    }

    open spec fn from_spec(sink: AudioSink) -> SinkInfo {
        arbitrary()
    }
}

/// The JSON object a sink is written as.
pub open spec fn sink_json(sink: SinkInfoView) -> Json {
    Json::empty_object().with("name"@, Json::Str(sink.name)).with(
        "description"@,
        Json::Str(sink.description),
    ).with("volume"@, Json::Int(sink.volume as int)).with("muted"@, Json::Bool(sink.muted)).with(
        "maxVolume"@,
        Json::Int(sink.max_volume as int),
    ).with("enabled"@, Json::Bool(sink.enabled))
}

/// The body of a sink list packet: `{"sinkList": [..]}`, sinks in order.
pub open spec fn sink_list_json(sinks: Seq<SinkInfoView>) -> Json {
    Json::empty_object().with(
        "sinkList"@,
        Json::Array(sinks.map_values(|s: SinkInfoView| sink_json(s))),
    )
}

/// The sink a JSON object denotes: `None` unless all six members are there,
/// each of its type, the two volumes within 32 bits. Further members are
/// ignored.
pub open spec fn sink_of_json(document: Json) -> Option<SinkInfoView> {
    match (
        document.member("name"@),
        document.member("description"@),
        document.member("volume"@),
        document.member("muted"@),
        document.member("maxVolume"@),
        document.member("enabled"@),
    ) {
        (
            Some(Json::Str(name)),
            Some(Json::Str(description)),
            Some(Json::Int(volume)),
            Some(Json::Bool(muted)),
            Some(Json::Int(max_volume)),
            Some(Json::Bool(enabled)),
        ) => if i32::MIN <= volume <= i32::MAX && i32::MIN <= max_volume <= i32::MAX {
            Some(
                SinkInfoView {
                    name,
                    description,
                    volume: volume as i32,
                    muted,
                    max_volume: max_volume as i32,
                    enabled,
                },
            )
        } else {
            None
        },
        _ => None,
    }
}

/// The sinks a sequence of documents denotes, if every one denotes a sink.
pub open spec fn sinks_of(items: Seq<Json>) -> Option<Seq<SinkInfoView>> {
    if forall|i: int| 0 <= i < items.len() ==> sink_of_json(#[trigger] items[i]) is Some {
        Some(items.map_values(|item: Json| sink_of_json(item)->0))
    } else {
        None
    }
}

/// The sink list a packet body announces.
pub open spec fn sink_list_of(body: Json) -> Option<Seq<SinkInfoView>> {
    match body.member("sinkList"@) {
        Some(Json::Array(items)) => sinks_of(items),
        _ => None,
    }
}

/// A sink written as a JSON object reads back as the same sink.
pub proof fn lemma_sink_round_trip(sink: SinkInfoView)
    ensures
        sink_of_json(sink_json(sink)) == Some(sink),
{
    reveal_strlit("name");
    reveal_strlit("description");
    reveal_strlit("volume");
    reveal_strlit("muted");
    reveal_strlit("maxVolume");
    reveal_strlit("enabled");
    assert("name"@.len() == 4 && "description"@.len() == 11 && "volume"@.len() == 6);
    assert("muted"@.len() == 5 && "maxVolume"@.len() == 9 && "enabled"@.len() == 7);
}

/// A sink list written as a packet body reads back as the same list, sink by
/// sink and in the same order.
pub proof fn lemma_sink_list_round_trip(sinks: Seq<SinkInfoView>)
    ensures
        sink_list_of(sink_list_json(sinks)) == Some(sinks),
{
    let items = sinks.map_values(|s: SinkInfoView| sink_json(s));
    assert forall|i: int| 0 <= i < items.len() implies sink_of_json(#[trigger] items[i]) == Some(
        sinks[i],
    ) by {
        lemma_sink_round_trip(sinks[i]);
    }
    assert(items.map_values(|item: Json| sink_of_json(item)->0) =~= sinks);
}

fn text_member(v: &serde_json::Value, key: &str) -> (r: Option<String>)
    ensures
        match r {
            Some(s) => json_of(*v).member(key@) == Some(Json::Str(s@)),
            None => !(json_of(*v).member(key@) matches Some(Json::Str(_))),
        },
{
    match member(v, key) {
        Some(found) => match as_str(found) {
            Some(s) => Some(s.to_owned()),
            None => None,
        },
        None => None,
    }
}

fn flag_member(v: &serde_json::Value, key: &str) -> (r: Option<bool>)
    ensures
        match r {
            Some(b) => json_of(*v).member(key@) == Some(Json::Bool(b)),
            None => !(json_of(*v).member(key@) matches Some(Json::Bool(_))),
        },
{
    match member(v, key) {
        Some(found) => as_bool(found),
        None => None,
    }
}

fn level_member(v: &serde_json::Value, key: &str) -> (r: Option<i32>)
    ensures
        match r {
            Some(i) => json_of(*v).member(key@) == Some(Json::Int(i as int)),
            None => !(json_of(*v).member(key@) matches Some(Json::Int(i)) && i32::MIN <= i
                <= i32::MAX),
        },
{
    match member(v, key) {
        Some(found) => match as_i64(found) {
            Some(i) => if -2147483648 <= i && i <= 2147483647 {
                Some(i as i32)
            } else {
                None
            },
            None => None,
        },
        None => None,
    }
}

impl SinkInfo {
    /// Reads a sink out of the JSON object it was written as.
    pub fn from_json(v: &serde_json::Value) -> (r: Option<SinkInfo>)
        ensures
            match r {
                Some(sink) => sink_of_json(json_of(*v)) == Some(sink@),
                None => sink_of_json(json_of(*v)) is None,
            },
    {
        let name = text_member(v, "name");
        let description = text_member(v, "description");
        let volume = level_member(v, "volume");
        let muted = flag_member(v, "muted");
        let max_volume = level_member(v, "maxVolume");
        let enabled = flag_member(v, "enabled");
        match (name, description, volume, muted, max_volume, enabled) {
            (
                Some(name),
                Some(description),
                Some(volume),
                Some(muted),
                Some(max_volume),
                Some(enabled),
            ) => Some(SinkInfo { name, description, volume, muted, max_volume, enabled }),
            _ => None,
        }
    }
}

/// Sink list response body (outgoing).
#[derive(Debug, Clone, PartialEq, Eq)]
pub struct SinkListResponse {
    /// The sinks, in the order the audio server listed them.
    pub sink_list: Vec<SinkInfo>,
}

pub open spec fn sink_info_views(list: Seq<SinkInfo>) -> Seq<SinkInfoView> {
    list.map_values(|s: SinkInfo| s@)
}

pub open spec fn sink_views(list: Seq<AudioSink>) -> Seq<AudioSinkView> {
    list.map_values(|s: AudioSink| s@)
}

impl SinkListResponse {
    /// The response that presents the given sinks, in order.
    pub fn from_sinks(sinks: Vec<AudioSink>) -> (r: SinkListResponse)
        ensures
            sink_info_views(r.sink_list@) == sink_views(sinks@).map_values(
                |s: AudioSinkView| sink_info_of(s),
            ),
    {
        let mut list: Vec<SinkInfo> = Vec::new();
        let mut i: usize = 0;
        while i < sinks.len()
            invariant
                i <= sinks.len(),
                list.len() == i,
                forall|k: int| 0 <= k < i ==> list[k]@ == sink_info_of(sinks[k]@),
            decreases sinks.len() - i,
        {
            list.push(SinkInfo::from_sink(sinks[i].clone_sink()));
            i += 1;
        }
        assert(sink_info_views(list@) =~= sink_views(sinks@).map_values(
            |s: AudioSinkView| sink_info_of(s),
        ));
        SinkListResponse { sink_list: list }
    }

    /// Reads a response out of the body of a sink list packet.
    pub fn from_body(body: &serde_json::Value) -> (r: Result<SinkListResponse, ProtocolError>)
        ensures
            match sink_list_of(json_of(*body)) {
                Some(sinks) => r matches Ok(response) && sink_info_views(response.sink_list@)
                    == sinks,
                None => r matches Err(e) && e is MalformedPacket && e.message()
                    == NOT_A_SINK_LIST@,
            },
    {
        let items = match member(body, "sinkList") {
            Some(found) => as_array(found),
            None => None,
        };
        let items = match items {
            Some(items) => items,
            None => {
                return Err(ProtocolError::MalformedPacket(NOT_A_SINK_LIST.to_owned()));
            },
        };
        let ghost documents = json_seq(items@);
        let mut list: Vec<SinkInfo> = Vec::new();
        let mut i: usize = 0;
        while i < items.len()
            invariant
                i <= items.len(),
                list.len() == i,
                documents == json_seq(items@),
                sink_list_of(json_of(*body)) == sinks_of(documents),
                forall|k: int| 0 <= k < i ==> sink_of_json(#[trigger] documents[k]) == Some(list[k]@),
            decreases items.len() - i,
        {
            assert(documents[i as int] == json_of(items[i as int]));
            match SinkInfo::from_json(&items[i]) {
                Some(sink) => {
                    list.push(sink);
                },
                None => {
                    return Err(ProtocolError::MalformedPacket(NOT_A_SINK_LIST.to_owned()));
                },
            }
            i += 1;
        }
        assert(documents.map_values(|item: Json| sink_of_json(item)->0) =~= sink_info_views(list@));
        Ok(SinkListResponse { sink_list: list })
    }

    /// The JSON body of the response.
    pub fn to_json(&self) -> (v: serde_json::Value)
        ensures
            json_of(v) == sink_list_json(sink_info_views(self.sink_list@)),
    {
        let mut items: Vec<serde_json::Value> = Vec::new();
        let mut i: usize = 0;
        while i < self.sink_list.len()
            invariant
                i <= self.sink_list.len(),
                items.len() == i,
                forall|k: int| 0 <= k < i ==> json_of(items[k]) == sink_json(self.sink_list[k]@),
            decreases self.sink_list.len() - i,
        {
            items.push(self.sink_list[i].to_json());
            i += 1;
        }
        assert(json_seq(items@) =~= sink_info_views(self.sink_list@).map_values(
            |s: SinkInfoView| sink_json(s),
        ));
        let mut v = empty_object();
        set_member(&mut v, "sinkList", array(items));
        v
    }
}

impl AudioSink {
    /// A second sink with the same fields.
    pub fn clone_sink(&self) -> (r: AudioSink)
        ensures
            r@ == self@,
    {
        AudioSink {
            id: self.id,
            name: self.name.clone(),
            volume: self.volume,
            muted: self.muted,
            is_default: self.is_default,
            max_volume: self.max_volume,
        }
    }
}

/// Which sink a change is aimed at.
#[derive(Debug, Clone, PartialEq, Eq)]
pub enum SinkTarget {
    /// The sink with this id.
    Id(u32),
    /// The sink with this name; the caller asks the audio server for its id.
    Named(String),
    /// The default sink; the caller asks the audio server which it is.
    Default,
}

/// What a [`SinkTarget`] means.
pub enum SinkTargetView {
    Id(u32),
    Named(Seq<char>),
    Default,
}

impl View for SinkTarget {
    type V = SinkTargetView;

    open spec fn view(&self) -> SinkTargetView {
        match *self {
            SinkTarget::Id(id) => SinkTargetView::Id(id),
            SinkTarget::Named(name) => SinkTargetView::Named(name@),
            SinkTarget::Default => SinkTargetView::Default,
        }
    }
}

/// What the caller is to do for a volume request.
#[derive(Debug, Clone, PartialEq, Eq)]
pub enum VolumePlan {
    /// Read the sinks and send the list.
    SendSinkList,
    /// Find the target; if there is none, stop. Otherwise set its volume and
    /// its mute state where given, in that order, then read the sinks and
    /// send the list.
    Change { target: SinkTarget, volume: Option<i32>, muted: Option<bool> },
}

/// What a [`VolumePlan`] means.
pub enum VolumePlanView {
    SendSinkList,
    Change { target: SinkTargetView, volume: Option<i32>, muted: Option<bool> },
}

impl View for VolumePlan {
    type V = VolumePlanView;

    open spec fn view(&self) -> VolumePlanView {
        match *self {
            VolumePlan::SendSinkList => VolumePlanView::SendSinkList,
            VolumePlan::Change { target, volume, muted } => VolumePlanView::Change {
                target: target@,
                volume,
                muted,
            },
        }
    }
}

/// One call to the audio server.
#[derive(Debug, Clone, Copy, PartialEq, Eq)]
pub enum SinkCall {
    SetVolume { sink: u32, volume: i32 },
    SetMute { sink: u32, muted: bool },
}

/// What remains to be done once the audio server has been asked for the
/// plan's target.
#[derive(Debug, Clone, PartialEq, Eq)]
pub struct Steps {
    /// The calls to make, in order. A call that fails does not stop the next.
    pub calls: Vec<SinkCall>,
    /// Whether to read the sinks and send their list when the calls are made.
    pub send_list: bool,
}

/// What [`Steps`] mean.
pub struct StepsView {
    pub calls: Seq<SinkCall>,
    pub send_list: bool,
}

impl View for Steps {
    type V = StepsView;

    open spec fn view(&self) -> StepsView {
        StepsView { calls: self.calls@, send_list: self.send_list }
    }
}

/// The sink a change is made on: the one the target gives by id, or else the
/// one the audio server found for the target's name or as its default.
pub open spec fn sink_of(target: SinkTargetView, found: Option<u32>) -> Option<u32> {
    match target {
        SinkTargetView::Id(id) => Some(id),
        _ => found,
    }
}

/// The calls a change makes on a sink: the volume if one is given, then the
/// mute state if one is given.
pub open spec fn calls_of(sink: u32, volume: Option<i32>, muted: Option<bool>) -> Seq<SinkCall> {
    let first = match volume {
        Some(volume) => seq![SinkCall::SetVolume { sink, volume }],
        None => Seq::empty(),
    };
    let second = match muted {
        Some(muted) => seq![SinkCall::SetMute { sink, muted }],
        None => Seq::empty(),
    };
    first + second
}

/// What a plan comes to, given what the audio server found for its target.
///
/// A request for the list makes no call and sends the list. A change whose
/// sink is not found does nothing at all: no call, no list. A change whose
/// sink is found makes its calls and then sends the list.
pub open spec fn steps_of(plan: VolumePlanView, found: Option<u32>) -> StepsView {
    match plan {
        VolumePlanView::SendSinkList => StepsView { calls: Seq::empty(), send_list: true },
        VolumePlanView::Change { target, volume, muted } => match sink_of(target, found) {
            Some(sink) => StepsView { calls: calls_of(sink, volume, muted), send_list: true },
            None => StepsView { calls: Seq::empty(), send_list: false },
        },
    }
}

/// Turns a plan into steps. `found` is the audio server's answer where the
/// plan's target is a name or the default sink; it is not looked at where
/// the target is an id or the plan is to send the list.
pub fn steps(plan: &VolumePlan, found: Option<u32>) -> (r: Steps)
    ensures
        r@ == steps_of(plan@, found),
{
    let mut calls: Vec<SinkCall> = Vec::new();
    let (target, volume, muted) = match plan {
        VolumePlan::SendSinkList => {
            return Steps { calls, send_list: true };
        },
        VolumePlan::Change { target, volume, muted } => (target, *volume, *muted),
    };
    let sink = match target {
        SinkTarget::Id(id) => Some(*id),
        _ => found,
    };
    let sink = match sink {
        Some(sink) => sink,
        None => {
            return Steps { calls, send_list: false };
        },
    };
    if let Some(volume) = volume {
        calls.push(SinkCall::SetVolume { sink, volume });
    }
    if let Some(muted) = muted {
        calls.push(SinkCall::SetMute { sink, muted });
    }
    assert(calls@ =~= calls_of(sink, volume, muted));
    Steps { calls, send_list: true }
}

/// The sink a request names: by id if the name reads as a number, else as
/// remembered, else by name; the default sink if the request names none.
pub open spec fn target_of(cache: Map<Seq<char>, u32>, name: Option<Seq<char>>) -> SinkTargetView {
    match name {
        None => SinkTargetView::Default,
        Some(name) => match parsed_u32(name) {
            Some(id) => SinkTargetView::Id(id),
            None => if cache.contains_key(name) {
                SinkTargetView::Id(cache[name])
            } else {
                SinkTargetView::Named(name)
            },
        },
    }
}

/// What a request asks the caller to do.
pub open spec fn plan_of(cache: Map<Seq<char>, u32>, request: VolumeRequestView) -> VolumePlanView {
    if request.request_sinks {
        VolumePlanView::SendSinkList
    } else {
        VolumePlanView::Change {
            target: target_of(cache, request.name),
            volume: request.volume,
            muted: request.muted,
        }
    }
}

/// The cache after a sink list was sent: every sink's id under the numeral
/// of that id, entered in the order of the list.
pub open spec fn cache_of(sinks: Seq<AudioSinkView>) -> Map<Seq<char>, u32>
    decreases sinks.len(),
{
    if sinks.len() == 0 {
        Map::empty()
    } else {
        cache_of(sinks.drop_last()).insert(decimal(sinks.last().id as nat), sinks.last().id)
    }
}

/// The packet that announces the given sinks at time `now`.
pub open spec fn sink_list_packet(sinks: Seq<AudioSinkView>, now: i64) -> PacketView {
    PacketView {
        id: now,
        packet_type: PACKET_TYPE_SYSTEMVOLUME@,
        body: sink_list_json(sinks.map_values(|s: AudioSinkView| sink_info_of(s))),
    }
}

/// System Volume plugin.
pub struct SystemVolumePlugin {
    device_id: Option<String>,
    /// Known sinks, by the name they were announced under.
    sink_cache: StringHashMap<u32>,
}

impl SystemVolumePlugin {
    /// The id of the device the plugin serves, once initialised.
    pub closed spec fn device(&self) -> Option<Seq<char>> {
        match self.device_id {
            Some(id) => Some(id@),
            None => None,
        }
    }

    /// The remembered sinks: the id announced under each name.
    pub closed spec fn cache(&self) -> Map<Seq<char>, u32> {
        self.sink_cache@
    }

    /// A plugin attached to no device, remembering no sinks.
    pub fn new() -> (plugin: SystemVolumePlugin)
        ensures
            plugin.device() is None,
            plugin.cache() == Map::<Seq<char>, u32>::empty(),
    {
        SystemVolumePlugin { device_id: None, sink_cache: StringHashMap::new() }
    }

    pub fn device_id(&self) -> (r: Option<String>)
        ensures
            match r {
                Some(id) => self.device() == Some(id@),
                None => self.device() is None,
            },
    {
        match &self.device_id {
            Some(id) => Some(id.clone()),
            None => None,
        }
    }

    pub fn name(&self) -> (r: &'static str)
        ensures
            r@ == "systemvolume"@,
    {
        "systemvolume"
    }

    /// The packet types the plugin consumes: the request type under both prefixes.
    pub fn incoming_capabilities(&self) -> (r: Vec<String>)
        ensures
            r@.len() == 2,
            r@[0]@ == PACKET_TYPE_SYSTEMVOLUME_REQUEST@,
            r@[1]@ == LEGACY_PACKET_TYPE_SYSTEMVOLUME_REQUEST@,
    {
        let mut list = Vec::new();
        list.push(PACKET_TYPE_SYSTEMVOLUME_REQUEST.to_owned());
        list.push(LEGACY_PACKET_TYPE_SYSTEMVOLUME_REQUEST.to_owned());
        list
    }

    /// The packet types the plugin produces: the sink list type under both prefixes.
    pub fn outgoing_capabilities(&self) -> (r: Vec<String>)
        ensures
            r@.len() == 2,
            r@[0]@ == PACKET_TYPE_SYSTEMVOLUME@,
            r@[1]@ == LEGACY_PACKET_TYPE_SYSTEMVOLUME@,
    {
        let mut list = Vec::new();
        list.push(PACKET_TYPE_SYSTEMVOLUME.to_owned());
        list.push(LEGACY_PACKET_TYPE_SYSTEMVOLUME.to_owned());
        list
    }

    /// Attaches the plugin to a device.
    pub fn init(&mut self, device: &Device) -> (r: Result<(), ProtocolError>)
        ensures
            r is Ok,
            final(self).device() == Some(device.info.device_id@),
            final(self).cache() == old(self).cache(),
    {
        self.device_id = Some(device.id().to_owned());
        Ok(())
    }

    /// Starts the plugin; says whether to send the initial sink list, which
    /// is when the audio server can be reached.
    pub fn start(&mut self, backend_available: bool) -> (r: Result<bool, ProtocolError>)
        ensures
            r == Ok::<bool, ProtocolError>(backend_available),
            final(self).device() == old(self).device(),
            final(self).cache() == old(self).cache(),
    {
        Ok(backend_available)
    }

    pub fn stop(&mut self) -> (r: Result<(), ProtocolError>)
        ensures
            r is Ok,
            final(self).device() == old(self).device(),
            final(self).cache() == old(self).cache(),
    {
        Ok(())
    }

    fn cached(&self, name: &str) -> (r: Option<u32>)
        ensures
            r == if self.cache().contains_key(name@) {
                Some(self.cache()[name@])
            } else {
                None
            },
    {
        match self.sink_cache.get(name) {
            Some(id) => Some(*id),
            None => None,
        }
    }

    /// Which sink a request's name stands for.
    pub fn target(&self, name: &Option<String>) -> (r: SinkTarget)
        ensures
            r@ == target_of(
                self.cache(),
                match *name {
                    Some(n) => Some(n@),
                    None => None,
                },
            ),
    {
        match name {
            None => SinkTarget::Default,
            Some(name) => match parse_u32(name.as_str()) {
                Some(id) => SinkTarget::Id(id),
                None => match self.cached(name.as_str()) {
                    Some(id) => SinkTarget::Id(id),
                    None => SinkTarget::Named(name.clone()),
                },
            },
        }
    }

    /// Remembers the given sinks and builds the packet that announces them.
    ///
    /// The packet comes back with the id of the device to send it to; there
    /// is nothing to send for a plugin not attached to a device, though the
    /// sinks are remembered all the same.
    pub fn send_sink_list(&mut self, sinks: Vec<AudioSink>, now: i64) -> (r: Option<
        (String, Packet),
    >)
        ensures
            final(self).device() == old(self).device(),
            final(self).cache() == cache_of(sink_views(sinks@)),
            match old(self).device() {
                Some(id) => r matches Some((to, packet)) && to@ == id && packet@
                    == sink_list_packet(sink_views(sinks@), now),
                None => r is None,
            },
    {
        let ghost listed = sink_views(sinks@);
        let mut cache: StringHashMap<u32> = StringHashMap::new();
        let mut i: usize = 0;
        while i < sinks.len()
            invariant
                i <= sinks.len(),
                listed == sink_views(sinks@),
                cache@ == cache_of(listed.take(i as int)),
            decreases sinks.len() - i,
        {
            proof {
                let next = listed.take(i + 1);
                assert(next.drop_last() =~= listed.take(i as int));
                assert(next.last() == sinks[i as int]@);
            }
            cache.insert(u32_to_string(sinks[i].id), sinks[i].id);
            i += 1;
        }
        assert(listed.take(i as int) =~= listed);
        self.sink_cache = cache;
        let ghost announced = sink_views(sinks@);
        let response = SinkListResponse::from_sinks(sinks);
        let body = response.to_json();
        match &self.device_id {
            Some(id) => Some((id.clone(), Packet::new(now, PACKET_TYPE_SYSTEMVOLUME, body))),
            None => None,
        }
    }

    /// Handles a volume request: parses its body and plans what to do.
    pub fn handle_volume_request(&self, packet: &Packet) -> (r: Result<VolumePlan, ProtocolError>)
        ensures
            match volume_request_of(packet@.body) {
                Some(request) => r matches Ok(plan) && plan@ == plan_of(self.cache(), request),
                None => r matches Err(e) && parse_failure(e, PARSE_FAILURE@, packet@.body),
            },
    {
        let request = SystemVolumeRequest::from_body(&packet.body)?;
        if request.request_sinks {
            return Ok(VolumePlan::SendSinkList);
        }
        let target = self.target(&request.name);
        Ok(VolumePlan::Change { target, volume: request.volume, muted: request.muted })
    }

    /// Handles any packet routed to the plugin. A packet of another type
    /// than the request types asks for nothing.
    pub fn handle_packet(&mut self, packet: &Packet, device: &mut Device) -> (r: Result<
        Option<VolumePlan>,
        ProtocolError,
    >)
        ensures
            final(self).device() == old(self).device(),
            final(self).cache() == old(self).cache(),
            *final(device) == *old(device),
            if is_request_type(packet@.packet_type) {
                match volume_request_of(packet@.body) {
                    Some(request) => r matches Ok(Some(plan)) && plan@ == plan_of(
                        old(self).cache(),
                        request,
                    ),
                    None => r matches Err(e) && parse_failure(e, PARSE_FAILURE@, packet@.body),
                }
            } else {
                r matches Ok(None)
            },
    {
        if packet.is_type(PACKET_TYPE_SYSTEMVOLUME_REQUEST) || packet.is_type(
            LEGACY_PACKET_TYPE_SYSTEMVOLUME_REQUEST,
        ) {
            let plan = self.handle_volume_request(packet)?;
            Ok(Some(plan))
        } else {
            Ok(None)
        }
    }
}

/// A cache filled by sending a sink list never answers for a name that does
/// not read as a number: every name it holds is a numeral.
pub proof fn lemma_cache_holds_numerals(sinks: Seq<AudioSinkView>, name: Seq<char>)
    requires
        parsed_u32(name) is None,
    ensures
        !cache_of(sinks).contains_key(name),
    decreases sinks.len(),
{
    if sinks.len() > 0 {
        crate::text::lemma_parse_decimal(sinks.last().id);
        lemma_cache_holds_numerals(sinks.drop_last(), name);
    }
}

/// A sink announced to the peer is found again by the name it was announced
/// under: that name reads back as the sink's id.
pub proof fn lemma_announced_name_finds_sink(cache: Map<Seq<char>, u32>, sink: AudioSinkView)
    ensures
        target_of(cache, Some(sink_info_of(sink).name)) == SinkTargetView::Id(sink.id),
{
    crate::text::lemma_parse_decimal(sink.id);
}

/// Factory for System Volume plugin instances, one per paired device.
#[derive(Debug, Clone, Copy)]
pub struct SystemVolumePluginFactory;

impl SystemVolumePluginFactory {
    pub fn name(&self) -> (r: &'static str)
        ensures
            r@ == "systemvolume"@,
    {
        "systemvolume"
    }

    pub fn incoming_capabilities(&self) -> (r: Vec<String>)
        ensures
            r@.len() == 2,
            r@[0]@ == PACKET_TYPE_SYSTEMVOLUME_REQUEST@,
            r@[1]@ == LEGACY_PACKET_TYPE_SYSTEMVOLUME_REQUEST@,
    {
        let mut list = Vec::new();
        list.push(PACKET_TYPE_SYSTEMVOLUME_REQUEST.to_owned());
        list.push(LEGACY_PACKET_TYPE_SYSTEMVOLUME_REQUEST.to_owned());
        list
    }

    pub fn outgoing_capabilities(&self) -> (r: Vec<String>)
        ensures
            r@.len() == 2,
            r@[0]@ == PACKET_TYPE_SYSTEMVOLUME@,
            r@[1]@ == LEGACY_PACKET_TYPE_SYSTEMVOLUME@,
    {
        let mut list = Vec::new();
        list.push(PACKET_TYPE_SYSTEMVOLUME.to_owned());
        list.push(LEGACY_PACKET_TYPE_SYSTEMVOLUME.to_owned());
        list
    }

    /// A fresh plugin, attached to no device.
    pub fn create(&self) -> (plugin: SystemVolumePlugin)
        ensures
            plugin.device() is None,
            plugin.cache() == Map::<Seq<char>, u32>::empty(),
    {
        SystemVolumePlugin::new()
    }
}

} // verus!
