//! The wire message and its codec.
//!
//! A packet is a type tag, a timestamp and an open JSON body. On the wire it
//! is one JSON object, `{"id": .., "type": .., "body": ..}`, written compactly
//! and closed by a single line feed, so a stream of packets can be cut into
//! frames without parsing.

use vstd::prelude::*;
use crate::error::ProtocolError;
use crate::json::{
    as_i64, as_str, empty_object, from_text, integer, json_of, json_parse, json_text,
    member, set_member, string, to_text, Json,
};
use crate::text::str_eq;

verus! {

/// The byte that closes a frame.
pub const FRAME_END: u8 = 10;

/// What is said of a frame whose text is not JSON.
pub const NOT_JSON: &'static str = "frame is not JSON";

/// What is said of a JSON document that is not a packet.
pub const NOT_A_PACKET: &'static str = "packet lacks an id, a type or a body";

/// What is said of a text that cannot be framed.
pub const LINE_FEED_INSIDE: &'static str = "line feed inside a packet";

/// One protocol message.
#[derive(Debug, Clone, PartialEq, Eq)]
pub struct Packet {
    /// Creation time in milliseconds, which doubles as the packet's identifier.
    pub id: i64,
    /// What kind of message this is; compared exactly, case included.
    pub packet_type: String,
    /// The payload, whose shape depends on the type.
    pub body: serde_json::Value,
}

/// What a [`Packet`] means.
pub struct PacketView {
    pub id: i64,
    pub packet_type: Seq<char>,
    pub body: Json,
}

impl View for Packet {
    type V = PacketView;

    open spec fn view(&self) -> PacketView {
        PacketView { id: self.id, packet_type: self.packet_type@, body: json_of(self.body) }
    }
}

/// The JSON object a packet is written as.
pub open spec fn envelope(p: PacketView) -> Json {
    Json::empty_object().with("id"@, Json::Int(p.id as int)).with(
        "type"@,
        Json::Str(p.packet_type),
    ).with("body"@, p.body)
}

/// The packet a JSON document denotes: an object with an integer `id` that
/// fits in 64 bits, a string `type` and a `body`. Further members are ignored.
pub open spec fn packet_of(document: Json) -> Option<PacketView> {
    match (document.member("id"@), document.member("type"@), document.member("body"@)) {
        (Some(id), Some(packet_type), Some(body)) => match (id.as_i64(), packet_type.as_str()) {
            (Some(id), Some(packet_type)) => Some(PacketView { id, packet_type, body }),
            _ => None,
        },
        _ => None,
    }
}

/// The packet that the text of one frame denotes, if it denotes one.
pub open spec fn packet_of_text(text: Seq<u8>) -> Option<PacketView> {
    match json_parse(text) {
        Some(document) => packet_of(document),
        None => None,
    }
}

/// `n` is where the first frame of `stream` ends: the first line feed.
pub open spec fn is_frame_end(stream: Seq<u8>, n: int) -> bool {
    &&& 0 <= n < stream.len()
    &&& stream[n] == FRAME_END
    &&& forall|i: int| 0 <= i < n ==> stream[i] != FRAME_END
}

/// The outcome of cutting one frame off the front of a stream.
#[derive(Debug)]
pub struct Frame {
    /// The packet in the frame, or why the frame is not one.
    pub packet: Result<Packet, ProtocolError>,
    /// How many bytes of the stream the frame took, its line feed included.
    pub consumed: usize,
}

impl Packet {
    /// A packet of the given type, stamped with `id`.
    pub fn new(id: i64, packet_type: &str, body: serde_json::Value) -> (p: Packet)
        ensures
            p@ == (PacketView { id, packet_type: packet_type@, body: json_of(body) }),
    {
        Packet { id, packet_type: packet_type.to_owned(), body }
    }

    /// Whether the packet's type is exactly `packet_type`.
    pub fn is_type(&self, packet_type: &str) -> (r: bool)
        ensures
            r == (self@.packet_type == packet_type@),
    {
        str_eq(self.packet_type.as_str(), packet_type)
    }

    /// A second packet with the same id, type and body.
    pub fn duplicate(&self) -> (p: Packet)
        ensures
            p@ == self@,
    {
        Packet {
            id: self.id,
            packet_type: self.packet_type.clone(),
            body: self.body.clone(),
        }
    }

    /// The JSON object this packet is written as.
    pub fn to_json(&self) -> (v: serde_json::Value)
        ensures
            json_of(v) == envelope(self@),
    {
        let mut v = empty_object();
        set_member(&mut v, "id", integer(self.id));
        set_member(&mut v, "type", string(self.packet_type.as_str()));
        set_member(&mut v, "body", self.body.clone());
        v
    }

    /// Reads a packet out of a parsed JSON document.
    ///
    /// Succeeds exactly on the documents [`packet_of`] accepts; every other
    /// document is a malformed packet.
    pub fn from_json(v: &serde_json::Value) -> (r: Result<Packet, ProtocolError>)
        ensures
            match packet_of(json_of(*v)) {
                Some(p) => r matches Ok(packet) && packet@ == p,
                None => r matches Err(e) && e is MalformedPacket && e.message() == NOT_A_PACKET@,
            },
    {
        let id = match member(v, "id") {
            Some(found) => as_i64(found),
            None => None,
        };
        let packet_type = match member(v, "type") {
            Some(found) => as_str(found),
            None => None,
        };
        let body = member(v, "body");
        match (id, packet_type, body) {
            (Some(id), Some(packet_type), Some(body)) => Ok(
                Packet { id, packet_type: packet_type.to_owned(), body: body.clone() },
            ),
            _ => Err(ProtocolError::MalformedPacket(NOT_A_PACKET.to_owned())),
        }
    }

    /// Closes a serialized packet with the frame delimiter.
    ///
    /// A text that already holds a line feed cannot be framed: the reader
    /// would cut it in two.
    pub fn frame(text: Vec<u8>) -> (r: Result<Vec<u8>, ProtocolError>)
        ensures
            match r {
                Ok(bytes) => !text@.contains(FRAME_END) && bytes@ == text@.push(FRAME_END),
                Err(e) => text@.contains(FRAME_END) && e is MalformedPacket && e.message()
                    == LINE_FEED_INSIDE@,
            },
    {
        let mut i: usize = 0;
        while i < text.len()
            invariant
                i <= text.len(),
                forall|k: int| 0 <= k < i ==> text@[k] != FRAME_END,
            decreases text.len() - i,
        {
            if text[i] == FRAME_END {
                return Err(ProtocolError::MalformedPacket(LINE_FEED_INSIDE.to_owned()));
            }
            i += 1;
        }
        let mut bytes = text;
        bytes.push(FRAME_END);
        Ok(bytes)
    }

    /// The frame that carries this packet: its JSON text and a line feed.
    ///
    /// Every packet has a frame: the serializer writes no line feed of its
    /// own, so the text can always be closed with one.
    pub fn encode(&self) -> (r: Result<Vec<u8>, ProtocolError>)
        ensures
            r matches Ok(bytes) && bytes@ == json_text(envelope(self@)).push(FRAME_END),
            !json_text(envelope(self@)).contains(FRAME_END),
    {
        let document = self.to_json();
        match to_text(&document) {
            Ok(text) => Self::frame(text),
            Err(_) => Err(ProtocolError::MalformedPacket("packet cannot be serialized".to_owned())),
        }
    }

    /// The packet that the parser's answer for one frame stands for.
    pub fn from_parsed(parsed: Result<serde_json::Value, serde_json::Error>) -> (r: Result<
        Packet,
        ProtocolError,
    >)
        ensures
            match parsed {
                Ok(v) => match packet_of(json_of(v)) {
                    Some(p) => r matches Ok(packet) && packet@ == p,
                    None => r matches Err(e) && e is MalformedPacket && e.message()
                        == NOT_A_PACKET@,
                },
                Err(_) => r matches Err(e) && e is MalformedPacket && e.message() == NOT_JSON@,
            },
    {
        match parsed {
            Ok(v) => Self::from_json(&v),
            Err(_) => Err(ProtocolError::MalformedPacket(NOT_JSON.to_owned())),
        }
    }

    /// Cuts the next frame off the front of `stream` and reads its packet.
    ///
    /// `None` means the stream holds no complete frame yet and more bytes are
    /// needed. Otherwise the frame runs up to the first line feed; a frame
    /// whose text does not denote a packet is reported as malformed, still
    /// with its length, so the reader can step over it. The message says
    /// whether the text was no JSON at all or a document that is no packet.
    pub fn decode(stream: &[u8]) -> (r: Option<Frame>)
        ensures
            match r {
                None => !stream@.contains(FRAME_END),
                Some(frame) => {
                    let n = frame.consumed - 1;
                    &&& is_frame_end(stream@, n)
                    &&& match packet_of_text(stream@.subrange(0, n)) {
                        Some(p) => frame.packet matches Ok(packet) && packet@ == p,
                        None => frame.packet matches Err(e) && e is MalformedPacket && e.message()
                            == if json_parse(stream@.subrange(0, n)) is None {
                            NOT_JSON@
                        } else {
                            NOT_A_PACKET@
                        },
                    }
                },
            },
    {
        let mut i: usize = 0;
        while i < stream.len()
            invariant
                i <= stream.len(),
                forall|k: int| 0 <= k < i ==> stream@[k] != FRAME_END,
            decreases stream.len() - i,
        {
            if stream[i] == FRAME_END {
                let text = vstd::slice::slice_subrange(stream, 0, i);
                let packet = Self::from_parsed(from_text(text));
                return Some(Frame { packet, consumed: i + 1 });
            }
            i += 1;
        }
        None
    }
}

/// Writing a packet as a JSON object and reading that object back gives the
/// same packet: same id, same type, same body.
pub proof fn lemma_envelope_round_trip(p: PacketView)
    ensures
        packet_of(envelope(p)) == Some(p),
{
    reveal_strlit("id");
    reveal_strlit("type");
    reveal_strlit("body");
    assert("id"@.len() == 2 && "type"@.len() == 4 && "body"@.len() == 4);
    assert("type"@[0] != "body"@[0]);
}

/// A framed text followed by anything else is cut exactly where the frame
/// ends, and what is cut off is the text that was framed.
pub proof fn lemma_frame_round_trip(text: Seq<u8>, rest: Seq<u8>)
    requires
        !text.contains(FRAME_END),
    ensures
        is_frame_end(text.push(FRAME_END) + rest, text.len() as int),
        (text.push(FRAME_END) + rest).subrange(0, text.len() as int) == text,
{
    let stream = text.push(FRAME_END) + rest;
    assert forall|i: int| 0 <= i < text.len() implies stream[i] != FRAME_END by {
        assert(stream[i] == text[i]);
        assert(text.contains(text[i]));
    }
    assert(stream.subrange(0, text.len() as int) =~= text);
}

/// Decoding an encoded packet gives the packet back, whatever follows it in
/// the stream, whenever the serializer's text for the packet reads back as
/// the document that was written.
pub proof fn lemma_decode_encode(p: PacketView, rest: Seq<u8>)
    requires
        !json_text(envelope(p)).contains(FRAME_END),
        json_parse(json_text(envelope(p))) == Some(envelope(p)),
    ensures
        ({
            let text = json_text(envelope(p));
            let stream = text.push(FRAME_END) + rest;
            &&& is_frame_end(stream, text.len() as int)
            &&& packet_of_text(stream.subrange(0, text.len() as int)) == Some(p)
        }),
{
    lemma_frame_round_trip(json_text(envelope(p)), rest);
    lemma_envelope_round_trip(p);
}

} // verus!
