//! The per-device connection and pairing state machine.
//!
//! A link starts `Disconnected`, becomes `Connecting` when a transport is
//! opened, `Connected` once certificates have been exchanged, `Pairing` while
//! a pair request is outstanding in either direction, and `Paired` when the
//! request was accepted and the peer's certificate is on record. Reconnecting
//! devices whose certificate matches their record skip straight to `Paired`;
//! those whose certificate does not match are refused.
//!
//! The machine is a pure function, [`transition`], from the current session
//! and an event to the next session and what to do about it. [`Link::apply`]
//! is its executable form. Timers and sockets are the caller's: the caller
//! feeds `Tick`s and incoming pairing packets in, and sends what the returned
//! [`Reaction`] asks for.

use vstd::prelude::*;
use crate::error::ProtocolError;
use crate::json::{as_bool, boolean, empty_object, integer, json_of, member, set_member, Json};
use crate::packet::{Packet, PacketView};
use crate::text::{lex_less, lemma_lex_total, precedes};
use crate::trust::TrustStore;

verus! {

/// How long a pair request may go unanswered, in milliseconds.
pub const PAIRING_TIMEOUT: u64 = 30_000;

/// Where a device's connection stands.
#[derive(Debug, Clone, Copy, PartialEq, Eq, Structural)]
pub enum ConnectionState {
    Disconnected,
    Connecting,
    /// Connected, certificates exchanged, not trusted.
    Connected,
    /// A pair request is outstanding.
    Pairing,
    /// Connected and trusted.
    Paired,
}

/// Which side asked to pair.
#[derive(Debug, Clone, Copy, PartialEq, Eq, Structural)]
pub enum PairingRole {
    /// This side sent the request.
    Requester,
    /// The peer sent the request.
    Responder,
}

/// The three pairing packets.
#[derive(Debug, Clone, Copy, PartialEq, Eq, Structural)]
pub enum PairKind {
    Request,
    Accept,
    Reject,
}

/// What the user interface should be told after a transition.
#[derive(Debug, Clone, Copy, PartialEq, Eq, Structural)]
pub enum Notice {
    Nothing,
    /// The peer asks to pair; the user must accept or reject.
    PairingRequested,
    /// The device is now paired.
    Paired,
    /// The device is no longer paired.
    Unpaired,
}

/// What to do after a transition.
#[derive(Debug, Clone, Copy, PartialEq, Eq)]
pub struct Reaction {
    /// The pairing packet to send to the peer, if any.
    pub send: Option<PairKind>,
    pub notice: Notice,
}

/// Something that happened to a link.
#[derive(Debug, Clone, PartialEq, Eq)]
pub enum LinkEvent {
    /// A connection attempt was started, or an inbound connection accepted.
    ConnectStarted,
    /// The transport handshake finished; the peer presented this certificate.
    HandshakeCompleted { fingerprint: String },
    /// The local user asks to pair, at time `now`.
    PairingRequested { now: u64 },
    /// The local user accepts the peer's request.
    PairingAccepted,
    /// The local user rejects the peer's request, or withdraws their own.
    PairingRejected,
    /// The local user unpairs the device.
    Unpaired,
    /// A pair request arrived from the peer.
    PeerRequested,
    /// A pair accept arrived from the peer.
    PeerAccepted,
    /// A pair reject arrived from the peer.
    PeerRejected,
    /// Time has advanced to `now`.
    Tick { now: u64 },
    /// The transport failed or was closed.
    Closed,
}

/// What a [`LinkEvent`] means.
pub enum LinkEventView {
    ConnectStarted,
    HandshakeCompleted { fingerprint: Seq<char> },
    PairingRequested { now: u64 },
    PairingAccepted,
    PairingRejected,
    Unpaired,
    PeerRequested,
    PeerAccepted,
    PeerRejected,
    Tick { now: u64 },
    Closed,
}

impl View for LinkEvent {
    type V = LinkEventView;

    open spec fn view(&self) -> LinkEventView {
        match *self {
            LinkEvent::ConnectStarted => LinkEventView::ConnectStarted,
            LinkEvent::HandshakeCompleted { fingerprint } => LinkEventView::HandshakeCompleted {
                fingerprint: fingerprint@,
            },
            LinkEvent::PairingRequested { now } => LinkEventView::PairingRequested { now },
            LinkEvent::PairingAccepted => LinkEventView::PairingAccepted,
            LinkEvent::PairingRejected => LinkEventView::PairingRejected,
            LinkEvent::Unpaired => LinkEventView::Unpaired,
            LinkEvent::PeerRequested => LinkEventView::PeerRequested,
            LinkEvent::PeerAccepted => LinkEventView::PeerAccepted,
            LinkEvent::PeerRejected => LinkEventView::PeerRejected,
            LinkEvent::Tick { now } => LinkEventView::Tick { now },
            LinkEvent::Closed => LinkEventView::Closed,
        }
    }
}

/// The connection and pairing state of one device.
#[derive(Debug)]
pub struct Link {
    state: ConnectionState,
    role: PairingRole,
    certificate: Option<String>,
    deadline: Option<u64>,
}

/// What a [`Link`] means.
pub struct LinkView {
    pub state: ConnectionState,
    /// Who asked, in the current or the last pairing.
    pub role: PairingRole,
    /// The certificate the peer presented on the live connection.
    pub certificate: Option<Seq<char>>,
    /// When this side's outstanding request expires.
    pub deadline: Option<u64>,
}

impl View for Link {
    type V = LinkView;

    closed spec fn view(&self) -> LinkView {
        LinkView {
            state: self.state,
            role: self.role,
            certificate: match self.certificate {
                Some(fingerprint) => Some(fingerprint@),
                None => None,
            },
            deadline: self.deadline,
        }
    }
}

/// A link together with the trust store it is judged against.
pub struct Session {
    pub link: LinkView,
    pub trust: Map<Seq<char>, Seq<char>>,
}

/// The result of one step of the machine.
pub struct Transition {
    pub next: Session,
    pub result: Result<Reaction, ProtocolError>,
}

/// When a request made at `now` expires.
pub open spec fn deadline_after(now: u64) -> u64 {
    if now + PAIRING_TIMEOUT > u64::MAX {
        u64::MAX
    } else {
        (now + PAIRING_TIMEOUT) as u64
    }
}

pub open spec fn quiet() -> Result<Reaction, ProtocolError> {
    Ok(Reaction { send: None, notice: Notice::Nothing })
}

/// The event does not apply in this state: nothing changes.
pub open spec fn refused(s: Session) -> Transition {
    Transition { next: s, result: Err(ProtocolError::NotApplicable) }
}

/// The session with the peer's certificate put on record and the link paired.
pub open spec fn paired(
    s: Session,
    peer: Seq<char>,
    fingerprint: Seq<char>,
    role: PairingRole,
) -> Session {
    Session {
        link: LinkView {
            state: ConnectionState::Paired,
            role,
            certificate: Some(fingerprint),
            deadline: None,
        },
        trust: s.trust.insert(peer, fingerprint),
    }
}

/// The session with the link back in the unpaired, connected state.
pub open spec fn unpaired(s: Session, trust: Map<Seq<char>, Seq<char>>) -> Session {
    Session {
        link: LinkView { state: ConnectionState::Connected, deadline: None, ..s.link },
        trust,
    }
}

/// One step of the machine for the device `peer`, seen from the device `local`.
pub open spec fn transition(
    s: Session,
    local: Seq<char>,
    peer: Seq<char>,
    event: LinkEventView,
) -> Transition {
    let link = s.link;
    match event {
        LinkEventView::ConnectStarted => if link.state is Disconnected {
            Transition {
                next: Session {
                    link: LinkView { state: ConnectionState::Connecting, ..link },
                    ..s
                },
                result: quiet(),
            }
        } else {
            refused(s)
        },
        LinkEventView::HandshakeCompleted { fingerprint } => if !(link.state is Connecting) {
            refused(s)
        } else if !s.trust.contains_key(peer) {
            Transition {
                next: Session {
                    link: LinkView {
                        state: ConnectionState::Connected,
                        certificate: Some(fingerprint),
                        deadline: None,
                        ..link
                    },
                    ..s
                },
                result: quiet(),
            }
        } else if s.trust[peer] == fingerprint {
            Transition {
                next: Session {
                    link: LinkView {
                        state: ConnectionState::Paired,
                        certificate: Some(fingerprint),
                        deadline: None,
                        ..link
                    },
                    ..s
                },
                result: Ok(Reaction { send: None, notice: Notice::Paired }),
            }
        } else {
            Transition {
                next: Session {
                    link: LinkView {
                        state: ConnectionState::Disconnected,
                        certificate: None,
                        deadline: None,
                        ..link
                    },
                    ..s
                },
                result: Err(ProtocolError::UntrustedCertificate),
            }
        },
        LinkEventView::PairingRequested { now } => if link.state is Connected {
            Transition {
                next: Session {
                    link: LinkView {
                        state: ConnectionState::Pairing,
                        role: PairingRole::Requester,
                        deadline: Some(deadline_after(now)),
                        ..link
                    },
                    ..s
                },
                result: Ok(Reaction { send: Some(PairKind::Request), notice: Notice::Nothing }),
            }
        } else {
            refused(s)
        },
        LinkEventView::PairingAccepted => match link.certificate {
            Some(fingerprint) if link.state is Pairing && link.role is Responder => Transition {
                next: paired(s, peer, fingerprint, PairingRole::Responder),
                result: Ok(Reaction { send: Some(PairKind::Accept), notice: Notice::Paired }),
            },
            _ => refused(s),
        },
        LinkEventView::PairingRejected => if link.state is Pairing {
            Transition {
                next: unpaired(s, s.trust.remove(peer)),
                result: Ok(Reaction { send: Some(PairKind::Reject), notice: Notice::Nothing }),
            }
        } else {
            refused(s)
        },
        LinkEventView::Unpaired => if link.state is Pairing || link.state is Paired {
            Transition {
                next: unpaired(s, s.trust.remove(peer)),
                result: Ok(Reaction { send: Some(PairKind::Reject), notice: Notice::Unpaired }),
            }
        } else {
            Transition {
                next: Session { trust: s.trust.remove(peer), ..s },
                result: Ok(Reaction { send: None, notice: Notice::Unpaired }),
            }
        },
        LinkEventView::PeerRequested => match link.certificate {
            Some(fingerprint) if link.state is Connected => Transition {
                next: Session {
                    link: LinkView {
                        state: ConnectionState::Pairing,
                        role: PairingRole::Responder,
                        deadline: None,
                        ..link
                    },
                    ..s
                },
                result: Ok(Reaction { send: None, notice: Notice::PairingRequested }),
            },
            Some(fingerprint) if link.state is Pairing && link.role is Requester => if lex_less(
                local,
                peer,
            ) {
                // This side keeps the requester's role and waits for the accept.
                Transition { next: s, result: quiet() }
            } else {
                // The peer keeps it: its request stands in for the accept.
                Transition {
                    next: paired(s, peer, fingerprint, PairingRole::Responder),
                    result: Ok(Reaction { send: Some(PairKind::Accept), notice: Notice::Paired }),
                }
            },
            _ => refused(s),
        },
        LinkEventView::PeerAccepted => match link.certificate {
            Some(fingerprint) if link.state is Pairing && link.role is Requester => Transition {
                next: paired(s, peer, fingerprint, PairingRole::Requester),
                result: Ok(Reaction { send: None, notice: Notice::Paired }),
            },
            _ => refused(s),
        },
        LinkEventView::PeerRejected => if link.state is Pairing && link.role is Requester {
            Transition {
                next: unpaired(s, s.trust.remove(peer)),
                result: Err(ProtocolError::PairingRejected),
            }
        } else if link.state is Pairing {
            Transition { next: unpaired(s, s.trust.remove(peer)), result: quiet() }
        } else if link.state is Paired {
            Transition {
                next: unpaired(s, s.trust.remove(peer)),
                result: Ok(Reaction { send: None, notice: Notice::Unpaired }),
            }
        } else {
            refused(s)
        },
        LinkEventView::Tick { now } => match link.deadline {
            Some(deadline) if link.state is Pairing && link.role is Requester && now
                >= deadline => Transition {
                next: unpaired(s, s.trust),
                result: Err(ProtocolError::PairingTimedOut),
            },
            _ => Transition { next: s, result: quiet() },
        },
        LinkEventView::Closed => Transition {
            next: Session {
                link: LinkView {
                    state: ConnectionState::Disconnected,
                    certificate: None,
                    deadline: None,
                    ..link
                },
                ..s
            },
            result: quiet(),
        },
    }
}

/// A paired link's certificate is the one on record for the device.
pub open spec fn trusted_if_paired(s: Session, peer: Seq<char>) -> bool {
    s.link.state is Paired ==> s.trust.contains_key(peer) && s.link.certificate == Some(
        s.trust[peer],
    )
}

/// A link that has finished its handshake knows the peer's certificate, and a
/// link without a connection knows none.
pub open spec fn certificate_if_connected(link: LinkView) -> bool {
    (link.state is Connected || link.state is Pairing || link.state is Paired)
        == link.certificate is Some
}

impl Link {
    /// What a fresh link means: no connection, no certificate, no request.
    pub open spec fn new_view() -> LinkView {
        LinkView {
            state: ConnectionState::Disconnected,
            role: PairingRole::Responder,
            certificate: None,
            deadline: None,
        }
    }

    /// A link without a connection.
    pub fn new() -> (link: Link)
        ensures
            link@ == Link::new_view(),
    {
        Link {
            state: ConnectionState::Disconnected,
            role: PairingRole::Responder,
            certificate: None,
            deadline: None,
        }
    }

    pub fn state(&self) -> (r: ConnectionState)
        ensures
            r == self@.state,
    {
        self.state
    }

    pub fn role(&self) -> (r: PairingRole)
        ensures
            r == self@.role,
    {
        self.role
    }

    /// Whether the device is connected and trusted.
    pub fn is_paired(&self) -> (r: bool)
        ensures
            r == (self@.state is Paired),
    {
        match self.state {
            ConnectionState::Paired => true,
            _ => false,
        }
    }

    /// The certificate the peer presented on the live connection.
    pub fn certificate(&self) -> (r: Option<String>)
        ensures
            match r {
                Some(fingerprint) => self@.certificate == Some(fingerprint@),
                None => self@.certificate is None,
            },
    {
        match &self.certificate {
            Some(fingerprint) => Some(fingerprint.clone()),
            None => None,
        }
    }

    /// When this side's outstanding pair request expires.
    pub fn deadline(&self) -> (r: Option<u64>)
        ensures
            r == self@.deadline,
    {
        self.deadline
    }

    fn refuse() -> (r: Result<Reaction, ProtocolError>)
        ensures
            r == Err::<Reaction, ProtocolError>(ProtocolError::NotApplicable),
    {
        Err(ProtocolError::NotApplicable)
    }

    fn react(send: Option<PairKind>, notice: Notice) -> (r: Result<Reaction, ProtocolError>)
        ensures
            r == Ok::<Reaction, ProtocolError>(Reaction { send, notice }),
    {
        Ok(Reaction { send, notice })
    }

    /// Records the presented certificate and marks the link paired.
    fn pair(&mut self, store: &mut TrustStore, peer_id: &str, role: PairingRole)
        requires
            old(self)@.certificate is Some,
        ensures
            (Session { link: final(self)@, trust: final(store)@ }) == paired(
                Session { link: old(self)@, trust: old(store)@ },
                peer_id@,
                old(self)@.certificate->0,
                role,
            ),
    {
        match &self.certificate {
            Some(fingerprint) => {
                store.record(peer_id, fingerprint.as_str());
            },
            None => {},
        }
        self.state = ConnectionState::Paired;
        self.role = role;
        self.deadline = None;
    }

    /// Returns the link to the unpaired, connected state and drops the record.
    fn unpair(&mut self, store: &mut TrustStore, peer_id: &str)
        ensures
            (Session { link: final(self)@, trust: final(store)@ }) == unpaired(
                Session { link: old(self)@, trust: old(store)@ },
                old(store)@.remove(peer_id@),
            ),
    {
        store.forget(peer_id);
        self.state = ConnectionState::Connected;
        self.deadline = None;
    }

    /// Advances the link by one event.
    ///
    /// `peer_id` is the device this link belongs to and `local_id` the device
    /// this code runs on. The link and the store are changed, and the result
    /// is returned, exactly as [`transition`] says.
    pub fn apply(
        &mut self,
        store: &mut TrustStore,
        local_id: &str,
        peer_id: &str,
        event: LinkEvent,
    ) -> (r: Result<Reaction, ProtocolError>)
        ensures
            (Transition { next: Session { link: final(self)@, trust: final(store)@ }, result: r })
                == transition(
                Session { link: old(self)@, trust: old(store)@ },
                local_id@,
                peer_id@,
                event@,
            ),
    {
        match event {
            LinkEvent::ConnectStarted => match self.state {
                ConnectionState::Disconnected => {
                    self.state = ConnectionState::Connecting;
                    Self::react(None, Notice::Nothing)
                },
                _ => Self::refuse(),
            },
            LinkEvent::HandshakeCompleted { fingerprint } => match self.state {
                ConnectionState::Connecting => {
                    if !store.contains(peer_id) {
                        self.state = ConnectionState::Connected;
                        self.certificate = Some(fingerprint);
                        self.deadline = None;
                        Self::react(None, Notice::Nothing)
                    } else if store.is_trusted(peer_id, fingerprint.as_str()) {
                        self.state = ConnectionState::Paired;
                        self.certificate = Some(fingerprint);
                        self.deadline = None;
                        Self::react(None, Notice::Paired)
                    } else {
                        self.state = ConnectionState::Disconnected;
                        self.certificate = None;
                        self.deadline = None;
                        Err(ProtocolError::UntrustedCertificate)
                    }
                },
                _ => Self::refuse(),
            },
            LinkEvent::PairingRequested { now } => match self.state {
                ConnectionState::Connected => {
                    let deadline = if now > u64::MAX - PAIRING_TIMEOUT {
                        u64::MAX
                    } else {
                        now + PAIRING_TIMEOUT
                    };
                    self.state = ConnectionState::Pairing;
                    self.role = PairingRole::Requester;
                    self.deadline = Some(deadline);
                    Self::react(Some(PairKind::Request), Notice::Nothing)
                },
                _ => Self::refuse(),
            },
            LinkEvent::PairingAccepted => match (self.state, self.role, &self.certificate) {
                (ConnectionState::Pairing, PairingRole::Responder, Some(_)) => {
                    self.pair(store, peer_id, PairingRole::Responder);
                    Self::react(Some(PairKind::Accept), Notice::Paired)
                },
                _ => Self::refuse(),
            },
            LinkEvent::PairingRejected => match self.state {
                ConnectionState::Pairing => {
                    self.unpair(store, peer_id);
                    Self::react(Some(PairKind::Reject), Notice::Nothing)
                },
                _ => Self::refuse(),
            },
            LinkEvent::Unpaired => match self.state {
                ConnectionState::Pairing | ConnectionState::Paired => {
                    self.unpair(store, peer_id);
                    Self::react(Some(PairKind::Reject), Notice::Unpaired)
                },
                _ => {
                    store.forget(peer_id);
                    Self::react(None, Notice::Unpaired)
                },
            },
            LinkEvent::PeerRequested => match (self.state, self.role, &self.certificate) {
                (ConnectionState::Connected, _, Some(_)) => {
                    self.state = ConnectionState::Pairing;
                    self.role = PairingRole::Responder;
                    self.deadline = None;
                    Self::react(None, Notice::PairingRequested)
                },
                (ConnectionState::Pairing, PairingRole::Requester, Some(_)) => {
                    if precedes(local_id, peer_id) {
                        Self::react(None, Notice::Nothing)
                    } else {
                        self.pair(store, peer_id, PairingRole::Responder);
                        Self::react(Some(PairKind::Accept), Notice::Paired)
                    }
                },
                _ => Self::refuse(),
            },
            LinkEvent::PeerAccepted => match (self.state, self.role, &self.certificate) {
                (ConnectionState::Pairing, PairingRole::Requester, Some(_)) => {
                    self.pair(store, peer_id, PairingRole::Requester);
                    Self::react(None, Notice::Paired)
                },
                _ => Self::refuse(),
            },
            LinkEvent::PeerRejected => match (self.state, self.role) {
                (ConnectionState::Pairing, PairingRole::Requester) => {
                    self.unpair(store, peer_id);
                    Err(ProtocolError::PairingRejected)
                },
                (ConnectionState::Pairing, PairingRole::Responder) => {
                    self.unpair(store, peer_id);
                    Self::react(None, Notice::Nothing)
                },
                (ConnectionState::Paired, _) => {
                    self.unpair(store, peer_id);
                    Self::react(None, Notice::Unpaired)
                },
                _ => Self::refuse(),
            },
            LinkEvent::Tick { now } => match (self.state, self.role, self.deadline) {
                (ConnectionState::Pairing, PairingRole::Requester, Some(deadline)) => {
                    if now >= deadline {
                        self.state = ConnectionState::Connected;
                        self.deadline = None;
                        Err(ProtocolError::PairingTimedOut)
                    } else {
                        Self::react(None, Notice::Nothing)
                    }
                },
                _ => Self::react(None, Notice::Nothing),
            },
            LinkEvent::Closed => {
                self.state = ConnectionState::Disconnected;
                self.certificate = None;
                self.deadline = None;
                Self::react(None, Notice::Nothing)
            },
        }
    }
}

/// Whatever happens to a link, a paired link stays one whose certificate is
/// the one on record, and a link that knows its peer's certificate exactly
/// while connected stays so.
pub proof fn lemma_trust_preserved(
    s: Session,
    local: Seq<char>,
    peer: Seq<char>,
    event: LinkEventView,
)
    requires
        trusted_if_paired(s, peer),
        certificate_if_connected(s.link),
    ensures
        trusted_if_paired(transition(s, local, peer, event).next, peer),
        certificate_if_connected(transition(s, local, peer, event).next.link),
{
}

/// A link becomes paired only with the certificate that is then on record
/// for the device: either it was on record already and the peer presented it
/// again, or this very step of the pairing flow recorded it.
pub proof fn lemma_paired_only_when_trusted(
    s: Session,
    local: Seq<char>,
    peer: Seq<char>,
    event: LinkEventView,
)
    requires
        !(s.link.state is Paired),
        transition(s, local, peer, event).next.link.state is Paired,
    ensures
        ({
            let next = transition(s, local, peer, event).next;
            &&& next.link.certificate is Some
            &&& next.trust.contains_key(peer)
            &&& next.trust[peer] == next.link.certificate->0
            &&& {
                ||| event is HandshakeCompleted && s.trust.contains_key(peer) && s.trust[peer]
                    == event->fingerprint
                ||| (event is PairingAccepted || event is PeerAccepted || event is PeerRequested)
                    && next.trust == s.trust.insert(peer, s.link.certificate->0)
            }
        }),
{
}

/// Rejecting succeeds exactly while a pair request is outstanding, and after
/// it the device is connected, unpaired and has no record in the trust store.
pub proof fn lemma_reject_leaves_no_trust(s: Session, local: Seq<char>, peer: Seq<char>)
    ensures
        ({
            let t = transition(s, local, peer, LinkEventView::PairingRejected);
            &&& t.result is Ok <==> s.link.state is Pairing
            &&& t.result is Ok ==> t.next.link.state is Connected && !t.next.trust.contains_key(
                peer,
            )
            &&& t.result is Err ==> t.next == s
        }),
{
}

/// A pair request made at `asked` and still unanswered at `now`, a full
/// timeout later or more, fails as timed out and leaves the device connected
/// and unpaired, with the trust store untouched.
pub proof fn lemma_unanswered_request_times_out(
    s: Session,
    local: Seq<char>,
    peer: Seq<char>,
    asked: u64,
    now: u64,
)
    requires
        s.link.state is Connected,
        now >= asked + PAIRING_TIMEOUT,
    ensures
        ({
            let requested = transition(s, local, peer, LinkEventView::PairingRequested { now: asked });
            let expired = transition(requested.next, local, peer, LinkEventView::Tick { now });
            &&& requested.next.link.state is Pairing
            &&& expired.result == Err::<Reaction, ProtocolError>(ProtocolError::PairingTimedOut)
            &&& expired.next.link.state is Connected
            &&& expired.next.trust == s.trust
        }),
{
}

/// Before the deadline a tick changes nothing.
pub proof fn lemma_tick_before_deadline(
    s: Session,
    local: Seq<char>,
    peer: Seq<char>,
    now: u64,
)
    requires
        s.link.deadline matches Some(deadline) ==> now < deadline,
    ensures
        transition(s, local, peer, LinkEventView::Tick { now }).next == s,
        transition(s, local, peer, LinkEventView::Tick { now }).result == quiet(),
{
}

/// What happens when `a` and `b`, the sessions two devices hold for each
/// other, ask each other to pair at the same time and `a` belongs to the
/// device with the smaller id.
///
/// Each sends its request and receives the other's. The side with the
/// smaller id keeps waiting; the side with the larger id takes the request
/// for an acceptance of its own and answers with an accept; the side with the
/// smaller id receives that. Both are then paired, the smaller as requester
/// and the larger as responder, each with the other's certificate on record.
pub open spec fn converges(
    a: Session,
    b: Session,
    id_a: Seq<char>,
    id_b: Seq<char>,
    now_a: u64,
    now_b: u64,
) -> bool {
    let a1 = transition(a, id_a, id_b, LinkEventView::PairingRequested { now: now_a });
    let b1 = transition(b, id_b, id_a, LinkEventView::PairingRequested { now: now_b });
    let a2 = transition(a1.next, id_a, id_b, LinkEventView::PeerRequested);
    let b2 = transition(b1.next, id_b, id_a, LinkEventView::PeerRequested);
    let a3 = transition(a2.next, id_a, id_b, LinkEventView::PeerAccepted);
    &&& a1.result matches Ok(r) && r.send == Some(PairKind::Request)
    &&& b1.result matches Ok(r) && r.send == Some(PairKind::Request)
    &&& a2.result == quiet() && a2.next == a1.next
    &&& b2.result matches Ok(r) && r.send == Some(PairKind::Accept)
    &&& b2.next.link.state is Paired && b2.next.link.role is Responder
    &&& a3.result matches Ok(r) && r.send is None
    &&& a3.next.link.state is Paired && a3.next.link.role is Requester
    &&& trusted_if_paired(a3.next, id_b)
    &&& trusted_if_paired(b2.next, id_a)
}

/// Two devices that ask each other to pair at the same time both end up
/// paired, and exactly one of them, the one with the smaller id, keeps the
/// requester's role.
pub proof fn lemma_simultaneous_requests_converge(
    a: Session,
    b: Session,
    id_a: Seq<char>,
    id_b: Seq<char>,
    now_a: u64,
    now_b: u64,
)
    requires
        id_a != id_b,
        a.link.state is Connected,
        b.link.state is Connected,
        certificate_if_connected(a.link),
        certificate_if_connected(b.link),
    ensures
        lex_less(id_a, id_b) != lex_less(id_b, id_a),
        if lex_less(id_a, id_b) {
            converges(a, b, id_a, id_b, now_a, now_b)
        } else {
            converges(b, a, id_b, id_a, now_b, now_a)
        },
{
    lemma_lex_total(id_a, id_b);
}

/// A step changes the trust store, if at all, only for the device it is
/// about: what is on record for any other device stays as it was.
pub proof fn lemma_trust_changes_only_at_peer(
    s: Session,
    local: Seq<char>,
    peer: Seq<char>,
    event: LinkEventView,
    other: Seq<char>,
)
    requires
        other != peer,
    ensures
        ({
            let next = transition(s, local, peer, event).next;
            &&& next.trust.contains_key(other) == s.trust.contains_key(other)
            &&& s.trust.contains_key(other) ==> next.trust[other] == s.trust[other]
        }),
{
}

/// What is said of a pairing packet without a boolean `pair` member.
pub const NO_PAIR_FLAG: &'static str = "pairing packet lacks its pair flag";

/// Packet type of pairing packets.
pub const PACKET_TYPE_PAIR: &'static str = "kdeconnect.pair";

/// The pairing packet type under the newer prefix.
pub const ALIAS_PACKET_TYPE_PAIR: &'static str = "cconnect.pair";

/// Whether a packet type is the pairing type, under either prefix.
pub open spec fn is_pair_type(packet_type: Seq<char>) -> bool {
    packet_type == PACKET_TYPE_PAIR@ || packet_type == ALIAS_PACKET_TYPE_PAIR@
}

/// The body of a pairing packet: a request says `pair: true` and when it was
/// made, an accept says `pair: true` alone, a reject says `pair: false`.
pub open spec fn pair_body(kind: PairKind, now: i64) -> Json {
    match kind {
        PairKind::Request => Json::empty_object().with("pair"@, Json::Bool(true)).with(
            "timestamp"@,
            Json::Int(now as int),
        ),
        PairKind::Accept => Json::empty_object().with("pair"@, Json::Bool(true)),
        PairKind::Reject => Json::empty_object().with("pair"@, Json::Bool(false)),
    }
}

/// The pairing packet a body denotes, if it denotes one.
pub open spec fn pair_kind_of(body: Json) -> Option<PairKind> {
    match body.member("pair"@) {
        Some(Json::Bool(true)) => if body.member("timestamp"@) is Some {
            Some(PairKind::Request)
        } else {
            Some(PairKind::Accept)
        },
        Some(Json::Bool(false)) => Some(PairKind::Reject),
        _ => None,
    }
}

/// A pairing packet reads back as the kind it was written as.
pub proof fn lemma_pair_body_round_trip(kind: PairKind, now: i64)
    ensures
        pair_kind_of(pair_body(kind, now)) == Some(kind),
{
    reveal_strlit("pair");
    reveal_strlit("timestamp");
    assert("pair"@.len() == 4 && "timestamp"@.len() == 9);
}

impl PairKind {
    /// The packet that says this to the peer, made at time `now`.
    pub fn to_packet(self, now: i64) -> (packet: Packet)
        ensures
            packet@ == (PacketView {
                id: now,
                packet_type: PACKET_TYPE_PAIR@,
                body: pair_body(self, now),
            }),
    {
        let mut body = empty_object();
        match self {
            PairKind::Request => {
                set_member(&mut body, "pair", boolean(true));
                set_member(&mut body, "timestamp", integer(now));
            },
            PairKind::Accept => {
                set_member(&mut body, "pair", boolean(true));
            },
            PairKind::Reject => {
                set_member(&mut body, "pair", boolean(false));
            },
        }
        Packet::new(now, PACKET_TYPE_PAIR, body)
    }

    /// Reads what a pairing packet says. A body without a boolean `pair`
    /// member is malformed.
    pub fn from_packet(packet: &Packet) -> (r: Result<PairKind, ProtocolError>)
        ensures
            match pair_kind_of(packet@.body) {
                Some(kind) => r == Ok::<PairKind, ProtocolError>(kind),
                None => r matches Err(e) && e is MalformedPacket && e.message() == NO_PAIR_FLAG@,
            },
    {
        let pair = match member(&packet.body, "pair") {
            Some(v) => as_bool(v),
            None => None,
        };
        match pair {
            Some(true) => match member(&packet.body, "timestamp") {
                Some(_) => Ok(PairKind::Request),
                None => Ok(PairKind::Accept),
            },
            Some(false) => Ok(PairKind::Reject),
            None => Err(ProtocolError::MalformedPacket(NO_PAIR_FLAG.to_owned())),
        }
    }

    /// The event a pairing packet from the peer is for the link.
    pub fn as_event(self) -> (event: LinkEvent)
        ensures
            event@ == match self {
                PairKind::Request => LinkEventView::PeerRequested,
                PairKind::Accept => LinkEventView::PeerAccepted,
                PairKind::Reject => LinkEventView::PeerRejected,
            },
    {
        match self {
            PairKind::Request => LinkEvent::PeerRequested,
            PairKind::Accept => LinkEvent::PeerAccepted,
            PairKind::Reject => LinkEvent::PeerRejected,
        }
    }
}

} // verus!
