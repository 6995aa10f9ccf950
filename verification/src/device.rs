//! Devices: what a peer announced about itself, and where its link stands.

use vstd::prelude::*;
use crate::discovery::{is_identity_type, IdentityView, ALIAS_PACKET_TYPE_IDENTITY, PACKET_TYPE_IDENTITY};
use crate::error::ProtocolError;
use crate::packet::{envelope, Packet, FRAME_END};
use crate::json::json_text;
use crate::pairing::{
    certificate_if_connected, is_pair_type, lemma_trust_changes_only_at_peer,
    lemma_trust_preserved, transition, trusted_if_paired, ConnectionState, Link, LinkEvent,
    LinkEventView,
    LinkView, Reaction, Session, Transition, ALIAS_PACKET_TYPE_PAIR, PACKET_TYPE_PAIR,
};
use crate::text::str_eq;
use crate::trust::TrustStore;

verus! {

/// The kind of machine a peer says it is.
#[derive(Debug, Clone, Copy, PartialEq, Eq, Structural)]
pub enum DeviceType {
    Desktop,
    Laptop,
    Phone,
    Tablet,
    Unknown,
}

impl DeviceType {
    /// The type a wire name stands for; any name not listed is `Unknown`.
    pub open spec fn of(name: Seq<char>) -> DeviceType {
        if name == "desktop"@ {
            DeviceType::Desktop
        } else if name == "laptop"@ {
            DeviceType::Laptop
        } else if name == "phone"@ {
            DeviceType::Phone
        } else if name == "tablet"@ {
            DeviceType::Tablet
        } else {
            DeviceType::Unknown
        }
    }

    /// The wire name of a type.
    pub open spec fn name(self) -> Seq<char> {
        match self {
            DeviceType::Desktop => "desktop"@,
            DeviceType::Laptop => "laptop"@,
            DeviceType::Phone => "phone"@,
            DeviceType::Tablet => "tablet"@,
            DeviceType::Unknown => "unknown"@,
        }
    }

    pub fn from_str(s: &str) -> (r: DeviceType)
        ensures
            r == DeviceType::of(s@),
    {
        if str_eq(s, "desktop") {
            DeviceType::Desktop
        } else if str_eq(s, "laptop") {
            DeviceType::Laptop
        } else if str_eq(s, "phone") {
            DeviceType::Phone
        } else if str_eq(s, "tablet") {
            DeviceType::Tablet
        } else {
            DeviceType::Unknown
        }
    }

    pub fn as_str(&self) -> (r: &'static str)
        ensures
            r@ == self.name(),
    {
        match self {
            DeviceType::Desktop => "desktop",
            DeviceType::Laptop => "laptop",
            DeviceType::Phone => "phone",
            DeviceType::Tablet => "tablet",
            DeviceType::Unknown => "unknown",
        }
    }
}

/// Reading a type's wire name gives the type back.
pub proof fn lemma_device_type_round_trip(t: DeviceType)
    ensures
        DeviceType::of(t.name()) == t,
{
    reveal_strlit("desktop");
    reveal_strlit("laptop");
    reveal_strlit("phone");
    reveal_strlit("tablet");
    reveal_strlit("unknown");
    assert("desktop"@.len() == 7 && "laptop"@.len() == 6 && "phone"@.len() == 5);
    assert("tablet"@.len() == 6 && "unknown"@.len() == 7);
    assert("laptop"@[0] != "tablet"@[0]);
    assert("desktop"@[0] != "unknown"@[0]);
}

/// What a peer announced about itself.
#[derive(Debug, Clone, PartialEq, Eq)]
pub struct DeviceInfo {
    /// Stable unique id; never changes for a device.
    pub device_id: String,
    /// Name to show to the user.
    pub device_name: String,
    pub device_type: DeviceType,
    pub protocol_version: u32,
    /// Packet types the peer can consume.
    pub incoming_capabilities: Vec<String>,
    /// Packet types the peer can produce.
    pub outgoing_capabilities: Vec<String>,
    /// Where the peer accepts connections.
    pub tcp_port: u16,
}

impl DeviceInfo {
    /// An identity that speaks this crate's protocol version and declares no
    /// capabilities yet.
    pub fn new(device_id: &str, device_name: &str, device_type: DeviceType, tcp_port: u16) -> (info:
        DeviceInfo)
        ensures
            info.device_id@ == device_id@,
            info.device_name@ == device_name@,
            info.device_type == device_type,
            info.protocol_version == crate::PROTOCOL_VERSION,
            info.incoming_capabilities@.len() == 0,
            info.outgoing_capabilities@.len() == 0,
            info.tcp_port == tcp_port,
    {
        DeviceInfo {
            device_id: device_id.to_owned(),
            device_name: device_name.to_owned(),
            device_type,
            protocol_version: crate::PROTOCOL_VERSION,
            incoming_capabilities: Vec::new(),
            outgoing_capabilities: Vec::new(),
            tcp_port,
        }
    }
}

/// A peer known to this host.
#[derive(Debug)]
pub struct Device {
    pub info: DeviceInfo,
    pub link: Link,
    /// Whether the device has been heard from within the liveness window.
    pub reachable: bool,
    /// When the device last announced itself, in milliseconds.
    pub last_seen: u64,
}

impl Device {
    /// A device just learned of: disconnected, unpaired, reachable.
    pub fn from_discovery(info: DeviceInfo) -> (device: Device)
        ensures
            device.info == info,
            device.link@ == Link::new_view(),
            device.reachable,
            device.last_seen == 0,
    {
        Device { info, link: Link::new(), reachable: true, last_seen: 0 }
    }

    pub fn id(&self) -> (r: &str)
        ensures
            r@ == self.info.device_id@,
    {
        self.info.device_id.as_str()
    }

    pub fn name(&self) -> (r: &str)
        ensures
            r@ == self.info.device_name@,
    {
        self.info.device_name.as_str()
    }

    pub fn state(&self) -> (r: ConnectionState)
        ensures
            r == self.link@.state,
    {
        self.link.state()
    }

    pub fn is_paired(&self) -> (r: bool)
        ensures
            r == (self.link@.state is Paired),
    {
        self.link.is_paired()
    }
}

/// Where an inbound packet goes.
#[derive(Debug, Clone, Copy, PartialEq, Eq, Structural)]
pub enum Route {
    /// An identity packet: to the device manager.
    Identity,
    /// A pairing packet: to the pairing state machine.
    Pairing,
    /// Anything else from a paired device: to the device's plugins.
    Plugins,
    /// Anything else from a device that is not paired: dropped.
    Refused,
}

/// Where a packet of the given type goes, coming from a device in the given
/// state. Only identity and pairing packets pass while the device is not
/// paired.
pub open spec fn route_of(state: ConnectionState, packet_type: Seq<char>) -> Route {
    if is_identity_type(packet_type) {
        Route::Identity
    } else if is_pair_type(packet_type) {
        Route::Pairing
    } else if state is Paired {
        Route::Plugins
    } else {
        Route::Refused
    }
}

/// Decides where an inbound packet goes.
pub fn route(state: ConnectionState, packet_type: &str) -> (r: Route)
    ensures
        r == route_of(state, packet_type@),
{
    if str_eq(packet_type, PACKET_TYPE_IDENTITY) || str_eq(packet_type, ALIAS_PACKET_TYPE_IDENTITY) {
        Route::Identity
    } else if str_eq(packet_type, PACKET_TYPE_PAIR) || str_eq(packet_type, ALIAS_PACKET_TYPE_PAIR) {
        Route::Pairing
    } else {
        match state {
            ConnectionState::Paired => Route::Plugins,
            _ => Route::Refused,
        }
    }
}

/// No packet reaches the plugins unless the device is paired.
pub proof fn lemma_plugins_only_when_paired(state: ConnectionState, packet_type: Seq<char>)
    requires
        route_of(state, packet_type) is Plugins,
    ensures
        state is Paired,
{
}

/// What discovery tells the user interface about an announcement.
#[derive(Debug, Clone, Copy, PartialEq, Eq, Structural)]
pub enum DiscoveryEvent {
    /// A device not seen before.
    DeviceDiscovered,
    /// A known device announced itself again.
    DeviceUpdated,
}

/// What to do about an announcement.
#[derive(Debug, Clone, Copy, PartialEq, Eq)]
pub struct Announcement {
    pub event: DiscoveryEvent,
    /// Whether to connect to the device now: it is trusted and not connected.
    pub reconnect: bool,
}

/// A device as the user interface sees it.
#[derive(Debug, Clone, PartialEq, Eq)]
pub struct DeviceSnapshot {
    pub device_id: String,
    pub device_name: String,
    pub device_type: DeviceType,
    pub state: ConnectionState,
    pub reachable: bool,
}

/// Every known device, and the trust store they are judged against.
///
/// The manager is the only owner of devices: there is one device per id, and
/// everything else refers to a device by its id. Whatever is done through
/// the manager, a paired device is one whose certificate is on record.
#[derive(Debug)]
pub struct DeviceManager {
    local_id: String,
    devices: Vec<Device>,
    trust: TrustStore,
}

/// A device's link is consistent with the trust store.
pub open spec fn link_sound(link: LinkView, trust: Map<Seq<char>, Seq<char>>, id: Seq<char>) -> bool {
    trusted_if_paired(Session { link, trust }, id) && certificate_if_connected(link)
}

/// What one event on a device's link does to a manager.
///
/// For a known device the link and the trust store change, and the result
/// is returned, exactly as [`transition`] says. No other device is touched,
/// and no device's identity, reachability or place in the list changes. For
/// an unknown device nothing changes and the event is refused.
pub open spec fn stepped(
    before: DeviceManager,
    after: DeviceManager,
    device_id: Seq<char>,
    event: LinkEventView,
    r: Result<Reaction, ProtocolError>,
) -> bool {
    &&& after.local() == before.local()
    &&& after.order() == before.order()
    &&& forall|id: Seq<char>| after.knows(id) == before.knows(id)
    &&& forall|id: Seq<char>|
        before.knows(id) ==> after.identity(id) == before.identity(id) && after.reachable(id)
            == before.reachable(id) && after.last_seen(id) == before.last_seen(id)
    &&& forall|id: Seq<char>|
        id != device_id && before.knows(id) ==> after.link(id) == before.link(id)
    &&& if before.knows(device_id) {
        (Transition {
            next: Session { link: after.link(device_id), trust: after.trust() },
            result: r,
        }) == transition(
            Session { link: before.link(device_id), trust: before.trust() },
            before.local(),
            device_id,
            event,
        )
    } else {
        r == Err::<Reaction, ProtocolError>(ProtocolError::UnknownDevice) && after.trust()
            == before.trust()
    }
}

impl DeviceManager {
    #[verifier::type_invariant]
    spec fn sound(self) -> bool {
        &&& forall|i: int, j: int|
            0 <= i < j < self.devices.len() ==> self.devices[i].info.device_id@
                != self.devices[j].info.device_id@
        &&& forall|i: int|
            0 <= i < self.devices.len() ==> link_sound(
                #[trigger] self.devices[i].link@,
                self.trust@,
                self.devices[i].info.device_id@,
            )
    }

    /// The id of the device this manager runs on.
    pub closed spec fn local(&self) -> Seq<char> {
        self.local_id@
    }

    /// Device id to certificate fingerprint, for every trusted device.
    pub closed spec fn trust(&self) -> Map<Seq<char>, Seq<char>> {
        self.trust@
    }

    /// Whether a device with this id is known.
    pub closed spec fn knows(&self, id: Seq<char>) -> bool {
        exists|i: int| 0 <= i < self.devices.len() && self.devices[i].info.device_id@ == id
    }

    spec fn slot(&self, id: Seq<char>) -> int {
        choose|i: int| 0 <= i < self.devices.len() && self.devices[i].info.device_id@ == id
    }

    /// The link of a known device.
    pub closed spec fn link(&self, id: Seq<char>) -> LinkView {
        self.devices[self.slot(id)].link@
    }

    /// What a known device last announced.
    pub closed spec fn identity(&self, id: Seq<char>) -> IdentityView {
        self.devices[self.slot(id)].info@
    }

    /// Whether a known device has been heard from lately.
    pub closed spec fn reachable(&self, id: Seq<char>) -> bool {
        self.devices[self.slot(id)].reachable
    }

    /// When a known device last announced itself.
    pub closed spec fn last_seen(&self, id: Seq<char>) -> u64 {
        self.devices[self.slot(id)].last_seen
    }

    /// The ids of the known devices, in the order they were discovered.
    pub closed spec fn order(&self) -> Seq<Seq<char>> {
        self.devices@.map_values(|d: Device| d.info.device_id@)
    }

    proof fn lemma_slot(self, i: int)
        requires
            self.sound(),
            0 <= i < self.devices.len(),
        ensures
            self.knows(self.devices[i].info.device_id@),
            self.slot(self.devices[i].info.device_id@) == i,
    {
    }

    /// A manager that knows no device yet.
    pub fn new(local_id: &str, trust: TrustStore) -> (manager: DeviceManager)
        ensures
            manager.local() == local_id@,
            manager.trust() == trust@,
            manager.order() == Seq::<Seq<char>>::empty(),
            forall|id: Seq<char>| !manager.knows(id),
    {
        let manager = DeviceManager { local_id: local_id.to_owned(), devices: Vec::new(), trust };
        assert(manager.order() =~= Seq::<Seq<char>>::empty());
        manager
    }

    fn position(&self, device_id: &str) -> (r: Option<usize>)
        ensures
            match r {
                Some(i) => i < self.devices.len() && self.devices[i as int].info.device_id@
                    == device_id@ && self.knows(device_id@) && self.slot(device_id@) == i,
                None => !self.knows(device_id@),
            },
    {
        proof {
            use_type_invariant(self);
        }
        let mut i: usize = 0;
        while i < self.devices.len()
            invariant
                self.sound(),
                i <= self.devices.len(),
                forall|k: int| 0 <= k < i ==> self.devices[k].info.device_id@ != device_id@,
            decreases self.devices.len() - i,
        {
            if str_eq(self.devices[i].info.device_id.as_str(), device_id) {
                proof {
                    self.lemma_slot(i as int);
                }
                return Some(i);
            }
            i += 1;
        }
        None
    }

    /// How many devices are known.
    pub fn len(&self) -> (n: usize)
        ensures
            n == self.order().len(),
    {
        self.devices.len()
    }

    /// The state of a device's link, if the device is known.
    pub fn state_of(&self, device_id: &str) -> (r: Option<ConnectionState>)
        ensures
            match r {
                Some(state) => self.knows(device_id@) && state == self.link(device_id@).state,
                None => !self.knows(device_id@),
            },
    {
        match self.position(device_id) {
            Some(i) => Some(self.devices[i].link.state()),
            None => None,
        }
    }

    /// Whether the device is connected and trusted. For a paired device the
    /// certificate it presented is the one on record for it.
    pub fn is_paired(&self, device_id: &str) -> (r: bool)
        ensures
            r == (self.knows(device_id@) && self.link(device_id@).state is Paired),
            r ==> self.trust().contains_key(device_id@) && self.link(device_id@).certificate
                == Some(self.trust()[device_id@]),
    {
        proof {
            use_type_invariant(self);
        }
        match self.position(device_id) {
            Some(i) => self.devices[i].link.is_paired(),
            None => false,
        }
    }

    /// Whether a certificate is on record for the device.
    pub fn is_trusted(&self, device_id: &str) -> (r: bool)
        ensures
            r == self.trust().contains_key(device_id@),
    {
        self.trust.contains(device_id)
    }

    /// The trust store, for the caller to persist.
    pub fn trust_store(&self) -> (store: &TrustStore)
        ensures
            store@ == self.trust(),
    {
        &self.trust
    }

    /// A snapshot of every known device, in the order they were discovered.
    pub fn snapshot(&self) -> (list: Vec<DeviceSnapshot>)
        ensures
            list.len() == self.order().len(),
            forall|i: int|
                0 <= i < list.len() ==> {
                    let id = self.order()[i];
                    &&& self.knows(id)
                    &&& (#[trigger] list[i]).device_id@ == id
                    &&& list[i].device_name@ == self.identity(id).device_name
                    &&& list[i].device_type == self.identity(id).device_type
                    &&& list[i].state == self.link(id).state
                    &&& list[i].reachable == self.reachable(id)
                },
    {
        proof {
            use_type_invariant(self);
        }
        let mut list: Vec<DeviceSnapshot> = Vec::new();
        let mut i: usize = 0;
        while i < self.devices.len()
            invariant
                self.sound(),
                i <= self.devices.len(),
                list.len() == i,
                forall|k: int|
                    0 <= k < i ==> {
                        let d = self.devices[k];
                        &&& (#[trigger] list[k]).device_id@ == d.info.device_id@
                        &&& list[k].device_name@ == d.info.device_name@
                        &&& list[k].device_type == d.info.device_type
                        &&& list[k].state == d.link@.state
                        &&& list[k].reachable == d.reachable
                    },
            decreases self.devices.len() - i,
        {
            let d = &self.devices[i];
            list.push(
                DeviceSnapshot {
                    device_id: d.info.device_id.clone(),
                    device_name: d.info.device_name.clone(),
                    device_type: d.info.device_type,
                    state: d.link.state(),
                    reachable: d.reachable,
                },
            );
            i += 1;
        }
        proof {
            assert forall|k: int| 0 <= k < list.len() implies {
                let id = self.order()[k];
                &&& self.knows(id)
                &&& (#[trigger] list[k]).device_id@ == id
                &&& list[k].device_name@ == self.identity(id).device_name
                &&& list[k].device_type == self.identity(id).device_type
                &&& list[k].state == self.link(id).state
                &&& list[k].reachable == self.reachable(id)
            } by {
                self.lemma_slot(k);
            }
        }
        list
    }

    /// Takes note of an announcement heard at time `now`.
    ///
    /// A device not seen before is added, disconnected and unpaired. A known
    /// device keeps its id, its type and its link, and takes everything else
    /// from the announcement. Either way the device is reachable again, and
    /// it is to be connected to at once if it is trusted and has no
    /// connection. No other device, and no trust record, is touched.
    pub fn on_discovered(&mut self, info: DeviceInfo, now: u64) -> (r: Announcement)
        ensures
            final(self).local() == old(self).local(),
            final(self).trust() == old(self).trust(),
            final(self).knows(info.device_id@),
            forall|id: Seq<char>|
                id != info.device_id@ ==> final(self).knows(id) == old(self).knows(id),
            forall|id: Seq<char>|
                id != info.device_id@ && old(self).knows(id) ==> {
                    &&& final(self).link(id) == old(self).link(id)
                    &&& final(self).identity(id) == old(self).identity(id)
                    &&& final(self).reachable(id) == old(self).reachable(id)
                    &&& final(self).last_seen(id) == old(self).last_seen(id)
                },
            final(self).reachable(info.device_id@),
            final(self).last_seen(info.device_id@) == now,
            final(self).link(info.device_id@) == if old(self).knows(info.device_id@) {
                old(self).link(info.device_id@)
            } else {
                Link::new_view()
            },
            final(self).identity(info.device_id@) == if old(self).knows(info.device_id@) {
                IdentityView {
                    device_type: old(self).identity(info.device_id@).device_type,
                    ..info@
                }
            } else {
                info@
            },
            final(self).order() == if old(self).knows(info.device_id@) {
                old(self).order()
            } else {
                old(self).order().push(info.device_id@)
            },
            r.event == if old(self).knows(info.device_id@) {
                DiscoveryEvent::DeviceUpdated
            } else {
                DiscoveryEvent::DeviceDiscovered
            },
            r.reconnect == (old(self).trust().contains_key(info.device_id@) && final(self).link(
                info.device_id@,
            ).state is Disconnected),
    {
        proof {
            use_type_invariant(&*self);
        }
        let ghost before = *self;
        let ghost id = info.device_id@;
        let found = self.position(info.device_id.as_str());
        let trusted = self.trust.contains(info.device_id.as_str());
        let mut devices: Vec<Device> = Vec::new();
        core::mem::swap(&mut self.devices, &mut devices);
        let r = match found {
            Some(i) => {
                let device = &mut devices[i];
                let device_type = device.info.device_type;
                device.info = DeviceInfo { device_type, ..info };
                device.reachable = true;
                device.last_seen = now;
                let idle = match devices[i].link.state() {
                    ConnectionState::Disconnected => true,
                    _ => false,
                };
                Announcement { event: DiscoveryEvent::DeviceUpdated, reconnect: trusted && idle }
            },
            None => {
                let mut device = Device::from_discovery(info);
                device.last_seen = now;
                devices.push(device);
                Announcement { event: DiscoveryEvent::DeviceDiscovered, reconnect: trusted }
            },
        };
        proof {
            let n = before.devices.len() as int;
            assert forall|k: int| 0 <= k < n && found != Some(k as usize) implies devices[k]
                == before.devices[k] by {}
            assert forall|k: int| 0 <= k < n implies devices[k].info.device_id@
                == before.devices[k].info.device_id@ && devices[k].link@
                == before.devices[k].link@ by {}
        }
        self.devices = devices;
        proof {
            let after = *self;
            let n = before.devices.len() as int;
            let at = if found is Some {
                found->0 as int
            } else {
                n
            };
            after.lemma_slot(at);
            assert forall|other: Seq<char>| other != id implies after.knows(other) == before.knows(
                other,
            ) by {
                if before.knows(other) {
                    let k = before.slot(other);
                    assert(after.devices[k].info.device_id@ == other);
                }
                if after.knows(other) {
                    let k = after.slot(other);
                    assert(before.devices[k].info.device_id@ == other);
                }
            }
            assert forall|other: Seq<char>| other != id && before.knows(other) implies after.link(
                other,
            ) == before.link(other) && after.identity(other) == before.identity(other)
                && after.reachable(other) == before.reachable(other) && after.last_seen(other)
                == before.last_seen(other) by {
                let k = before.slot(other);
                after.lemma_slot(k);
            }
            if found is Some {
                before.lemma_slot(at);
                assert(after.order() =~= before.order());
            } else {
                assert(after.order() =~= before.order().push(id));
            }
        }
        r
    }

    /// Marks as unreachable every device not heard from for longer than
    /// `window`, and names the devices newly lost. Devices are never removed.
    pub fn expire(&mut self, now: u64, window: u64) -> (lost: Vec<String>)
        ensures
            final(self).local() == old(self).local(),
            final(self).trust() == old(self).trust(),
            final(self).order() == old(self).order(),
            forall|id: Seq<char>| final(self).knows(id) == old(self).knows(id),
            forall|id: Seq<char>|
                old(self).knows(id) ==> {
                    &&& final(self).link(id) == old(self).link(id)
                    &&& final(self).identity(id) == old(self).identity(id)
                    &&& final(self).last_seen(id) == old(self).last_seen(id)
                    &&& final(self).reachable(id) == (old(self).reachable(id) && !stale(
                        old(self).last_seen(id),
                        now,
                        window,
                    ))
                },
            forall|i: int|
                0 <= i < lost.len() ==> old(self).knows(#[trigger] lost[i]@) && old(self).reachable(lost[i]@) && !final(self).reachable(lost[i]@),
            forall|id: Seq<char>|
                old(self).knows(id) && old(self).reachable(id) && !final(self).reachable(id)
                    ==> exists|i: int| 0 <= i < lost.len() && lost[i]@ == id,
    {
        proof {
            use_type_invariant(&*self);
        }
        let ghost before = *self;
        let mut devices: Vec<Device> = Vec::new();
        core::mem::swap(&mut self.devices, &mut devices);
        let mut lost: Vec<String> = Vec::new();
        let ghost mut sources: Seq<int> = Seq::empty();
        let mut i: usize = 0;
        while i < devices.len()
            invariant
                i <= devices.len(),
                devices.len() == before.devices.len(),
                forall|k: int|
                    0 <= k < devices.len() ==> {
                        let d = #[trigger] devices[k];
                        let b = before.devices[k];
                        &&& d.info == b.info
                        &&& d.link@ == b.link@
                        &&& d.last_seen == b.last_seen
                        &&& d.reachable == if k < i {
                            b.reachable && !stale(b.last_seen, now, window)
                        } else {
                            b.reachable
                        }
                    },
                sources.len() == lost.len(),
                forall|k: int|
                    0 <= k < lost.len() ==> {
                        let j = #[trigger] sources[k];
                        &&& 0 <= j < i
                        &&& before.devices[j].info.device_id@ == lost[k]@
                        &&& before.devices[j].reachable
                        &&& stale(before.devices[j].last_seen, now, window)
                    },
                forall|j: int|
                    0 <= j < i && before.devices[j].reachable && stale(
                        before.devices[j].last_seen,
                        now,
                        window,
                    ) ==> exists|k: int|
                        0 <= k < lost.len() && lost[k]@ == before.devices[j].info.device_id@,
            decreases devices.len() - i,
        {
            let was_reachable = devices[i].reachable;
            let last_seen = devices[i].last_seen;
            if was_reachable && now > last_seen && now - last_seen > window {
                let device = &mut devices[i];
                device.reachable = false;
                let ghost sent = lost@;
                lost.push(devices[i].info.device_id.clone());
                proof {
                    assert(lost[lost.len() - 1]@ == before.devices[i as int].info.device_id@);
                    let earlier = sources;
                    sources = sources.push(i as int);
                    assert forall|k: int| 0 <= k < lost.len() implies {
                        let j = #[trigger] sources[k];
                        &&& 0 <= j < i + 1
                        &&& before.devices[j].info.device_id@ == lost[k]@
                        &&& before.devices[j].reachable
                        &&& stale(before.devices[j].last_seen, now, window)
                    } by {
                        if k < sent.len() {
                            assert(lost[k] == sent[k]);
                            assert(sources[k] == earlier[k]);
                        }
                    }
                    assert forall|j: int|
                        0 <= j < i + 1 && before.devices[j].reachable && stale(
                            before.devices[j].last_seen,
                            now,
                            window,
                        ) implies exists|k: int|
                        0 <= k < lost.len() && lost[k]@ == before.devices[j].info.device_id@ by {
                        if j < i {
                            let k = choose|k: int|
                                0 <= k < sent.len() && sent[k]@
                                    == before.devices[j].info.device_id@;
                            assert(lost[k] == sent[k]);
                        } else {
                            assert(lost[lost.len() - 1]@ == before.devices[j].info.device_id@);
                        }
                    }
                }
            }
            i += 1;
        }
        self.devices = devices;
        proof {
            let after = *self;
            assert(after.order() =~= before.order());
            assert forall|id: Seq<char>| after.knows(id) == before.knows(id) by {
                if before.knows(id) {
                    assert(after.devices[before.slot(id)].info.device_id@ == id);
                }
                if after.knows(id) {
                    assert(before.devices[after.slot(id)].info.device_id@ == id);
                }
            }
            assert forall|id: Seq<char>| before.knows(id) implies {
                &&& after.link(id) == before.link(id)
                &&& after.identity(id) == before.identity(id)
                &&& after.last_seen(id) == before.last_seen(id)
                &&& after.reachable(id) == (before.reachable(id) && !stale(
                    before.last_seen(id),
                    now,
                    window,
                ))
            } by {
                after.lemma_slot(before.slot(id));
            }
            assert forall|k: int| 0 <= k < lost.len() implies before.knows(#[trigger] lost[k]@)
                && before.reachable(lost[k]@) && !after.reachable(lost[k]@) by {
                let j = sources[k];
                before.lemma_slot(j);
                after.lemma_slot(j);
            }
            assert forall|id: Seq<char>|
                before.knows(id) && before.reachable(id) && !after.reachable(id) implies exists|
                i: int,
            | 0 <= i < lost.len() && lost[i]@ == id by {
                let j = before.slot(id);
                after.lemma_slot(j);
            }
        }
        lost
    }

    /// Advances the link of a device by one event.
    ///
    /// For a known device the link and the trust store change, and the
    /// result is returned, exactly as [`transition`] says; no other device
    /// is touched. For an unknown device nothing changes.
    pub fn apply(&mut self, device_id: &str, event: LinkEvent) -> (r: Result<
        Reaction,
        ProtocolError,
    >)
        ensures
            stepped(*old(self), *final(self), device_id@, event@, r),
    {
        proof {
            use_type_invariant(&*self);
        }
        let ghost before = *self;
        let found = self.position(device_id);
        let i = match found {
            Some(i) => i,
            None => {
                return Err(ProtocolError::UnknownDevice);
            },
        };
        let mut devices: Vec<Device> = Vec::new();
        core::mem::swap(&mut self.devices, &mut devices);
        let mut trust = TrustStore::new();
        core::mem::swap(&mut self.trust, &mut trust);
        let r = {
            let device = &mut devices[i];
            device.link.apply(&mut trust, self.local_id.as_str(), device_id, event)
        };
        proof {
            let n = before.devices.len() as int;
            let s = Session { link: before.devices[i as int].link@, trust: before.trust@ };
            lemma_trust_preserved(s, before.local_id@, device_id@, event@);
            assert forall|k: int| 0 <= k < n implies link_sound(
                #[trigger] devices[k].link@,
                trust@,
                devices[k].info.device_id@,
            ) by {
                if k != i {
                    assert(devices[k] == before.devices[k]);
                    lemma_trust_changes_only_at_peer(
                        s,
                        before.local_id@,
                        device_id@,
                        event@,
                        devices[k].info.device_id@,
                    );
                    assert(link_sound(
                        before.devices[k].link@,
                        before.trust@,
                        before.devices[k].info.device_id@,
                    ));
                }
            }
        }
        self.trust = trust;
        self.devices = devices;
        proof {
            let after = *self;
            assert(after.order() =~= before.order());
            assert forall|id: Seq<char>| after.knows(id) == before.knows(id) by {
                if before.knows(id) {
                    assert(after.devices[before.slot(id)].info.device_id@ == id);
                }
                if after.knows(id) {
                    assert(before.devices[after.slot(id)].info.device_id@ == id);
                }
            }
            assert forall|id: Seq<char>| before.knows(id) implies after.identity(id)
                == before.identity(id) && after.reachable(id) == before.reachable(id)
                && after.last_seen(id) == before.last_seen(id) && (id != device_id@ ==> after.link(
                id,
            ) == before.link(id)) by {
                after.lemma_slot(before.slot(id));
            }
            after.lemma_slot(i as int);
        }
        r
    }

    /// Asks a device to pair, at time `now`.
    pub fn request_pairing(&mut self, device_id: &str, now: u64) -> (r: Result<
        Reaction,
        ProtocolError,
    >)
        ensures
            stepped(
                *old(self),
                *final(self),
                device_id@,
                LinkEventView::PairingRequested { now },
                r,
            ),
    {
        self.apply(device_id, LinkEvent::PairingRequested { now })
    }

    /// Accepts the pair request of a device.
    pub fn accept_pairing(&mut self, device_id: &str) -> (r: Result<Reaction, ProtocolError>)
        ensures
            stepped(*old(self), *final(self), device_id@, LinkEventView::PairingAccepted, r),
    {
        self.apply(device_id, LinkEvent::PairingAccepted)
    }

    /// Rejects the pair request of a device, or withdraws the request made
    /// to it. After a successful reject the device is connected and unpaired
    /// and no certificate is on record for it.
    pub fn reject_pairing(&mut self, device_id: &str) -> (r: Result<Reaction, ProtocolError>)
        ensures
            stepped(*old(self), *final(self), device_id@, LinkEventView::PairingRejected, r),
            r is Ok <==> old(self).knows(device_id@) && old(self).link(device_id@).state is Pairing,
            r is Ok ==> final(self).link(device_id@).state is Connected && !final(self).trust().contains_key(device_id@),
            r is Err ==> final(self).trust() == old(self).trust() && (old(self).knows(device_id@)
                ==> final(self).link(device_id@) == old(self).link(device_id@)),
    {
        self.apply(device_id, LinkEvent::PairingRejected)
    }

    /// Unpairs a device: drops its trust record and returns a live
    /// connection to the unpaired state.
    pub fn unpair(&mut self, device_id: &str) -> (r: Result<Reaction, ProtocolError>)
        ensures
            stepped(*old(self), *final(self), device_id@, LinkEventView::Unpaired, r),
            r is Ok <==> old(self).knows(device_id@),
            r is Ok ==> final(self).trust() == old(self).trust().remove(device_id@) && !(final(self).link(device_id@).state is Paired) && !(final(self).link(device_id@).state
                is Pairing),
            r is Err ==> final(self).trust() == old(self).trust(),
    {
        self.apply(device_id, LinkEvent::Unpaired)
    }

    /// Closes the connection to a device.
    pub fn disconnect(&mut self, device_id: &str) -> (r: Result<Reaction, ProtocolError>)
        ensures
            stepped(*old(self), *final(self), device_id@, LinkEventView::Closed, r),
            final(self).trust() == old(self).trust(),
            r is Ok <==> old(self).knows(device_id@),
            r is Ok ==> final(self).link(device_id@).state is Disconnected && final(self).link(
                device_id@,
            ).certificate is None,
    {
        self.apply(device_id, LinkEvent::Closed)
    }

    /// Where an inbound packet from a device goes. Packets from unknown
    /// devices go nowhere but to discovery.
    pub fn route(&self, device_id: &str, packet: &Packet) -> (r: Route)
        ensures
            r == if self.knows(device_id@) {
                route_of(self.link(device_id@).state, packet@.packet_type)
            } else {
                route_of(ConnectionState::Disconnected, packet@.packet_type)
            },
    {
        let state = match self.state_of(device_id) {
            Some(state) => state,
            None => ConnectionState::Disconnected,
        };
        route(state, packet.packet_type.as_str())
    }

    /// Frames a packet for sending to a device.
    ///
    /// Only identity and pairing packets may be sent to a device that is not
    /// paired; anything else is refused. The frame is the packet's JSON text
    /// and a line feed.
    pub fn send_packet(&self, device_id: &str, packet: &Packet) -> (r: Result<
        Vec<u8>,
        ProtocolError,
    >)
        ensures
            if !self.knows(device_id@) {
                r == Err::<Vec<u8>, ProtocolError>(ProtocolError::UnknownDevice)
            } else if route_of(self.link(device_id@).state, packet@.packet_type) is Refused {
                r == Err::<Vec<u8>, ProtocolError>(ProtocolError::NotApplicable)
            } else {
                r matches Ok(bytes) && bytes@ == json_text(envelope(packet@)).push(FRAME_END)
            },
    {
        match self.state_of(device_id) {
            None => Err(ProtocolError::UnknownDevice),
            Some(state) => match route(state, packet.packet_type.as_str()) {
                Route::Refused => Err(ProtocolError::NotApplicable),
                _ => packet.encode(),
            },
        }
    }
}

/// Whether a device last seen at `last_seen` has been silent for longer than
/// `window` at time `now`.
pub open spec fn stale(last_seen: u64, now: u64, window: u64) -> bool {
    now - last_seen > window
}

} // verus!
