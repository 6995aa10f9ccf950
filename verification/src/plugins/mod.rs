//! Feature plugins and the framework that routes packets to them.
//!
//! Every paired device gets plugin instances of its own, so nothing a plugin
//! remembers about one device can leak to another. An inbound packet goes to
//! every plugin of the device that declares the packet's type as an incoming
//! capability, in registration order; a packet no plugin declares is
//! dropped. What one plugin answers, error or not, has no bearing on what
//! the others are handed.

pub mod audiostream;
pub mod remoteinput;
pub mod screenshare;
pub mod systemvolume;

use vstd::prelude::*;
use crate::device::{route, route_of, Device, DeviceInfo, Route};
use crate::error::ProtocolError;
use crate::fields::parse_failure;
use crate::packet::{Packet, PacketView};
use crate::plugins::remoteinput::{
    action_views, response_of, InputAction, RemoteInputPlugin, RemoteInputPluginFactory,
    PACKET_TYPE_MOUSEPAD_KEYBOARDSTATE, PACKET_TYPE_MOUSEPAD_REQUEST,
};
use crate::plugins::systemvolume::{
    is_request_type, plan_of, volume_request_of, SystemVolumePlugin, SystemVolumePluginFactory,
    VolumePlan, LEGACY_PACKET_TYPE_SYSTEMVOLUME, LEGACY_PACKET_TYPE_SYSTEMVOLUME_REQUEST,
    PACKET_TYPE_SYSTEMVOLUME, PACKET_TYPE_SYSTEMVOLUME_REQUEST,
};
use crate::text::str_eq;

verus! {

/// The strings of a list, as character sequences.
pub open spec fn texts(list: Seq<String>) -> Seq<Seq<char>> {
    list.map_values(|s: String| s@)
}

/// Whether a capability list holds a packet type, compared exactly.
pub fn declares(list: &Vec<String>, packet_type: &str) -> (r: bool)
    ensures
        r == texts(list@).contains(packet_type@),
{
    let mut i: usize = 0;
    while i < list.len()
        invariant
            i <= list.len(),
            forall|k: int| 0 <= k < i ==> texts(list@)[k] != packet_type@,
        decreases list.len() - i,
    {
        if str_eq(list[i].as_str(), packet_type) {
            assert(texts(list@)[i as int] == packet_type@);
            return true;
        }
        i += 1;
    }
    false
}

/// Whether two capability lists have a packet type in common.
pub fn overlaps(a: &Vec<String>, b: &Vec<String>) -> (r: bool)
    ensures
        r == exists|c: Seq<char>| texts(a@).contains(c) && texts(b@).contains(c),
{
    let mut i: usize = 0;
    while i < a.len()
        invariant
            i <= a.len(),
            forall|k: int| 0 <= k < i ==> !texts(b@).contains(texts(a@)[k]),
        decreases a.len() - i,
    {
        if declares(b, a[i].as_str()) {
            assert(texts(a@)[i as int] == a[i as int]@);
            assert(texts(a@).contains(a[i as int]@));
            return true;
        }
        i += 1;
    }
    false
}

/// The capabilities both sides have: those of `local`, in order, that the
/// peer announced too.
pub open spec fn negotiated(local: Seq<Seq<char>>, announced: Seq<Seq<char>>) -> Seq<Seq<char>> {
    local.filter(|c: Seq<char>| announced.contains(c))
}

/// Computes the negotiated capability set of a device.
pub fn negotiate(local: &Vec<String>, announced: &Vec<String>) -> (r: Vec<String>)
    ensures
        texts(r@) == negotiated(texts(local@), texts(announced@)),
{
    let ghost keep = |c: Seq<char>| texts(announced@).contains(c);
    let mut r: Vec<String> = Vec::new();
    let mut i: usize = 0;
    proof {
        reveal(Seq::filter);
        assert(texts(local@).take(0) =~= Seq::<Seq<char>>::empty());
        assert(texts(r@) =~= Seq::<Seq<char>>::empty());
    }
    while i < local.len()
        invariant
            i <= local.len(),
            keep == |c: Seq<char>| texts(announced@).contains(c),
            texts(r@) == texts(local@).take(i as int).filter(keep),
        decreases local.len() - i,
    {
        proof {
            reveal(Seq::filter);
            let next = texts(local@).take(i + 1);
            assert(next.drop_last() =~= texts(local@).take(i as int));
            assert(next.last() == local[i as int]@);
        }
        if declares(announced, local[i].as_str()) {
            let ghost before = r@;
            r.push(local[i].clone());
            assert(texts(r@) =~= texts(before).push(local[i as int]@));
        }
        i += 1;
    }
    proof {
        assert(texts(local@).take(local.len() as int) =~= texts(local@));
    }
    r
}

/// The negotiated set is the intersection of the two lists: it holds a
/// capability exactly when both sides have it.
pub proof fn lemma_negotiated_is_intersection(
    local: Seq<Seq<char>>,
    announced: Seq<Seq<char>>,
    c: Seq<char>,
)
    ensures
        negotiated(local, announced).contains(c) <==> local.contains(c) && announced.contains(c),
{
    let keep = |c: Seq<char>| announced.contains(c);
    #[allow(deprecated)]
    local.filter_lemma(keep);
    if negotiated(local, announced).contains(c) {
        local.lemma_filter_contains_rev(keep, c);
        let i = choose|i: int| 0 <= i < local.filter(keep).len() && local.filter(keep)[i] == c;
        assert(keep(local.filter(keep)[i]));
    }
    if local.contains(c) && announced.contains(c) {
        let i = choose|i: int| 0 <= i < local.len() && local[i] == c;
        assert(keep(local[i]));
    }
}

/// The plugins this crate knows.
#[derive(Debug, Clone, Copy, PartialEq, Eq, Structural)]
pub enum PluginKind {
    RemoteInput,
    SystemVolume,
}

impl PluginKind {
    /// The name plugins of this kind go by.
    pub open spec fn name(self) -> Seq<char> {
        match self {
            PluginKind::RemoteInput => "remoteinput"@,
            PluginKind::SystemVolume => "systemvolume"@,
        }
    }

    /// The packet types plugins of this kind declare as incoming.
    pub open spec fn incoming(self) -> Seq<Seq<char>> {
        match self {
            PluginKind::RemoteInput => seq![PACKET_TYPE_MOUSEPAD_REQUEST@],
            PluginKind::SystemVolume => seq![
                PACKET_TYPE_SYSTEMVOLUME_REQUEST@,
                LEGACY_PACKET_TYPE_SYSTEMVOLUME_REQUEST@,
            ],
        }
    }

    /// The packet types plugins of this kind declare as outgoing.
    pub open spec fn outgoing(self) -> Seq<Seq<char>> {
        match self {
            PluginKind::RemoteInput => seq![PACKET_TYPE_MOUSEPAD_KEYBOARDSTATE@],
            PluginKind::SystemVolume => seq![
                PACKET_TYPE_SYSTEMVOLUME@,
                LEGACY_PACKET_TYPE_SYSTEMVOLUME@,
            ],
        }
    }
}

/// One plugin serving one device.
pub enum PluginInstance {
    RemoteInput(RemoteInputPlugin),
    SystemVolume(SystemVolumePlugin),
}

/// What a [`PluginInstance`] means: which plugin it is, and what it holds.
pub struct PluginView {
    pub kind: PluginKind,
    /// The id of the device the plugin serves, once initialised.
    pub device: Option<Seq<char>>,
    /// The sinks a system volume plugin remembers; empty for other plugins.
    pub sinks: Map<Seq<char>, u32>,
}

impl View for PluginInstance {
    type V = PluginView;

    open spec fn view(&self) -> PluginView {
        match self {
            PluginInstance::RemoteInput(p) => PluginView {
                kind: PluginKind::RemoteInput,
                device: p.device(),
                sinks: Map::empty(),
            },
            PluginInstance::SystemVolume(p) => PluginView {
                kind: PluginKind::SystemVolume,
                device: p.device(),
                sinks: p.cache(),
            },
        }
    }
}

/// What a plugin answered to a packet.
#[derive(Debug, Clone, PartialEq, Eq)]
pub enum PluginOutput {
    /// Input to inject, in order.
    Input(Vec<InputAction>),
    /// A change to make to the audio sinks, if the packet asked for one.
    Volume(Option<VolumePlan>),
}

impl PluginInstance {
    /// Which of the known plugins this is.
    pub fn kind(&self) -> (r: PluginKind)
        ensures
            r == self@.kind,
    {
        match self {
            PluginInstance::RemoteInput(_) => PluginKind::RemoteInput,
            PluginInstance::SystemVolume(_) => PluginKind::SystemVolume,
        }
    }

    pub fn name(&self) -> (r: &'static str)
        ensures
            r@ == self@.kind.name(),
    {
        match self {
            PluginInstance::RemoteInput(p) => p.name(),
            PluginInstance::SystemVolume(p) => p.name(),
        }
    }

    pub fn incoming_capabilities(&self) -> (r: Vec<String>)
        ensures
            texts(r@) == self@.kind.incoming(),
    {
        let r = match self {
            PluginInstance::RemoteInput(p) => p.incoming_capabilities(),
            PluginInstance::SystemVolume(p) => p.incoming_capabilities(),
        };
        assert(texts(r@) =~= self@.kind.incoming());
        r
    }

    pub fn outgoing_capabilities(&self) -> (r: Vec<String>)
        ensures
            texts(r@) == self@.kind.outgoing(),
    {
        let r = match self {
            PluginInstance::RemoteInput(p) => p.outgoing_capabilities(),
            PluginInstance::SystemVolume(p) => p.outgoing_capabilities(),
        };
        assert(texts(r@) =~= self@.kind.outgoing());
        r
    }

    /// Whether the plugin declares `packet_type` as incoming.
    pub fn accepts(&self, packet_type: &str) -> (r: bool)
        ensures
            r == self@.kind.incoming().contains(packet_type@),
    {
        let list = self.incoming_capabilities();
        declares(&list, packet_type)
    }

    /// Attaches the plugin to a device.
    pub fn init(&mut self, device: &Device) -> (r: Result<(), ProtocolError>)
        ensures
            r is Ok,
            final(self)@ == (PluginView { device: Some(device.info.device_id@), ..old(self)@ }),
    {
        match self {
            PluginInstance::RemoteInput(p) => p.init(device),
            PluginInstance::SystemVolume(p) => p.init(device),
        }
    }

    /// Hands a packet to the plugin. Whatever the answer, the plugin and the
    /// device are as they were.
    pub fn handle_packet(&mut self, packet: &Packet, device: &mut Device) -> (r: Result<
        PluginOutput,
        ProtocolError,
    >)
        ensures
            answers(old(self)@, packet@, r),
            final(self)@ == old(self)@,
            *final(device) == *old(device),
    {
        match self {
            PluginInstance::RemoteInput(p) => {
                let actions = p.handle_packet(packet, device)?;
                Ok(PluginOutput::Input(actions))
            },
            PluginInstance::SystemVolume(p) => {
                let plan = p.handle_packet(packet, device)?;
                Ok(PluginOutput::Volume(plan))
            },
        }
    }
}

/// `result` is what `plugin` answers to `packet`.
pub open spec fn answers(
    plugin: PluginView,
    packet: PacketView,
    result: Result<PluginOutput, ProtocolError>,
) -> bool {
    match plugin.kind {
        PluginKind::RemoteInput => match response_of(packet.packet_type, packet.body) {
            Some(actions) => result matches Ok(PluginOutput::Input(list)) && action_views(list@)
                == actions,
            None => result matches Err(e) && parse_failure(
                e,
                remoteinput::PARSE_FAILURE@,
                packet.body,
            ),
        },
        PluginKind::SystemVolume => if is_request_type(packet.packet_type) {
            match volume_request_of(packet.body) {
                Some(request) => result matches Ok(PluginOutput::Volume(Some(plan))) && plan@
                    == plan_of(plugin.sinks, request),
                None => result matches Err(e) && parse_failure(
                    e,
                    systemvolume::PARSE_FAILURE@,
                    packet.body,
                ),
            }
        } else {
            result matches Ok(PluginOutput::Volume(None))
        },
    }
}

/// What one plugin answered to a dispatched packet.
#[derive(Debug)]
pub struct Delivery {
    /// The plugin's position in the manager.
    pub plugin: usize,
    pub result: Result<PluginOutput, ProtocolError>,
}

/// The positions, in ascending order, of the plugins among the first `n`
/// that declare `packet_type`.
pub open spec fn targets_below(declared: Seq<Seq<Seq<char>>>, packet_type: Seq<char>, n: int) -> Seq<
    int,
>
    decreases n,
{
    if n <= 0 {
        Seq::empty()
    } else if declared[n - 1].contains(packet_type) {
        targets_below(declared, packet_type, n - 1).push(n - 1)
    } else {
        targets_below(declared, packet_type, n - 1)
    }
}

/// The positions of all plugins that a packet of the given type goes to.
pub open spec fn targets_of(declared: Seq<Seq<Seq<char>>>, packet_type: Seq<char>) -> Seq<int> {
    targets_below(declared, packet_type, declared.len() as int)
}

/// Fan-out: a packet type goes to a plugin exactly when the plugin declares
/// it, and to no plugin twice.
pub proof fn lemma_targets_are_the_declarers(
    declared: Seq<Seq<Seq<char>>>,
    packet_type: Seq<char>,
    n: int,
)
    requires
        0 <= n <= declared.len(),
    ensures
        forall|i: int|
            targets_below(declared, packet_type, n).contains(i) <==> 0 <= i < n
                && declared[i].contains(packet_type),
        forall|a: int, b: int|
            0 <= a < b < targets_below(declared, packet_type, n).len() ==> targets_below(
                declared,
                packet_type,
                n,
            )[a] < targets_below(declared, packet_type, n)[b],
    decreases n,
{
    let t = targets_below(declared, packet_type, n);
    if n > 0 {
        lemma_targets_are_the_declarers(declared, packet_type, n - 1);
        let rest = targets_below(declared, packet_type, n - 1);
        if declared[n - 1].contains(packet_type) {
            assert(t[t.len() - 1] == n - 1);
            assert forall|i: int| t.contains(i) <==> 0 <= i < n && declared[i].contains(
                packet_type,
            ) by {
                if t.contains(i) {
                    let k = choose|k: int| 0 <= k < t.len() && t[k] == i;
                    if k < rest.len() {
                        assert(rest[k] == i);
                        assert(rest.contains(i));
                    }
                }
                if 0 <= i < n - 1 && declared[i].contains(packet_type) {
                    assert(rest.contains(i));
                    let k = choose|k: int| 0 <= k < rest.len() && rest[k] == i;
                    assert(t[k] == i);
                }
            }
            assert forall|a: int, b: int| 0 <= a < b < t.len() implies t[a] < t[b] by {
                if b == t.len() - 1 {
                    assert(rest[a] == t[a]);
                    assert(rest.contains(t[a]));
                } else {
                    assert(rest[a] == t[a] && rest[b] == t[b]);
                }
            }
        }
    }
}

/// What each of the given plugins declares as incoming.
pub open spec fn declared_by(plugins: Seq<PluginView>) -> Seq<Seq<Seq<char>>> {
    plugins.map_values(|p: PluginView| p.kind.incoming())
}

/// The kinds of plugin a device calls for, in the order they are made.
pub open spec fn wanted_kinds(info: DeviceInfo) -> Seq<PluginKind> {
    let first = if wanted(PluginKind::RemoteInput, info) {
        seq![PluginKind::RemoteInput]
    } else {
        Seq::empty()
    };
    if wanted(PluginKind::SystemVolume, info) {
        first.push(PluginKind::SystemVolume)
    } else {
        first
    }
}

/// The plugins of one device.
pub struct PluginManager {
    plugins: Vec<PluginInstance>,
}

impl PluginManager {
    /// The registered plugins, in registration order.
    pub closed spec fn instances(&self) -> Seq<PluginView> {
        self.plugins@.map_values(|p: PluginInstance| p@)
    }

    /// What each registered plugin declares as incoming.
    pub open spec fn declared(&self) -> Seq<Seq<Seq<char>>> {
        declared_by(self.instances())
    }

    /// A manager without plugins.
    pub fn new() -> (manager: PluginManager)
        ensures
            manager.instances() == Seq::<PluginView>::empty(),
    {
        let manager = PluginManager { plugins: Vec::new() };
        assert(manager.instances() =~= Seq::<PluginView>::empty());
        manager
    }

    pub fn len(&self) -> (n: usize)
        ensures
            n == self.instances().len(),
    {
        self.plugins.len()
    }

    /// Adds a plugin after those already registered.
    pub fn register(&mut self, plugin: PluginInstance)
        ensures
            final(self).instances() == old(self).instances().push(plugin@),
    {
        self.plugins.push(plugin);
        assert(self.instances() =~= old(self).instances().push(plugin@));
    }

    /// The name of the plugin at a position.
    pub fn name_of(&self, index: usize) -> (r: Option<&'static str>)
        ensures
            match r {
                Some(name) => index < self.instances().len() && name@
                    == self.instances()[index as int].kind.name(),
                None => index >= self.instances().len(),
            },
    {
        if index < self.plugins.len() {
            Some(self.plugins[index].name())
        } else {
            None
        }
    }

    /// The plugins a device calls for: each known plugin that shares a
    /// capability with what the device announced, initialised for the device.
    ///
    /// A plugin is wanted when the device produces something the plugin
    /// consumes, or consumes something the plugin produces.
    pub fn for_device(device: &Device) -> (manager: PluginManager)
        ensures
            manager.instances() == wanted_kinds(device.info).map_values(
                |kind: PluginKind|
                    PluginView {
                        kind,
                        device: Some(device.info.device_id@),
                        sinks: Map::empty(),
                    },
            ),
    {
        let mut manager = PluginManager::new();
        let mut remote_input = PluginInstance::RemoteInput(RemoteInputPluginFactory.create());
        if Self::wants(&remote_input, &device.info) {
            let _ = remote_input.init(device);
            manager.register(remote_input);
        }
        let mut system_volume = PluginInstance::SystemVolume(SystemVolumePluginFactory.create());
        if Self::wants(&system_volume, &device.info) {
            let _ = system_volume.init(device);
            manager.register(system_volume);
        }
        assert(manager.instances() =~= wanted_kinds(device.info).map_values(
            |kind: PluginKind|
                PluginView { kind, device: Some(device.info.device_id@), sinks: Map::empty() },
        ));
        manager
    }

    fn wants(plugin: &PluginInstance, info: &DeviceInfo) -> (r: bool)
        ensures
            r == wanted(plugin@.kind, *info),
    {
        let incoming = plugin.incoming_capabilities();
        let outgoing = plugin.outgoing_capabilities();
        overlaps(&incoming, &info.outgoing_capabilities) || overlaps(
            &outgoing,
            &info.incoming_capabilities,
        )
    }

    /// The positions of the plugins a packet of the given type goes to.
    pub fn targets(&self, packet_type: &str) -> (r: Vec<usize>)
        ensures
            r@.map_values(|i: usize| i as int) == targets_of(self.declared(), packet_type@),
    {
        let ghost declared = self.declared();
        let mut r: Vec<usize> = Vec::new();
        let mut i: usize = 0;
        assert(r@.map_values(|i: usize| i as int) =~= Seq::<int>::empty());
        while i < self.plugins.len()
            invariant
                i <= self.plugins.len(),
                declared == self.declared(),
                r@.map_values(|i: usize| i as int) == targets_below(declared, packet_type@, i as int),
            decreases self.plugins.len() - i,
        {
            assert(declared[i as int] == self.plugins[i as int]@.kind.incoming());
            if self.plugins[i].accepts(packet_type) {
                let ghost before = r@;
                r.push(i);
                assert(r@.map_values(|i: usize| i as int) =~= before.map_values(
                    |i: usize| i as int,
                ).push(i as int));
            }
            i += 1;
        }
        r
    }

    /// Hands a packet to every plugin that declares its type.
    ///
    /// There is one delivery per target, in ascending order of position,
    /// each with what that plugin answered. A plugin's error is its own: the
    /// plugins after it are handed the packet all the same, and whatever was
    /// answered, every plugin and the device are as they were.
    pub fn handle_packet(&mut self, packet: &Packet, device: &mut Device) -> (r: Vec<Delivery>)
        ensures
            final(self).instances() == old(self).instances(),
            *final(device) == *old(device),
            r@.map_values(|d: Delivery| d.plugin as int) == targets_of(
                old(self).declared(),
                packet@.packet_type,
            ),
            forall|k: int|
                0 <= k < r.len() ==> (#[trigger] r[k]).plugin < old(self).instances().len()
                    && answers(old(self).instances()[r[k].plugin as int], packet@, r[k].result),
    {
        let ghost before = self.instances();
        let ghost declared = self.declared();
        let mut r: Vec<Delivery> = Vec::new();
        let mut i: usize = 0;
        assert(r@.map_values(|d: Delivery| d.plugin as int) =~= Seq::<int>::empty());
        while i < self.plugins.len()
            invariant
                i <= self.plugins.len(),
                before == old(self).instances(),
                declared == declared_by(before),
                self.instances() == before,
                *device == *old(device),
                r@.map_values(|d: Delivery| d.plugin as int) == targets_below(
                    declared,
                    packet@.packet_type,
                    i as int,
                ),
                forall|k: int|
                    0 <= k < r.len() ==> (#[trigger] r[k]).plugin < before.len() && answers(
                        before[r[k].plugin as int],
                        packet@,
                        r[k].result,
                    ),
            decreases self.plugins.len() - i,
        {
            assert(before[i as int] == self.plugins[i as int]@);
            assert(declared[i as int] == before[i as int].kind.incoming());
            if self.plugins[i].accepts(packet.packet_type.as_str()) {
                let ghost sent = r@;
                let plugin = &mut self.plugins[i];
                let result = plugin.handle_packet(packet, device);
                assert(self.instances() =~= before);
                r.push(Delivery { plugin: i, result });
                assert(r@.map_values(|d: Delivery| d.plugin as int) =~= sent.map_values(
                    |d: Delivery| d.plugin as int,
                ).push(i as int));
            }
            i += 1;
        }
        r
    }

    /// Takes an inbound packet from the device: hands it to the plugins if
    /// the device is paired and the packet is neither an identity nor a
    /// pairing packet, and to nobody otherwise.
    pub fn dispatch(&mut self, packet: &Packet, device: &mut Device) -> (r: Option<Vec<Delivery>>)
        ensures
            final(self).instances() == old(self).instances(),
            *final(device) == *old(device),
            r is Some <==> route_of(old(device).link@.state, packet@.packet_type) is Plugins,
            r is Some ==> old(device).link@.state is Paired,
            r matches Some(deliveries) ==> {
                &&& deliveries@.map_values(|d: Delivery| d.plugin as int) == targets_of(
                    old(self).declared(),
                    packet@.packet_type,
                )
                &&& forall|k: int|
                    0 <= k < deliveries.len() ==> (#[trigger] deliveries[k]).plugin < old(self).instances().len() && answers(
                        old(self).instances()[deliveries[k].plugin as int],
                        packet@,
                        deliveries[k].result,
                    )
            },
    {
        match route(device.state(), packet.packet_type.as_str()) {
            Route::Plugins => Some(self.handle_packet(packet, device)),
            _ => None,
        }
    }
}

/// Whether a device calls for a plugin: the two share a capability, in one
/// direction or the other.
pub open spec fn wanted(plugin: PluginKind, info: DeviceInfo) -> bool {
    ||| exists|c: Seq<char>|
        plugin.incoming().contains(c) && texts(info.outgoing_capabilities@).contains(c)
    ||| exists|c: Seq<char>|
        plugin.outgoing().contains(c) && texts(info.incoming_capabilities@).contains(c)
}

/// Where a packet goes depends on what the plugins declare and on nothing
/// else: dispatching a packet, whatever the plugins answer to it, leaves
/// every later packet going to exactly the plugins it would have gone to.
pub proof fn lemma_routing_survives_failures(
    before: Seq<PluginView>,
    after: Seq<PluginView>,
    packet_type: Seq<char>,
)
    requires
        after == before,
    ensures
        targets_of(declared_by(after), packet_type) == targets_of(declared_by(before), packet_type),
{
}

} // verus!
