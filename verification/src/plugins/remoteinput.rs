//! Remote input: pointer and keyboard control from a paired device.
//!
//! The plugin consumes `kdeconnect.mousepad.request` packets and announces
//! `kdeconnect.mousepad.keyboardstate`. It decides what each request asks
//! for and hands that back as a list of [`InputAction`]s, in a fixed order:
//! motion first, then button actions, then keys. Injecting the actions into
//! the desktop is the caller's job.

use vstd::prelude::*;
use crate::device::Device;
use crate::error::ProtocolError;
use crate::fields::{
    not_an_object, opt_bool, opt_i32, opt_number, opt_str, parse_failure, prefixed, read_bool,
    read_i32, read_number, read_str, reason,
};
use crate::json::{is_object, json_of, Json};
use crate::packet::Packet;

verus! {

/// What the message of every error about an unreadable request begins with.
pub const PARSE_FAILURE: &'static str = "Failed to parse request: ";

/// Packet type for remote input requests.
pub const PACKET_TYPE_MOUSEPAD_REQUEST: &'static str = "kdeconnect.mousepad.request";

/// Packet type for echo responses.
pub const PACKET_TYPE_MOUSEPAD_ECHO: &'static str = "kdeconnect.mousepad.echo";

/// Packet type for keyboard state.
pub const PACKET_TYPE_MOUSEPAD_KEYBOARDSTATE: &'static str = "kdeconnect.mousepad.keyboardstate";

/// Keys that have no printable character.
#[derive(Debug, Clone, Copy, PartialEq, Eq, Structural)]
pub enum SpecialKey {
    Backspace,
    Tab,
    Enter,
    Escape,
    Left,
    Up,
    Right,
    Down,
    PageUp,
    PageDown,
    Home,
    End,
    Delete,
    F1,
    F2,
    F3,
    F4,
    F5,
    F6,
    F7,
    F8,
    F9,
    F10,
    F11,
    F12,
}

impl SpecialKey {
    /// The number that stands for the key on the wire.
    pub open spec fn spec_code(self) -> i32 {
        match self {
            SpecialKey::Backspace => 1,
            SpecialKey::Tab => 2,
            SpecialKey::Enter => 12,
            SpecialKey::Escape => 27,
            SpecialKey::Left => 21,
            SpecialKey::Up => 22,
            SpecialKey::Right => 23,
            SpecialKey::Down => 24,
            SpecialKey::PageUp => 25,
            SpecialKey::PageDown => 26,
            SpecialKey::Home => 28,
            SpecialKey::End => 29,
            SpecialKey::Delete => 30,
            SpecialKey::F1 => 31,
            SpecialKey::F2 => 32,
            SpecialKey::F3 => 33,
            SpecialKey::F4 => 34,
            SpecialKey::F5 => 35,
            SpecialKey::F6 => 36,
            SpecialKey::F7 => 37,
            SpecialKey::F8 => 38,
            SpecialKey::F9 => 39,
            SpecialKey::F10 => 40,
            SpecialKey::F11 => 41,
            SpecialKey::F12 => 42,
        }
    }

    #[verifier::when_used_as_spec(spec_code)]
    pub fn code(self) -> (r: i32)
        ensures
            r == self.spec_code(),
    {
        match self {
            SpecialKey::Backspace => 1,
            SpecialKey::Tab => 2,
            SpecialKey::Enter => 12,
            SpecialKey::Escape => 27,
            SpecialKey::Left => 21,
            SpecialKey::Up => 22,
            SpecialKey::Right => 23,
            SpecialKey::Down => 24,
            SpecialKey::PageUp => 25,
            SpecialKey::PageDown => 26,
            SpecialKey::Home => 28,
            SpecialKey::End => 29,
            SpecialKey::Delete => 30,
            SpecialKey::F1 => 31,
            SpecialKey::F2 => 32,
            SpecialKey::F3 => 33,
            SpecialKey::F4 => 34,
            SpecialKey::F5 => 35,
            SpecialKey::F6 => 36,
            SpecialKey::F7 => 37,
            SpecialKey::F8 => 38,
            SpecialKey::F9 => 39,
            SpecialKey::F10 => 40,
            SpecialKey::F11 => 41,
            SpecialKey::F12 => 42,
        }
    }

    /// The key a wire number stands for, if it stands for one.
    pub fn from_code(code: i32) -> (r: Option<SpecialKey>)
        ensures
            match r {
                Some(key) => key.code() == code,
                None => forall|key: SpecialKey| key.code() != code,
            },
    {
        match code {
            1 => Some(SpecialKey::Backspace),
            2 => Some(SpecialKey::Tab),
            12 => Some(SpecialKey::Enter),
            27 => Some(SpecialKey::Escape),
            21 => Some(SpecialKey::Left),
            22 => Some(SpecialKey::Up),
            23 => Some(SpecialKey::Right),
            24 => Some(SpecialKey::Down),
            25 => Some(SpecialKey::PageUp),
            26 => Some(SpecialKey::PageDown),
            28 => Some(SpecialKey::Home),
            29 => Some(SpecialKey::End),
            30 => Some(SpecialKey::Delete),
            31 => Some(SpecialKey::F1),
            32 => Some(SpecialKey::F2),
            33 => Some(SpecialKey::F3),
            34 => Some(SpecialKey::F4),
            35 => Some(SpecialKey::F5),
            36 => Some(SpecialKey::F6),
            37 => Some(SpecialKey::F7),
            38 => Some(SpecialKey::F8),
            39 => Some(SpecialKey::F9),
            40 => Some(SpecialKey::F10),
            41 => Some(SpecialKey::F11),
            42 => Some(SpecialKey::F12),
            _ => None,
        }
    }
}

/// Different keys have different wire numbers.
pub proof fn lemma_special_key_codes_distinct(a: SpecialKey, b: SpecialKey)
    requires
        a.code() == b.code(),
    ensures
        a == b,
{
}

/// The body of a remote input request. Every member is optional.
#[derive(Debug, Clone, PartialEq, Eq)]
pub struct RemoteInputRequest {
    /// Single readable character input.
    pub key: Option<String>,
    /// Non-printable key, by wire number.
    pub special_key: Option<i32>,
    pub alt: Option<bool>,
    pub ctrl: Option<bool>,
    pub shift: Option<bool>,
    pub super_key: Option<bool>,
    pub singleclick: Option<bool>,
    pub doubleclick: Option<bool>,
    pub middleclick: Option<bool>,
    pub rightclick: Option<bool>,
    pub singlehold: Option<bool>,
    pub singlerelease: Option<bool>,
    /// Position delta on the X axis, as the JSON number it arrived as.
    pub dx: Option<serde_json::Value>,
    /// Position delta on the Y axis, as the JSON number it arrived as.
    pub dy: Option<serde_json::Value>,
    /// Whether the deltas scroll rather than move the pointer.
    pub scroll: Option<bool>,
    /// Whether the sender wants an echo.
    pub send_ack: Option<bool>,
}

/// What a [`RemoteInputRequest`] means.
pub struct RequestView {
    pub key: Option<Seq<char>>,
    pub special_key: Option<i32>,
    pub alt: Option<bool>,
    pub ctrl: Option<bool>,
    pub shift: Option<bool>,
    pub super_key: Option<bool>,
    pub singleclick: Option<bool>,
    pub doubleclick: Option<bool>,
    pub middleclick: Option<bool>,
    pub rightclick: Option<bool>,
    pub singlehold: Option<bool>,
    pub singlerelease: Option<bool>,
    pub dx: Option<Json>,
    pub dy: Option<Json>,
    pub scroll: Option<bool>,
    pub send_ack: Option<bool>,
}

pub open spec fn text_view(s: Option<String>) -> Option<Seq<char>> {
    match s {
        Some(s) => Some(s@),
        None => None,
    }
}

pub open spec fn json_view(v: Option<serde_json::Value>) -> Option<Json> {
    match v {
        Some(v) => Some(json_of(v)),
        None => None,
    }
}

impl View for RemoteInputRequest {
    type V = RequestView;

    open spec fn view(&self) -> RequestView {
        RequestView {
            key: text_view(self.key),
            special_key: self.special_key,
            alt: self.alt,
            ctrl: self.ctrl,
            shift: self.shift,
            super_key: self.super_key,
            singleclick: self.singleclick,
            doubleclick: self.doubleclick,
            middleclick: self.middleclick,
            rightclick: self.rightclick,
            singlehold: self.singlehold,
            singlerelease: self.singlerelease,
            dx: json_view(self.dx),
            dy: json_view(self.dy),
            scroll: self.scroll,
            send_ack: self.send_ack,
        }
    }
}

/// Whether every member of a request body has the type its name calls for.
pub open spec fn well_typed(body: Json) -> bool {
    &&& body is Object
    &&& opt_str(body, "key"@) is Some
    &&& opt_i32(body, "specialKey"@) is Some
    &&& opt_bool(body, "alt"@) is Some
    &&& opt_bool(body, "ctrl"@) is Some
    &&& opt_bool(body, "shift"@) is Some
    &&& opt_bool(body, "super"@) is Some
    &&& opt_bool(body, "singleclick"@) is Some
    &&& opt_bool(body, "doubleclick"@) is Some
    &&& opt_bool(body, "middleclick"@) is Some
    &&& opt_bool(body, "rightclick"@) is Some
    &&& opt_bool(body, "singlehold"@) is Some
    &&& opt_bool(body, "singlerelease"@) is Some
    &&& opt_number(body, "dx"@) is Some
    &&& opt_number(body, "dy"@) is Some
    &&& opt_bool(body, "scroll"@) is Some
    &&& opt_bool(body, "sendAck"@) is Some
}

/// The request a body denotes: `None` unless the body is an object whose
/// known members are well typed. Unknown members are ignored.
pub open spec fn request_of(body: Json) -> Option<RequestView> {
    if well_typed(body) {
        Some(
            RequestView {
                key: opt_str(body, "key"@)->0,
                special_key: opt_i32(body, "specialKey"@)->0,
                alt: opt_bool(body, "alt"@)->0,
                ctrl: opt_bool(body, "ctrl"@)->0,
                shift: opt_bool(body, "shift"@)->0,
                super_key: opt_bool(body, "super"@)->0,
                singleclick: opt_bool(body, "singleclick"@)->0,
                doubleclick: opt_bool(body, "doubleclick"@)->0,
                middleclick: opt_bool(body, "middleclick"@)->0,
                rightclick: opt_bool(body, "rightclick"@)->0,
                singlehold: opt_bool(body, "singlehold"@)->0,
                singlerelease: opt_bool(body, "singlerelease"@)->0,
                dx: opt_number(body, "dx"@)->0,
                dy: opt_number(body, "dy"@)->0,
                scroll: opt_bool(body, "scroll"@)->0,
                send_ack: opt_bool(body, "sendAck"@)->0,
            },
        )
    } else {
        None
    }
}

impl RemoteInputRequest {
    /// Reads a request out of a packet body. A body that is not a well-typed
    /// request is refused with a message that begins with [`PARSE_FAILURE`].
    pub fn from_body(body: &serde_json::Value) -> (r: Result<RemoteInputRequest, ProtocolError>)
        ensures
            match request_of(json_of(*body)) {
                Some(request) => r matches Ok(parsed) && parsed@ == request,
                None => r matches Err(e) && parse_failure(e, PARSE_FAILURE@, json_of(*body)),
            },
    {
        match Self::read(body) {
            Ok(request) => Ok(request),
            Err(e) => Err(prefixed(PARSE_FAILURE, e)),
        }
    }

    /// Reads the members one by one; an error says only why.
    fn read(body: &serde_json::Value) -> (r: Result<RemoteInputRequest, ProtocolError>)
        ensures
            match request_of(json_of(*body)) {
                Some(request) => r matches Ok(parsed) && parsed@ == request,
                None => r matches Err(e) && e.message() == reason(json_of(*body)),
            },
    {
        if !is_object(body) {
            return Err(not_an_object());
        }
        let key = read_str(body, "key")?;
        let special_key = read_i32(body, "specialKey")?;
        let alt = read_bool(body, "alt")?;
        let ctrl = read_bool(body, "ctrl")?;
        let shift = read_bool(body, "shift")?;
        let super_key = read_bool(body, "super")?;
        let singleclick = read_bool(body, "singleclick")?;
        let doubleclick = read_bool(body, "doubleclick")?;
        let middleclick = read_bool(body, "middleclick")?;
        let rightclick = read_bool(body, "rightclick")?;
        let singlehold = read_bool(body, "singlehold")?;
        let singlerelease = read_bool(body, "singlerelease")?;
        let dx = read_number(body, "dx")?;
        let dy = read_number(body, "dy")?;
        let scroll = read_bool(body, "scroll")?;
        let send_ack = read_bool(body, "sendAck")?;
        Ok(
            RemoteInputRequest {
                key,
                special_key,
                alt,
                ctrl,
                shift,
                super_key,
                singleclick,
                doubleclick,
                middleclick,
                rightclick,
                singlehold,
                singlerelease,
                dx,
                dy,
                scroll,
                send_ack,
            },
        )
    }
}

/// Which modifier keys are held.
#[derive(Debug, Clone, Copy, PartialEq, Eq, Structural)]
pub struct Modifiers {
    pub alt: bool,
    pub ctrl: bool,
    pub shift: bool,
    pub super_key: bool,
}

/// One thing a request asks the desktop to do.
#[derive(Debug, Clone, PartialEq, Eq)]
pub enum InputAction {
    /// Move the pointer by the deltas; a missing delta is zero.
    MovePointer { dx: Option<serde_json::Value>, dy: Option<serde_json::Value> },
    /// Scroll by the deltas; a missing delta is zero.
    Scroll { dx: Option<serde_json::Value>, dy: Option<serde_json::Value> },
    SingleClick,
    DoubleClick,
    MiddleClick,
    RightClick,
    /// Press the primary button and hold it.
    SingleHold,
    /// Release the primary button.
    SingleRelease,
    /// Type a printable character.
    Key { key: String, modifiers: Modifiers },
    /// Press a non-printable key, by wire number.
    SpecialKey { code: i32, modifiers: Modifiers },
}

/// What an [`InputAction`] means.
pub enum ActionView {
    MovePointer { dx: Option<Json>, dy: Option<Json> },
    Scroll { dx: Option<Json>, dy: Option<Json> },
    SingleClick,
    DoubleClick,
    MiddleClick,
    RightClick,
    SingleHold,
    SingleRelease,
    Key { key: Seq<char>, modifiers: Modifiers },
    SpecialKey { code: i32, modifiers: Modifiers },
}

impl View for InputAction {
    type V = ActionView;

    open spec fn view(&self) -> ActionView {
        match *self {
            InputAction::MovePointer { dx, dy } => ActionView::MovePointer {
                dx: json_view(dx),
                dy: json_view(dy),
            },
            InputAction::Scroll { dx, dy } => ActionView::Scroll {
                dx: json_view(dx),
                dy: json_view(dy),
            },
            InputAction::SingleClick => ActionView::SingleClick,
            InputAction::DoubleClick => ActionView::DoubleClick,
            InputAction::MiddleClick => ActionView::MiddleClick,
            InputAction::RightClick => ActionView::RightClick,
            InputAction::SingleHold => ActionView::SingleHold,
            InputAction::SingleRelease => ActionView::SingleRelease,
            InputAction::Key { key, modifiers } => ActionView::Key { key: key@, modifiers },
            InputAction::SpecialKey { code, modifiers } => ActionView::SpecialKey {
                code,
                modifiers,
            },
        }
    }
}

/// What a list of actions means, in order.
pub open spec fn action_views(actions: Seq<InputAction>) -> Seq<ActionView> {
    actions.map_values(|a: InputAction| a@)
}

/// `actions` with `action` appended when `wanted`.
pub open spec fn then_if(actions: Seq<ActionView>, wanted: bool, action: ActionView) -> Seq<
    ActionView,
> {
    if wanted {
        actions.push(action)
    } else {
        actions
    }
}

/// The modifier keys a request holds down; a missing modifier is not held.
pub open spec fn modifiers_of(request: RequestView) -> Modifiers {
    Modifiers {
        alt: request.alt == Some(true),
        ctrl: request.ctrl == Some(true),
        shift: request.shift == Some(true),
        super_key: request.super_key == Some(true),
    }
}

/// The motion a request asks for, if it carries a delta on either axis.
pub open spec fn motion_of(request: RequestView) -> ActionView {
    if request.scroll == Some(true) {
        ActionView::Scroll { dx: request.dx, dy: request.dy }
    } else {
        ActionView::MovePointer { dx: request.dx, dy: request.dy }
    }
}

/// Everything a request asks for: motion, then buttons, then keys.
pub open spec fn actions_of(request: RequestView) -> Seq<ActionView> {
    let a = then_if(Seq::empty(), request.dx is Some || request.dy is Some, motion_of(request));
    let a = then_if(a, request.singleclick == Some(true), ActionView::SingleClick);
    let a = then_if(a, request.doubleclick == Some(true), ActionView::DoubleClick);
    let a = then_if(a, request.middleclick == Some(true), ActionView::MiddleClick);
    let a = then_if(a, request.rightclick == Some(true), ActionView::RightClick);
    let a = then_if(a, request.singlehold == Some(true), ActionView::SingleHold);
    let a = then_if(a, request.singlerelease == Some(true), ActionView::SingleRelease);
    let a = then_if(
        a,
        request.key is Some,
        ActionView::Key { key: request.key->0, modifiers: modifiers_of(request) },
    );
    then_if(
        a,
        request.special_key is Some,
        ActionView::SpecialKey { code: request.special_key->0, modifiers: modifiers_of(request) },
    )
}

/// What the plugin answers to a packet of the given type and body.
pub open spec fn response_of(packet_type: Seq<char>, body: Json) -> Option<Seq<ActionView>> {
    if packet_type == PACKET_TYPE_MOUSEPAD_REQUEST@ {
        match request_of(body) {
            Some(request) => Some(actions_of(request)),
            None => None,
        }
    } else {
        Some(Seq::empty())
    }
}

fn held(flag: Option<bool>) -> (r: bool)
    ensures
        r == (flag == Some(true)),
{
    match flag {
        Some(b) => b,
        None => false,
    }
}

fn push_if(actions: &mut Vec<InputAction>, wanted: bool, action: InputAction)
    ensures
        action_views(final(actions)@) == then_if(action_views(old(actions)@), wanted, action@),
{
    if wanted {
        actions.push(action);
        assert(action_views(actions@) =~= action_views(old(actions)@).push(action@));
    }
}

/// Remote Input plugin for pointer and keyboard control.
#[derive(Debug)]
pub struct RemoteInputPlugin {
    device_id: Option<String>,
}

impl RemoteInputPlugin {
    /// A plugin not yet attached to a device.
    pub fn new() -> (plugin: RemoteInputPlugin)
        ensures
            plugin.device() is None,
    {
        RemoteInputPlugin { device_id: None }
    }

    /// The id of the device the plugin serves, once initialised.
    pub closed spec fn device(&self) -> Option<Seq<char>> {
        text_view(self.device_id)
    }

    pub fn device_id(&self) -> (r: Option<String>)
        ensures
            text_view(r) == self.device(),
    {
        match &self.device_id {
            Some(id) => Some(id.clone()),
            None => None,
        }
    }

    pub fn name(&self) -> (r: &'static str)
        ensures
            r@ == "remoteinput"@,
    {
        "remoteinput"
    }

    /// The packet types the plugin consumes.
    pub fn incoming_capabilities(&self) -> (r: Vec<String>)
        ensures
            r@.len() == 1,
            r@[0]@ == PACKET_TYPE_MOUSEPAD_REQUEST@,
    {
        let mut list = Vec::new();
        list.push(PACKET_TYPE_MOUSEPAD_REQUEST.to_owned());
        list
    }

    /// The packet types the plugin produces.
    pub fn outgoing_capabilities(&self) -> (r: Vec<String>)
        ensures
            r@.len() == 1,
            r@[0]@ == PACKET_TYPE_MOUSEPAD_KEYBOARDSTATE@,
    {
        let mut list = Vec::new();
        list.push(PACKET_TYPE_MOUSEPAD_KEYBOARDSTATE.to_owned());
        list
    }

    /// Attaches the plugin to a device.
    pub fn init(&mut self, device: &Device) -> (r: Result<(), ProtocolError>)
        ensures
            r is Ok,
            final(self).device() == Some(device.info.device_id@),
    {
        self.device_id = Some(device.id().to_owned());
        Ok(())
    }

    pub fn start(&mut self) -> (r: Result<(), ProtocolError>)
        ensures
            r is Ok,
            final(self).device() == old(self).device(),
    {
        Ok(())
    }

    pub fn stop(&mut self) -> (r: Result<(), ProtocolError>)
        ensures
            r is Ok,
            final(self).device() == old(self).device(),
    {
        Ok(())
    }

    /// What a parsed request asks for.
    pub fn actions(request: RemoteInputRequest) -> (r: Vec<InputAction>)
        ensures
            action_views(r@) == actions_of(request@),
    {
        let modifiers = Modifiers {
            alt: held(request.alt),
            ctrl: held(request.ctrl),
            shift: held(request.shift),
            super_key: held(request.super_key),
        };
        let mut actions: Vec<InputAction> = Vec::new();
        assert(action_views(actions@) =~= Seq::empty());
        let moves = request.dx.is_some() || request.dy.is_some();
        let motion = if held(request.scroll) {
            InputAction::Scroll { dx: request.dx, dy: request.dy }
        } else {
            InputAction::MovePointer { dx: request.dx, dy: request.dy }
        };
        push_if(&mut actions, moves, motion);
        push_if(&mut actions, held(request.singleclick), InputAction::SingleClick);
        push_if(&mut actions, held(request.doubleclick), InputAction::DoubleClick);
        push_if(&mut actions, held(request.middleclick), InputAction::MiddleClick);
        push_if(&mut actions, held(request.rightclick), InputAction::RightClick);
        push_if(&mut actions, held(request.singlehold), InputAction::SingleHold);
        push_if(&mut actions, held(request.singlerelease), InputAction::SingleRelease);
        match request.key {
            Some(key) => {
                push_if(&mut actions, true, InputAction::Key { key, modifiers });
            },
            None => {},
        }
        match request.special_key {
            Some(code) => {
                push_if(&mut actions, true, InputAction::SpecialKey { code, modifiers });
            },
            None => {},
        }
        actions
    }

    /// Handles a remote input request packet: parses its body and says what
    /// it asks for. A body that is not a well-typed request is malformed.
    pub fn handle_request(&self, packet: &Packet) -> (r: Result<Vec<InputAction>, ProtocolError>)
        ensures
            match request_of(packet@.body) {
                Some(request) => r matches Ok(actions) && action_views(actions@) == actions_of(
                    request,
                ),
                None => r matches Err(e) && parse_failure(e, PARSE_FAILURE@, packet@.body),
            },
    {
        let request = RemoteInputRequest::from_body(&packet.body)?;
        Ok(Self::actions(request))
    }

    /// Handles any packet routed to the plugin. Packets of another type than
    /// the request type are accepted and ask for nothing.
    pub fn handle_packet(&mut self, packet: &Packet, device: &mut Device) -> (r: Result<
        Vec<InputAction>,
        ProtocolError,
    >)
        ensures
            match response_of(packet@.packet_type, packet@.body) {
                Some(actions) => r matches Ok(list) && action_views(list@) == actions,
                None => r matches Err(e) && parse_failure(e, PARSE_FAILURE@, packet@.body),
            },
            final(self).device() == old(self).device(),
            *final(device) == *old(device),
    {
        if packet.is_type(PACKET_TYPE_MOUSEPAD_REQUEST) {
            self.handle_request(packet)
        } else {
            let none: Vec<InputAction> = Vec::new();
            assert(action_views(none@) =~= Seq::empty());
            Ok(none)
        }
    }
}

/// Factory for Remote Input plugin instances, one per paired device.
#[derive(Debug, Clone, Copy)]
pub struct RemoteInputPluginFactory;

impl RemoteInputPluginFactory {
    pub fn name(&self) -> (r: &'static str)
        ensures
            r@ == "remoteinput"@,
    {
        "remoteinput"
    }

    pub fn incoming_capabilities(&self) -> (r: Vec<String>)
        ensures
            r@.len() == 1,
            r@[0]@ == PACKET_TYPE_MOUSEPAD_REQUEST@,
    {
        let mut list = Vec::new();
        list.push(PACKET_TYPE_MOUSEPAD_REQUEST.to_owned());
        list
    }

    pub fn outgoing_capabilities(&self) -> (r: Vec<String>)
        ensures
            r@.len() == 1,
            r@[0]@ == PACKET_TYPE_MOUSEPAD_KEYBOARDSTATE@,
    {
        let mut list = Vec::new();
        list.push(PACKET_TYPE_MOUSEPAD_KEYBOARDSTATE.to_owned());
        list
    }

    /// A fresh plugin, attached to no device.
    pub fn create(&self) -> (plugin: RemoteInputPlugin)
        ensures
            plugin.device() is None,
    {
        RemoteInputPlugin::new()
    }
}

} // verus!
