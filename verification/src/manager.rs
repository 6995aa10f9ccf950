//! The device manager window, as data.
//!
//! The window shows a sidebar of pages and, on the devices page, the known
//! devices grouped by how reachable they are. This module holds the window's
//! state, the rule by which each message changes it, and what the window
//! shows for a given state. Drawing it is the caller's job.

use vstd::prelude::*;
use vstd::hash_map::StringHashMap;
use crate::keyed::StringMap;
use crate::text::str_eq;

verus! {

/// Navigation pages in the manager.
#[derive(Debug, Clone, Copy, PartialEq, Eq, Structural)]
pub enum Page {
    Devices,
    MediaPlayers,
    Transfers,
    History,
    Settings,
}

impl Default for Page {
    fn default() -> (page: Page)
        ensures
            page == Page::Devices,
    {
        Page::Devices
    }
}

impl Page {
    pub open spec fn spec_title(self) -> Seq<char> {
        match self {
            Page::Devices => "Devices"@,
            Page::MediaPlayers => "Media"@,
            Page::Transfers => "Transfers"@,
            Page::History => "History"@,
            Page::Settings => "Settings"@,
        }
    }

    pub open spec fn spec_icon_name(self) -> Seq<char> {
        match self {
            Page::Devices => "computer-symbolic"@,
            Page::MediaPlayers => "multimedia-player-symbolic"@,
            Page::Transfers => "folder-download-symbolic"@,
            Page::History => "document-open-recent-symbolic"@,
            Page::Settings => "preferences-system-symbolic"@,
        }
    }

    /// The heading a page without content of its own shows.
    pub open spec fn spec_heading(self) -> Seq<char> {
        match self {
            Page::Devices => "Devices"@,
            Page::MediaPlayers => "Media Players"@,
            Page::Transfers => "Transfers"@,
            Page::History => "History"@,
            Page::Settings => "Settings"@,
        }
    }

    /// The page's label in the sidebar.
    pub fn title(&self) -> (r: &'static str)
        ensures
            r@ == self.spec_title(),
    {
        match self {
            Page::Devices => "Devices",
            Page::MediaPlayers => "Media",
            Page::Transfers => "Transfers",
            Page::History => "History",
            Page::Settings => "Settings",
        }
    }

    /// The page's icon in the sidebar.
    pub fn icon_name(&self) -> (r: &'static str)
        ensures
            r@ == self.spec_icon_name(),
    {
        match self {
            Page::Devices => "computer-symbolic",
            Page::MediaPlayers => "multimedia-player-symbolic",
            Page::Transfers => "folder-download-symbolic",
            Page::History => "document-open-recent-symbolic",
            Page::Settings => "preferences-system-symbolic",
        }
    }

    fn heading(&self) -> (r: &'static str)
        ensures
            r@ == self.spec_heading(),
    {
        match self {
            Page::Devices => "Devices",
            Page::MediaPlayers => "Media Players",
            Page::Transfers => "Transfers",
            Page::History => "History",
            Page::Settings => "Settings",
        }
    }

    /// The pages, in sidebar order.
    pub open spec fn all() -> Seq<Page> {
        seq![Page::Devices, Page::MediaPlayers, Page::Transfers, Page::History, Page::Settings]
    }
}

/// What the program was started with.
#[derive(Debug, Clone, PartialEq, Eq)]
pub struct Args {
    /// The device to select at start.
    pub device: Option<String>,
    /// The action to run on it, by name.
    pub action: Option<String>,
}

/// What can be done to a device from the command line.
#[derive(Debug, Clone, Copy, PartialEq, Eq, Structural)]
pub enum DeviceAction {
    SendFile,
    Ping,
    Find,
    ScreenShare,
    Settings,
}

impl DeviceAction {
    /// The action a name stands for, if it is the name of one.
    pub open spec fn of(s: Seq<char>) -> Option<DeviceAction> {
        if s == "send-file"@ {
            Some(DeviceAction::SendFile)
        } else if s == "ping"@ {
            Some(DeviceAction::Ping)
        } else if s == "find"@ {
            Some(DeviceAction::Find)
        } else if s == "screen-share"@ {
            Some(DeviceAction::ScreenShare)
        } else if s == "settings"@ {
            Some(DeviceAction::Settings)
        } else {
            None
        }
    }

    pub fn from_str(s: &str) -> (r: Option<DeviceAction>)
        ensures
            r == DeviceAction::of(s@),
    {
        if str_eq(s, "send-file") {
            Some(DeviceAction::SendFile)
        } else if str_eq(s, "ping") {
            Some(DeviceAction::Ping)
        } else if str_eq(s, "find") {
            Some(DeviceAction::Find)
        } else if str_eq(s, "screen-share") {
            Some(DeviceAction::ScreenShare)
        } else if str_eq(s, "settings") {
            Some(DeviceAction::Settings)
        } else {
            None
        }
    }
}

/// The icon for a device type as the daemon names it.
pub open spec fn icon_for(device_type: Seq<char>) -> Seq<char> {
    if device_type == "phone"@ {
        "phone-symbolic"@
    } else if device_type == "tablet"@ {
        "tablet-symbolic"@
    } else if device_type == "desktop"@ || device_type == "laptop"@ {
        "computer-symbolic"@
    } else {
        "network-wireless-symbolic"@
    }
}

pub fn device_icon_name(device_type: &str) -> (r: &'static str)
    ensures
        r@ == icon_for(device_type@),
{
    if str_eq(device_type, "phone") {
        "phone-symbolic"
    } else if str_eq(device_type, "tablet") {
        "tablet-symbolic"
    } else if str_eq(device_type, "desktop") || str_eq(device_type, "laptop") {
        "computer-symbolic"
    } else {
        "network-wireless-symbolic"
    }
}

/// A device as the daemon reports it.
#[derive(Debug, Clone, PartialEq, Eq)]
pub struct DeviceInfo {
    pub name: String,
    pub device_type: String,
    pub is_connected: bool,
    pub is_reachable: bool,
}

/// Which plugins the user switched on for a device.
#[derive(Debug, Clone, Copy, PartialEq, Eq)]
pub struct PluginConfig {
    pub enable_battery: Option<bool>,
}

/// What the user configured for a device.
#[derive(Debug, Clone, PartialEq, Eq)]
pub struct DeviceConfig {
    pub nickname: Option<String>,
    pub plugins: PluginConfig,
}

/// How reachable a device is.
#[derive(Debug, Clone, Copy, PartialEq, Eq, Structural)]
pub enum Reach {
    Connected,
    Available,
    Offline,
}

impl Reach {
    /// A connected device is connected whatever else is said of it; one that
    /// is only reachable is available; any other is offline.
    pub open spec fn of(device: DeviceInfo) -> Reach {
        if device.is_connected {
            Reach::Connected
        } else if device.is_reachable {
            Reach::Available
        } else {
            Reach::Offline
        }
    }

    pub open spec fn label(self) -> Seq<char> {
        match self {
            Reach::Connected => "Connected"@,
            Reach::Available => "Available"@,
            Reach::Offline => "Offline"@,
        }
    }

    pub fn from_device(device: &DeviceInfo) -> (r: Reach)
        ensures
            r == Reach::of(*device),
    {
        if device.is_connected {
            Reach::Connected
        } else if device.is_reachable {
            Reach::Available
        } else {
            Reach::Offline
        }
    }

    pub fn as_str(&self) -> (r: &'static str)
        ensures
            r@ == self.label(),
    {
        match self {
            Reach::Connected => "Connected",
            Reach::Available => "Available",
            Reach::Offline => "Offline",
        }
    }
}

/// The status line of a device.
pub fn connection_status(device: &DeviceInfo) -> (r: &'static str)
    ensures
        r@ == Reach::of(*device).label(),
{
    Reach::from_device(device).as_str()
}

/// Something that happened to the window.
#[derive(Debug)]
pub enum Message {
    NavigateTo(Page),
    SelectDevice(String),
    DevicesUpdated(StringMap<DeviceInfo>),
    DeviceConfigLoaded(String, DeviceConfig),
    ExecuteAction(String, DeviceAction),
    /// The connection to the daemon is up.
    DbusReady,
    Nothing,
}

/// The state of the manager window.
pub struct ManagerState {
    pub active_page: Page,
    pub devices: StringMap<DeviceInfo>,
    pub device_configs: StringHashMap<DeviceConfig>,
    pub selected_device: Option<String>,
    pub initial_device: Option<String>,
    pub initial_action: Option<DeviceAction>,
    pub dbus_ready: bool,
}

pub open spec fn opt_text(s: Option<String>) -> Option<Seq<char>> {
    match s {
        Some(s) => Some(s@),
        None => None,
    }
}

/// One entry of the sidebar.
#[derive(Debug, Clone, Copy, PartialEq, Eq)]
pub struct NavEntry {
    pub page: Page,
    pub title: &'static str,
    pub icon_name: &'static str,
    /// Whether this is the page being shown.
    pub active: bool,
}

/// What the content area shows.
#[derive(Debug, Clone, Copy, PartialEq, Eq)]
pub enum Content {
    /// The grouped device list.
    DeviceList,
    /// A page still to come: its heading and icon.
    Placeholder { title: &'static str, icon_name: &'static str },
}

/// How one device is shown in the list.
#[derive(Debug, Clone, PartialEq, Eq)]
pub struct DeviceCard {
    pub device_id: String,
    pub icon_name: &'static str,
    /// The nickname the user gave the device, or else its own name.
    pub display_name: String,
    pub status: &'static str,
    /// Whether to show the battery indicator.
    pub battery: bool,
    pub selected: bool,
}

/// What a [`DeviceCard`] means.
pub struct CardView {
    pub device_id: Seq<char>,
    pub icon_name: Seq<char>,
    pub display_name: Seq<char>,
    pub status: Seq<char>,
    pub battery: bool,
    pub selected: bool,
}

impl View for DeviceCard {
    type V = CardView;

    open spec fn view(&self) -> CardView {
        CardView {
            device_id: self.device_id@,
            icon_name: self.icon_name@,
            display_name: self.display_name@,
            status: self.status@,
            battery: self.battery,
            selected: self.selected,
        }
    }
}

/// The card for a device. The nickname wins over the device's own name; the
/// battery indicator shows for a configured device unless switched off.
pub open spec fn card_of(
    device_id: Seq<char>,
    device: DeviceInfo,
    config: Option<DeviceConfig>,
    selected: bool,
) -> CardView {
    CardView {
        device_id,
        icon_name: icon_for(device.device_type@),
        display_name: match config {
            Some(DeviceConfig { nickname: Some(nickname), .. }) => nickname@,
            _ => device.name@,
        },
        status: Reach::of(device).label(),
        battery: match config {
            Some(c) => c.plugins.enable_battery != Some(false),
            None => false,
        },
        selected,
    }
}

/// Builds the card for a device.
pub fn device_card(
    device_id: &str,
    device: &DeviceInfo,
    config: Option<&DeviceConfig>,
    is_selected: bool,
) -> (card: DeviceCard)
    ensures
        card@ == card_of(
            device_id@,
            *device,
            match config {
                Some(c) => Some(*c),
                None => None,
            },
            is_selected,
        ),
{
    let display_name = match config {
        Some(c) => match &c.nickname {
            Some(nickname) => nickname.clone(),
            None => device.name.clone(),
        },
        None => device.name.clone(),
    };
    let battery = match config {
        Some(c) => match c.plugins.enable_battery {
            Some(enabled) => enabled,
            None => true,
        },
        None => false,
    };
    DeviceCard {
        device_id: device_id.to_owned(),
        icon_name: device_icon_name(device.device_type.as_str()),
        display_name,
        status: connection_status(device),
        battery,
        selected: is_selected,
    }
}

/// The device list, section by section.
#[derive(Debug, Clone, PartialEq, Eq)]
pub struct DeviceSections {
    pub connected: Vec<DeviceCard>,
    pub available: Vec<DeviceCard>,
    pub offline: Vec<DeviceCard>,
    /// Whether to show the "no devices found" notice instead.
    pub empty: bool,
}

pub open spec fn card_views(cards: Seq<DeviceCard>) -> Seq<CardView> {
    cards.map_values(|c: DeviceCard| c@)
}

pub open spec fn config_of(configs: Map<Seq<char>, DeviceConfig>, id: Seq<char>) -> Option<
    DeviceConfig,
> {
    if configs.contains_key(id) {
        Some(configs[id])
    } else {
        None
    }
}

/// The cards of one section: those of the first `n` devices, in order, whose
/// reach is `reach`.
pub open spec fn section(
    order: Seq<Seq<char>>,
    devices: Map<Seq<char>, DeviceInfo>,
    configs: Map<Seq<char>, DeviceConfig>,
    selected: Option<Seq<char>>,
    reach: Reach,
    n: int,
) -> Seq<CardView>
    decreases n,
{
    if n <= 0 {
        Seq::empty()
    } else {
        let id = order[n - 1];
        let rest = section(order, devices, configs, selected, reach, n - 1);
        if Reach::of(devices[id]) == reach {
            rest.push(card_of(id, devices[id], config_of(configs, id), selected == Some(id)))
        } else {
            rest
        }
    }
}

impl ManagerState {
    /// The state the window starts in: the devices page, no devices known,
    /// the device named on the command line selected, and the action named
    /// there remembered if it is one.
    pub fn init(flags: Args) -> (state: ManagerState)
        ensures
            state.active_page == Page::Devices,
            state.devices@ == Map::<Seq<char>, DeviceInfo>::empty(),
            state.devices.order() == Seq::<Seq<char>>::empty(),
            state.device_configs@ == Map::<Seq<char>, DeviceConfig>::empty(),
            opt_text(state.selected_device) == opt_text(flags.device),
            opt_text(state.initial_device) == opt_text(flags.device),
            state.initial_action == match flags.action {
                Some(name) => DeviceAction::of(name@),
                None => None,
            },
            !state.dbus_ready,
    {
        let initial_action = match &flags.action {
            Some(name) => DeviceAction::from_str(name.as_str()),
            None => None,
        };
        let selected_device = match &flags.device {
            Some(id) => Some(id.clone()),
            None => None,
        };
        ManagerState {
            active_page: Page::Devices,
            devices: StringMap::new(),
            device_configs: StringHashMap::new(),
            selected_device,
            initial_device: flags.device,
            initial_action,
            dbus_ready: false,
        }
    }

    /// Applies one message. Each message changes the one thing it names and
    /// leaves the rest of the state alone.
    pub fn update(&mut self, message: Message)
        ensures
            final(self).active_page == match message {
                Message::NavigateTo(page) => page,
                _ => old(self).active_page,
            },
            opt_text(final(self).selected_device) == match message {
                Message::SelectDevice(id) => Some(id@),
                _ => opt_text(old(self).selected_device),
            },
            final(self).devices@ == match message {
                Message::DevicesUpdated(devices) => devices@,
                _ => old(self).devices@,
            },
            final(self).devices.order() == match message {
                Message::DevicesUpdated(devices) => devices.order(),
                _ => old(self).devices.order(),
            },
            final(self).device_configs@ == match message {
                Message::DeviceConfigLoaded(id, config) => old(self).device_configs@.insert(
                    id@,
                    config,
                ),
                _ => old(self).device_configs@,
            },
            final(self).dbus_ready == (message is DbusReady || old(self).dbus_ready),
            final(self).initial_device == old(self).initial_device,
            final(self).initial_action == old(self).initial_action,
    {
        match message {
            Message::NavigateTo(page) => {
                self.active_page = page;
            },
            Message::SelectDevice(device_id) => {
                self.selected_device = Some(device_id);
            },
            Message::DevicesUpdated(devices) => {
                self.devices = devices;
            },
            Message::DeviceConfigLoaded(device_id, config) => {
                self.device_configs.insert(device_id, config);
            },
            Message::ExecuteAction(_, _) => {},
            Message::DbusReady => {
                self.dbus_ready = true;
            },
            Message::Nothing => {},
        }
    }

    /// The sidebar: every page in order, the active one marked.
    pub fn sidebar_view(&self) -> (entries: Vec<NavEntry>)
        ensures
            entries.len() == 5,
            forall|i: int|
                0 <= i < 5 ==> {
                    let entry = #[trigger] entries[i];
                    &&& entry.page == Page::all()[i]
                    &&& entry.title@ == entry.page.spec_title()
                    &&& entry.icon_name@ == entry.page.spec_icon_name()
                    &&& entry.active == (entry.page == self.active_page)
                },
    {
        let mut entries: Vec<NavEntry> = Vec::new();
        entries.push(self.nav_entry(Page::Devices));
        entries.push(self.nav_entry(Page::MediaPlayers));
        entries.push(self.nav_entry(Page::Transfers));
        entries.push(self.nav_entry(Page::History));
        entries.push(self.nav_entry(Page::Settings));
        entries
    }

    fn nav_entry(&self, page: Page) -> (entry: NavEntry)
        ensures
            entry.page == page,
            entry.title@ == page.spec_title(),
            entry.icon_name@ == page.spec_icon_name(),
            entry.active == (page == self.active_page),
    {
        NavEntry {
            page,
            title: page.title(),
            icon_name: page.icon_name(),
            active: page == self.active_page,
        }
    }

    /// What the content area shows for the active page: the device list on
    /// the devices page, a placeholder on every other.
    pub fn content_view(&self) -> (content: Content)
        ensures
            match content {
                Content::DeviceList => self.active_page == Page::Devices,
                Content::Placeholder { title, icon_name } => self.active_page != Page::Devices
                    && title@ == self.active_page.spec_heading() && icon_name@
                    == self.active_page.spec_icon_name(),
            },
    {
        match self.active_page {
            Page::Devices => Content::DeviceList,
            page => Content::Placeholder { title: page.heading(), icon_name: page.icon_name() },
        }
    }

    /// The device list: every known device appears once, in the section its
    /// reach calls for, in the order the devices are held in.
    pub fn device_list_view(&self) -> (sections: DeviceSections)
        ensures
            card_views(sections.connected@) == self.spec_section(Reach::Connected),
            card_views(sections.available@) == self.spec_section(Reach::Available),
            card_views(sections.offline@) == self.spec_section(Reach::Offline),
            sections.empty == (self.devices.order().len() == 0),
    {
        let ghost order = self.devices.order();
        let ghost devices = self.devices@;
        let ghost configs = self.device_configs@;
        let ghost selected = opt_text(self.selected_device);
        let mut connected: Vec<DeviceCard> = Vec::new();
        let mut available: Vec<DeviceCard> = Vec::new();
        let mut offline: Vec<DeviceCard> = Vec::new();
        let n = self.devices.len();
        let mut i: usize = 0;
        assert(card_views(connected@) =~= Seq::<CardView>::empty());
        assert(card_views(available@) =~= Seq::<CardView>::empty());
        assert(card_views(offline@) =~= Seq::<CardView>::empty());
        while i < n
            invariant
                i <= n,
                n == order.len(),
                order == self.devices.order(),
                devices == self.devices@,
                configs == self.device_configs@,
                selected == opt_text(self.selected_device),
                card_views(connected@) == section(
                    order,
                    devices,
                    configs,
                    selected,
                    Reach::Connected,
                    i as int,
                ),
                card_views(available@) == section(
                    order,
                    devices,
                    configs,
                    selected,
                    Reach::Available,
                    i as int,
                ),
                card_views(offline@) == section(
                    order,
                    devices,
                    configs,
                    selected,
                    Reach::Offline,
                    i as int,
                ),
            decreases n - i,
        {
            let device_id = self.devices.key_at(i);
            let device = self.devices.value_at(i);
            let config = self.device_configs.get(device_id);
            let is_selected = match &self.selected_device {
                Some(id) => str_eq(id.as_str(), device_id),
                None => false,
            };
            let card = device_card(device_id, device, config, is_selected);
            match Reach::from_device(device) {
                Reach::Connected => {
                    let ghost before = connected@;
                    connected.push(card);
                    assert(card_views(connected@) =~= card_views(before).push(card@));
                },
                Reach::Available => {
                    let ghost before = available@;
                    available.push(card);
                    assert(card_views(available@) =~= card_views(before).push(card@));
                },
                Reach::Offline => {
                    let ghost before = offline@;
                    offline.push(card);
                    assert(card_views(offline@) =~= card_views(before).push(card@));
                },
            }
            i += 1;
        }
        DeviceSections { connected, available, offline, empty: n == 0 }
    }

    /// The cards of one section of the device list.
    pub open spec fn spec_section(&self, reach: Reach) -> Seq<CardView> {
        section(
            self.devices.order(),
            self.devices@,
            self.device_configs@,
            opt_text(self.selected_device),
            reach,
            self.devices.order().len() as int,
        )
    }
}

} // verus!
