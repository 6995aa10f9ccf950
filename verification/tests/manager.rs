use cosmic_connect::keyed::StringMap;
use cosmic_connect::manager::{
    connection_status, device_card, device_icon_name, Args, Content, DeviceAction, DeviceConfig,
    DeviceInfo, ManagerState, Message, Page, PluginConfig, Reach,
};

fn shown(name: &str, device_type: &str, is_connected: bool, is_reachable: bool) -> DeviceInfo {
    DeviceInfo {
        name: name.to_string(),
        device_type: device_type.to_string(),
        is_connected,
        is_reachable,
    }
}

fn no_args() -> Args {
    Args { device: None, action: None }
}

#[test]
fn page_titles_and_icons() {
    let pages = [
        (Page::Devices, "Devices", "computer-symbolic"),
        (Page::MediaPlayers, "Media", "multimedia-player-symbolic"),
        (Page::Transfers, "Transfers", "folder-download-symbolic"),
        (Page::History, "History", "document-open-recent-symbolic"),
        (Page::Settings, "Settings", "preferences-system-symbolic"),
    ];
    for (page, title, icon) in pages {
        assert_eq!(page.title(), title);
        assert_eq!(page.icon_name(), icon);
    }
    assert_eq!(Page::default(), Page::Devices);
}

#[test]
fn device_action_names() {
    assert_eq!(DeviceAction::from_str("send-file"), Some(DeviceAction::SendFile));
    assert_eq!(DeviceAction::from_str("ping"), Some(DeviceAction::Ping));
    assert_eq!(DeviceAction::from_str("find"), Some(DeviceAction::Find));
    assert_eq!(DeviceAction::from_str("screen-share"), Some(DeviceAction::ScreenShare));
    assert_eq!(DeviceAction::from_str("settings"), Some(DeviceAction::Settings));
    for s in ["", "Ping", "sendfile", "send_file", "ping "] {
        assert_eq!(DeviceAction::from_str(s), None);
    }
}

#[test]
fn device_icons_and_status() {
    assert_eq!(device_icon_name("phone"), "phone-symbolic");
    assert_eq!(device_icon_name("tablet"), "tablet-symbolic");
    assert_eq!(device_icon_name("desktop"), "computer-symbolic");
    assert_eq!(device_icon_name("laptop"), "computer-symbolic");
    assert_eq!(device_icon_name("tv"), "network-wireless-symbolic");
    assert_eq!(device_icon_name("Phone"), "network-wireless-symbolic");
    assert_eq!(device_icon_name(""), "network-wireless-symbolic");
    assert_eq!(connection_status(&shown("a", "phone", true, true)), "Connected");
    assert_eq!(connection_status(&shown("a", "phone", true, false)), "Connected");
    assert_eq!(connection_status(&shown("a", "phone", false, true)), "Available");
    assert_eq!(connection_status(&shown("a", "phone", false, false)), "Offline");
    assert_eq!(Reach::from_device(&shown("a", "phone", false, true)), Reach::Available);
}

#[test]
fn manager_starts_from_the_command_line() {
    let state = ManagerState::init(Args {
        device: Some("dev-1".to_string()),
        action: Some("ping".to_string()),
    });
    assert_eq!(state.active_page, Page::Devices);
    assert_eq!(state.selected_device, Some("dev-1".to_string()));
    assert_eq!(state.initial_device, Some("dev-1".to_string()));
    assert_eq!(state.initial_action, Some(DeviceAction::Ping));
    assert!(!state.dbus_ready);
    assert_eq!(state.devices.len(), 0);
    assert_eq!(state.device_configs.len(), 0);
    let plain = ManagerState::init(Args { device: None, action: Some("dance".to_string()) });
    assert_eq!(plain.selected_device, None);
    assert_eq!(plain.initial_action, None);
}

#[test]
fn manager_messages_change_one_thing_each() {
    let mut state = ManagerState::init(no_args());
    state.update(Message::NavigateTo(Page::History));
    assert_eq!(state.active_page, Page::History);
    state.update(Message::SelectDevice("dev-2".to_string()));
    assert_eq!(state.selected_device, Some("dev-2".to_string()));
    assert_eq!(state.active_page, Page::History);
    let mut devices = StringMap::new();
    devices.insert("dev-2", shown("Phone", "phone", true, true));
    state.update(Message::DevicesUpdated(devices));
    assert_eq!(state.devices.len(), 1);
    assert_eq!(state.devices.get("dev-2"), Some(&shown("Phone", "phone", true, true)));
    let config = DeviceConfig {
        nickname: Some("Mine".to_string()),
        plugins: PluginConfig { enable_battery: None },
    };
    state.update(Message::DeviceConfigLoaded("dev-2".to_string(), config.clone()));
    assert_eq!(state.device_configs.get("dev-2"), Some(&config));
    state.update(Message::ExecuteAction("dev-2".to_string(), DeviceAction::Find));
    state.update(Message::Nothing);
    assert!(!state.dbus_ready);
    state.update(Message::DbusReady);
    assert!(state.dbus_ready);
    assert_eq!(state.selected_device, Some("dev-2".to_string()));
    assert_eq!(state.active_page, Page::History);
}

#[test]
fn sidebar_lists_every_page_and_marks_the_active_one() {
    let mut state = ManagerState::init(no_args());
    state.update(Message::NavigateTo(Page::Transfers));
    let entries = state.sidebar_view();
    let pages: Vec<Page> = entries.iter().map(|e| e.page).collect();
    assert_eq!(
        pages,
        vec![Page::Devices, Page::MediaPlayers, Page::Transfers, Page::History, Page::Settings]
    );
    let active: Vec<bool> = entries.iter().map(|e| e.active).collect();
    assert_eq!(active, vec![false, false, true, false, false]);
    assert_eq!(entries[1].title, "Media");
    assert_eq!(entries[4].icon_name, "preferences-system-symbolic");
}

#[test]
fn content_is_the_device_list_or_a_placeholder() {
    let mut state = ManagerState::init(no_args());
    assert_eq!(state.content_view(), Content::DeviceList);
    let others = [
        (Page::MediaPlayers, "Media Players", "multimedia-player-symbolic"),
        (Page::Transfers, "Transfers", "folder-download-symbolic"),
        (Page::History, "History", "document-open-recent-symbolic"),
        (Page::Settings, "Settings", "preferences-system-symbolic"),
    ];
    for (page, title, icon_name) in others {
        state.update(Message::NavigateTo(page));
        assert_eq!(state.content_view(), Content::Placeholder { title, icon_name });
    }
}

#[test]
fn device_card_prefers_the_nickname() {
    let device = shown("Pixel", "phone", false, true);
    let bare = device_card("dev-1", &device, None, false);
    assert_eq!(bare.device_id, "dev-1");
    assert_eq!(bare.display_name, "Pixel");
    assert_eq!(bare.icon_name, "phone-symbolic");
    assert_eq!(bare.status, "Available");
    assert!(!bare.battery);
    assert!(!bare.selected);
    let named = DeviceConfig {
        nickname: Some("Work phone".to_string()),
        plugins: PluginConfig { enable_battery: Some(false) },
    };
    let card = device_card("dev-1", &device, Some(&named), true);
    assert_eq!(card.display_name, "Work phone");
    assert!(!card.battery);
    assert!(card.selected);
    let unnamed = DeviceConfig { nickname: None, plugins: PluginConfig { enable_battery: None } };
    let card = device_card("dev-1", &device, Some(&unnamed), false);
    assert_eq!(card.display_name, "Pixel");
    assert!(card.battery);
    let on = DeviceConfig { nickname: None, plugins: PluginConfig { enable_battery: Some(true) } };
    assert!(device_card("dev-1", &device, Some(&on), false).battery);
}

#[test]
fn device_list_groups_by_reach_in_order() {
    let mut state = ManagerState::init(Args { device: Some("c".to_string()), action: None });
    let empty = state.device_list_view();
    assert!(empty.empty);
    assert!(empty.connected.is_empty() && empty.available.is_empty() && empty.offline.is_empty());
    let mut devices = StringMap::new();
    devices.insert("a", shown("A", "phone", false, false));
    devices.insert("b", shown("B", "tablet", true, true));
    devices.insert("c", shown("C", "laptop", false, true));
    devices.insert("d", shown("D", "desktop", true, false));
    devices.insert("e", shown("E", "tv", false, true));
    state.update(Message::DevicesUpdated(devices));
    state.update(Message::DeviceConfigLoaded(
        "d".to_string(),
        DeviceConfig { nickname: Some("Tower".to_string()), plugins: PluginConfig { enable_battery: None } },
    ));
    let sections = state.device_list_view();
    assert!(!sections.empty);
    let ids = |cards: &Vec<cosmic_connect::manager::DeviceCard>| -> Vec<String> {
        cards.iter().map(|c| c.device_id.clone()).collect()
    };
    assert_eq!(ids(&sections.connected), vec!["b", "d"]);
    assert_eq!(ids(&sections.available), vec!["c", "e"]);
    assert_eq!(ids(&sections.offline), vec!["a"]);
    assert_eq!(sections.connected[1].display_name, "Tower");
    assert!(sections.connected[1].battery);
    assert!(sections.available[0].selected);
    assert!(!sections.available[1].selected);
    assert_eq!(sections.offline[0].status, "Offline");
}
