use cosmic_connect::messages::{Message, MessagesState, MessagingNotification, MessengerType};

#[test]
fn messenger_urls_and_names() {
    let all = [
        (MessengerType::GoogleMessages, "https://messages.google.com/web", "Messages"),
        (MessengerType::WhatsApp, "https://web.whatsapp.com", "WhatsApp"),
        (MessengerType::Telegram, "https://web.telegram.org", "Telegram"),
        (MessengerType::Signal, "https://signal.link", "Signal"),
        (MessengerType::Discord, "https://discord.com/app", "Discord"),
        (MessengerType::Slack, "https://app.slack.com", "Slack"),
    ];
    for (m, url, name) in all {
        assert_eq!(m.web_url(), url);
        assert_eq!(m.display_name(), name);
    }
}

#[test]
fn messages_window_follows_switches_and_notifications() {
    let mut state = MessagesState::init();
    assert_eq!(state.current_messenger, MessengerType::GoogleMessages);
    assert_eq!(state.update(Message::WebViewCreated), None);
    assert_eq!(state.current_messenger, MessengerType::GoogleMessages);
    assert_eq!(
        state.update(Message::SwitchMessenger(MessengerType::Telegram)),
        Some("https://web.telegram.org")
    );
    assert_eq!(state.current_messenger, MessengerType::Telegram);
    let notification = MessagingNotification {
        messenger: MessengerType::Signal,
        sender: "Ann".to_string(),
        message: "hi".to_string(),
        conversation_id: None,
    };
    assert_eq!(state.update(Message::NotificationReceived(notification)), Some("https://signal.link"));
    assert_eq!(state.current_messenger, MessengerType::Signal);
}
