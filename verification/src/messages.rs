//! The messaging window: which web messenger it shows.

use vstd::prelude::*;

verus! {

/// The web messengers the window can show.
#[derive(Debug, Clone, Copy, PartialEq, Eq, Structural)]
pub enum MessengerType {
    GoogleMessages,
    WhatsApp,
    Telegram,
    Signal,
    Discord,
    Slack,
}

impl MessengerType {
    pub open spec fn spec_web_url(self) -> Seq<char> {
        match self {
            MessengerType::GoogleMessages => "https://messages.google.com/web"@,
            MessengerType::WhatsApp => "https://web.whatsapp.com"@,
            MessengerType::Telegram => "https://web.telegram.org"@,
            MessengerType::Signal => "https://signal.link"@,
            MessengerType::Discord => "https://discord.com/app"@,
            MessengerType::Slack => "https://app.slack.com"@,
        }
    }

    pub open spec fn spec_display_name(self) -> Seq<char> {
        match self {
            MessengerType::GoogleMessages => "Messages"@,
            MessengerType::WhatsApp => "WhatsApp"@,
            MessengerType::Telegram => "Telegram"@,
            MessengerType::Signal => "Signal"@,
            MessengerType::Discord => "Discord"@,
            MessengerType::Slack => "Slack"@,
        }
    }

    /// Where the messenger's web client lives.
    pub fn web_url(&self) -> (r: &'static str)
        ensures
            r@ == self.spec_web_url(),
    {
        match self {
            MessengerType::GoogleMessages => "https://messages.google.com/web",
            MessengerType::WhatsApp => "https://web.whatsapp.com",
            MessengerType::Telegram => "https://web.telegram.org",
            MessengerType::Signal => "https://signal.link",
            MessengerType::Discord => "https://discord.com/app",
            MessengerType::Slack => "https://app.slack.com",
        }
    }

    /// The messenger's name as shown to the user.
    pub fn display_name(&self) -> (r: &'static str)
        ensures
            r@ == self.spec_display_name(),
    {
        match self {
            MessengerType::GoogleMessages => "Messages",
            MessengerType::WhatsApp => "WhatsApp",
            MessengerType::Telegram => "Telegram",
            MessengerType::Signal => "Signal",
            MessengerType::Discord => "Discord",
            MessengerType::Slack => "Slack",
        }
    }
}

/// A message that arrived in one of the messengers.
#[derive(Debug, Clone, PartialEq, Eq)]
pub struct MessagingNotification {
    pub messenger: MessengerType,
    pub sender: String,
    pub message: String,
    pub conversation_id: Option<String>,
}

/// Something that happened to the window.
#[derive(Debug, Clone, PartialEq, Eq)]
pub enum Message {
    SwitchMessenger(MessengerType),
    NotificationReceived(MessagingNotification),
    WebViewCreated,
}

/// The state of the messaging window.
#[derive(Debug, Clone, Copy, PartialEq, Eq)]
pub struct MessagesState {
    pub current_messenger: MessengerType,
}

/// The messenger a message brings to the front, if it brings one.
pub open spec fn messenger_of(message: Message) -> Option<MessengerType> {
    match message {
        Message::SwitchMessenger(m) => Some(m),
        Message::NotificationReceived(notification) => Some(notification.messenger),
        Message::WebViewCreated => None,
    }
}

impl MessagesState {
    /// The window starts on Google Messages.
    pub fn init() -> (state: MessagesState)
        ensures
            state.current_messenger == MessengerType::GoogleMessages,
    {
        MessagesState { current_messenger: MessengerType::GoogleMessages }
    }

    /// Applies one message. A switch, and a notification, bring their
    /// messenger to the front; the result is the address the web view is to
    /// load, if the message calls for loading one.
    pub fn update(&mut self, message: Message) -> (load: Option<&'static str>)
        ensures
            match messenger_of(message) {
                Some(m) => {
                    &&& final(self).current_messenger == m
                    &&& load matches Some(url)
                    &&& url@ == m.spec_web_url()
                },
                None => final(self).current_messenger == old(self).current_messenger
                    && load is None,
            },
    {
        match message {
            Message::SwitchMessenger(m) => {
                self.current_messenger = m;
                Some(m.web_url())
            },
            Message::NotificationReceived(notification) => {
                self.current_messenger = notification.messenger;
                Some(notification.messenger.web_url())
            },
            Message::WebViewCreated => None,
        }
    }
}

} // verus!
