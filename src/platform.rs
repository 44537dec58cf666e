//! Per-platform capabilities: the notification-settings deep link, clickable
//! notifications, and what a clicked notification leads to.

use vstd::prelude::*;
use vstd::string::*;
use crate::error::RadarError;
use crate::handoff::{is_known_tab, is_notification_tab, opt_text};

verus! {

/// The operating systems the application tells apart.
#[derive(Clone, Copy, Debug, PartialEq, Eq, Structural)]
pub enum Platform {
    MacOs,
    Windows,
    Other,
}

/// Deep link into the system's notification settings, where one exists.
pub open spec fn settings_link(platform: Platform) -> Option<Seq<char>> {
    match platform {
        Platform::MacOs => Some("x-apple.systempreferences:com.apple.preference.notifications"@),
        Platform::Windows => Some("ms-settings:notifications"@),
        Platform::Other => None,
    }
}

/// The URI that opens the notification settings on `platform`, or
/// `UnsupportedPlatform` where there is none.
pub fn notification_settings_uri(platform: Platform) -> (r: Result<String, RadarError>)
    ensures
        settings_link(platform) matches Some(link) ==> (r matches Ok(s) && s@ == link),
        settings_link(platform) is None ==> r == Err::<String, RadarError>(
            RadarError::UnsupportedPlatform,
        ),
{
    match platform {
        Platform::MacOs => Ok(
            String::from_str("x-apple.systempreferences:com.apple.preference.notifications"),
        ),
        Platform::Windows => Ok(String::from_str("ms-settings:notifications")),
        Platform::Other => Err(RadarError::UnsupportedPlatform),
    }
}

/// Clickable notifications, which wait for the user's answer, exist on macOS
/// only; elsewhere the request fails with `UnsupportedPlatform`.
pub fn clickable_notifications_supported(platform: Platform) -> (r: Result<(), RadarError>)
    ensures
        platform == Platform::MacOs ==> r is Ok,
        platform != Platform::MacOs ==> r == Err::<(), RadarError>(RadarError::UnsupportedPlatform),
{
    match platform {
        Platform::MacOs => Ok(()),
        _ => Err(RadarError::UnsupportedPlatform),
    }
}

/// How the user answered a clickable notification.
#[derive(Clone, Copy, Debug, PartialEq, Eq, Structural)]
pub enum NotificationReply {
    /// The notification body was clicked.
    Click,
    /// The "open" action button was pressed.
    ActionButton,
    /// The notification was dismissed.
    CloseButton,
    /// A text reply was sent.
    Reply,
    /// The notification went away without an answer.
    NoResponse,
    /// Sending the notification failed.
    Failed,
}

/// The answers that bring the application forward.
pub open spec fn opens_app(reply: NotificationReply) -> bool {
    reply == NotificationReply::Click || reply == NotificationReply::ActionButton
}

/// What the application does once a notification is answered.
pub struct ClickFollowUp {
    /// Bring the main window forward.
    pub show_window: bool,
    /// The tab to hand to the UI, through the pending slot and as an event.
    pub open_tab: Option<String>,
}

/// Decides what follows an answer to a notification that asked for
/// `open_tab`: a click or the action button shows the window, and a known tab
/// identifier is passed on; anything else is dropped.
pub fn notification_follow_up(reply: NotificationReply, open_tab: String) -> (r: ClickFollowUp)
    ensures
        r.show_window == opens_app(reply),
        opt_text(r.open_tab) == if opens_app(reply) && is_known_tab(open_tab@) {
            Some(open_tab@)
        } else {
            None
        },
{
    let opens = match reply {
        NotificationReply::Click | NotificationReply::ActionButton => true,
        _ => false,
    };
    if opens && is_notification_tab(&open_tab) {
        ClickFollowUp { show_window: true, open_tab: Some(open_tab) }
    } else {
        ClickFollowUp { show_window: opens, open_tab: None }
    }
}

} // verus!
