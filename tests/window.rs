use action_radar::error::RadarError;
use action_radar::platform::{
    clickable_notifications_supported, notification_follow_up, notification_settings_uri,
    NotificationReply, Platform,
};
use action_radar::window::{on_ui_event, UiAction, UiEvent, UiStep, WindowState};

#[test]
fn close_request_hides_instead_of_quitting() {
    let step = on_ui_event(WindowState::Visible, UiEvent::CloseRequested);
    assert_eq!(step, UiStep { next: WindowState::Hidden, action: UiAction::VetoCloseAndHide });
}

#[test]
fn quit_exits_in_any_state() {
    for state in [WindowState::Visible, WindowState::Hidden] {
        let step = on_ui_event(state, UiEvent::MenuSelected { id: "quit".to_string() });
        assert_eq!(step, UiStep { next: state, action: UiAction::Exit { code: 0 } });
    }
    let other = on_ui_event(WindowState::Hidden, UiEvent::MenuSelected { id: "about".to_string() });
    assert_eq!(other.action, UiAction::Nothing);
}

#[test]
fn left_click_release_toggles_the_window() {
    let click = || UiEvent::TrayClick { left_button: true, released: true };
    assert_eq!(
        on_ui_event(WindowState::Hidden, click()),
        UiStep { next: WindowState::Visible, action: UiAction::ShowAndFocus }
    );
    assert_eq!(
        on_ui_event(WindowState::Visible, click()),
        UiStep { next: WindowState::Hidden, action: UiAction::Hide }
    );
    let press = UiEvent::TrayClick { left_button: true, released: false };
    assert_eq!(on_ui_event(WindowState::Hidden, press).action, UiAction::Nothing);
    let right = UiEvent::TrayClick { left_button: false, released: true };
    assert_eq!(on_ui_event(WindowState::Visible, right).next, WindowState::Visible);
}

#[test]
fn show_request_restores_the_window() {
    assert_eq!(
        on_ui_event(WindowState::Hidden, UiEvent::ShowRequested),
        UiStep { next: WindowState::Visible, action: UiAction::UnminimizeShowAndFocus }
    );
}

#[test]
fn settings_links_per_platform() {
    assert_eq!(
        notification_settings_uri(Platform::MacOs),
        Ok("x-apple.systempreferences:com.apple.preference.notifications".to_string())
    );
    assert_eq!(notification_settings_uri(Platform::Windows), Ok("ms-settings:notifications".to_string()));
    assert_eq!(notification_settings_uri(Platform::Other), Err(RadarError::UnsupportedPlatform));
    assert_eq!(clickable_notifications_supported(Platform::MacOs), Ok(()));
    assert_eq!(clickable_notifications_supported(Platform::Windows), Err(RadarError::UnsupportedPlatform));
}

#[test]
fn notification_answers_decide_the_follow_up() {
    let r = notification_follow_up(NotificationReply::Click, "review".to_string());
    assert!(r.show_window);
    assert_eq!(r.open_tab, Some("review".to_string()));
    let r = notification_follow_up(NotificationReply::ActionButton, "bogus".to_string());
    assert!(r.show_window);
    assert_eq!(r.open_tab, None);
    let r = notification_follow_up(NotificationReply::CloseButton, "assigned".to_string());
    assert!(!r.show_window);
    assert_eq!(r.open_tab, None);
    let r = notification_follow_up(NotificationReply::Failed, "assigned".to_string());
    assert!(!r.show_window);
}
