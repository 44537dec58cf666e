//! The main window's visibility rules and the tray's click and menu dispatch.
//! Closing the window only hides it; the quit menu item is the one way out.

use vstd::prelude::*;
use vstd::string::*;

verus! {

/// Menu id of the quit item.
pub const QUIT_MENU_ID: &'static str = "quit";

/// Whether the main window is on screen.
#[derive(Clone, Copy, Debug, PartialEq, Eq, Structural)]
pub enum WindowState {
    Visible,
    Hidden,
}

/// Something the host runtime reports.
pub enum UiEvent {
    /// A click on the tray icon.
    TrayClick { left_button: bool, released: bool },
    /// The user asked to close the main window.
    CloseRequested,
    /// A tray menu item was chosen.
    MenuSelected { id: String },
    /// Something in the application asked for the main window.
    ShowRequested,
}

/// What the runtime is asked to do in response. Failures of these steps are
/// ignored: visibility changes are best effort.
#[derive(Clone, Copy, Debug, PartialEq, Eq, Structural)]
pub enum UiAction {
    Nothing,
    Hide,
    ShowAndFocus,
    UnminimizeShowAndFocus,
    VetoCloseAndHide,
    Exit { code: i32 },
}

/// The window's next state and the action that gets it there.
#[derive(Clone, Copy, Debug, PartialEq, Eq, Structural)]
pub struct UiStep {
    pub next: WindowState,
    pub action: UiAction,
}

/// The dispatch table: a left-button release on the tray icon toggles the
/// window; a close request is vetoed and hides it; the quit item exits with
/// code 0 whatever the window's state; an explicit request restores, shows
/// and focuses it; everything else changes nothing.
pub open spec fn ui_step(state: WindowState, event: UiEvent) -> UiStep {
    match event {
        UiEvent::TrayClick { left_button, released } => if left_button && released {
            if state == WindowState::Visible {
                UiStep { next: WindowState::Hidden, action: UiAction::Hide }
            } else {
                UiStep { next: WindowState::Visible, action: UiAction::ShowAndFocus }
            }
        } else {
            UiStep { next: state, action: UiAction::Nothing }
        },
        UiEvent::CloseRequested => UiStep {
            next: WindowState::Hidden,
            action: UiAction::VetoCloseAndHide,
        },
        UiEvent::MenuSelected { id } => if id@ == QUIT_MENU_ID@ {
            UiStep { next: state, action: UiAction::Exit { code: 0 } }
        } else {
            UiStep { next: state, action: UiAction::Nothing }
        },
        UiEvent::ShowRequested => UiStep {
            next: WindowState::Visible,
            action: UiAction::UnminimizeShowAndFocus,
        },
    }
}

/// Handles one event in the given window state.
pub fn on_ui_event(state: WindowState, event: UiEvent) -> (step: UiStep)
    ensures
        step == ui_step(state, event),
        event is CloseRequested ==> step.next == WindowState::Hidden && !(step.action is Exit),
        (event matches UiEvent::MenuSelected { id } && id@ == QUIT_MENU_ID@) ==> step.action
            == (UiAction::Exit { code: 0 }),
{
    match event {
        UiEvent::TrayClick { left_button, released } => {
            if left_button && released {
                match state {
                    WindowState::Visible => UiStep { next: WindowState::Hidden, action: UiAction::Hide },
                    WindowState::Hidden => UiStep {
                        next: WindowState::Visible,
                        action: UiAction::ShowAndFocus,
                    },
                }
            } else {
                UiStep { next: state, action: UiAction::Nothing }
            }
        },
        UiEvent::CloseRequested => UiStep {
            next: WindowState::Hidden,
            action: UiAction::VetoCloseAndHide,
        },
        UiEvent::MenuSelected { id } => {
            let quit = String::from_str(QUIT_MENU_ID);
            if id == quit {
                UiStep { next: state, action: UiAction::Exit { code: 0 } }
            } else {
                UiStep { next: state, action: UiAction::Nothing }
            }
        },
        UiEvent::ShowRequested => UiStep {
            next: WindowState::Visible,
            action: UiAction::UnminimizeShowAndFocus,
        },
    }
}

} // verus!
