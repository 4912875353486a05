//! What a click on the tray icon or on an entry of its menu leads to.

use crate::text::same_text;
use vstd::prelude::*;

verus! {

/// Width and height, in logical pixels, that the main window is restored to.
pub const RESTORED_SIZE: (u32, u32) = (320, 500);

/// Position, in logical pixels, that the main window is restored to.
pub const RESTORED_POSITION: (i32, i32) = (0, 0);

/// What is done for an entry of the tray menu.
#[derive(Clone, Copy, Debug, PartialEq, Eq, Structural)]
pub enum MenuAction {
    /// End the application.
    Quit,
    /// Show the main window, restore it from the minimized state and give it
    /// focus.
    ShowMainWindow,
    /// Hide the main window.
    HideMainWindow,
    /// Show the main window as above, then give it [`RESTORED_SIZE`] and move
    /// it to [`RESTORED_POSITION`].
    RestoreMainWindowSize,
    /// The entry is not known; nothing is done.
    Unhandled,
}

/// A button of the mouse.
#[derive(Clone, Copy, Debug, PartialEq, Eq, Structural)]
pub enum MouseButton {
    Left,
    Right,
    Middle,
}

/// Whether a button went down or came up.
#[derive(Clone, Copy, Debug, PartialEq, Eq, Structural)]
pub enum MouseButtonState {
    Up,
    Down,
}

/// What happened to the tray icon.
#[derive(Clone, Copy, Debug, PartialEq, Eq, Structural)]
pub enum TrayEvent {
    Click { button: MouseButton, button_state: MouseButtonState },
    /// Anything but a click.
    Other,
}

/// The action that belongs to the menu entry with the given id.
pub open spec fn menu_action(id: Seq<char>) -> MenuAction {
    if id == "quit"@ {
        MenuAction::Quit
    } else if id == "open"@ {
        MenuAction::ShowMainWindow
    } else if id == "hide"@ {
        MenuAction::HideMainWindow
    } else if id == "restoreSize"@ {
        MenuAction::RestoreMainWindowSize
    } else {
        MenuAction::Unhandled
    }
}

/// What to do for the menu entry with the given id.
pub fn handle_menu_event(id: &str) -> (action: MenuAction)
    ensures
        action == menu_action(id@),
{
    if same_text(id, "quit") {
        MenuAction::Quit
    } else if same_text(id, "open") {
        MenuAction::ShowMainWindow
    } else if same_text(id, "hide") {
        MenuAction::HideMainWindow
    } else if same_text(id, "restoreSize") {
        MenuAction::RestoreMainWindowSize
    } else {
        MenuAction::Unhandled
    }
}

/// Whether the main window is to be shown for an event on the tray icon:
/// when the left button has come up over it, and for nothing else.
pub fn handle_tray_event(event: TrayEvent) -> (show: bool)
    ensures
        show == (event == TrayEvent::Click {
            button: MouseButton::Left,
            button_state: MouseButtonState::Up,
        }),
{
    match event {
        TrayEvent::Click { button: MouseButton::Left, button_state: MouseButtonState::Up } => true,
        _ => false,
    }
}

} // verus!
