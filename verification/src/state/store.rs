//! The operations on the application state. Each one changes the state in
//! memory; writing it to disk afterwards is the caller's part.

use crate::geometry::PhysicalPosition;
use crate::state::types::{is_default_settings, AppState, Task, UserSettings};
use crate::window_utils::auto_focus_shift::{
    guard_after_start, guard_after_stop, initial_tracker, start_mouse_tracking, start_spawns,
    stop_mouse_tracking, FocusGuard, FocusTracker,
};
use vstd::prelude::*;

verus! {

/// Directory, below the user's data directory, that holds the state file.
pub const APP_DIR_NAME: &'static str = "com.loaassist.app";

/// Name of the state file.
pub const STATE_FILE_NAME: &'static str = "loaassist_state.json";

/// The state the application starts with: what was stored, or the state of a
/// fresh installation when nothing could be read.
pub fn load_state(stored: Option<AppState>) -> (state: AppState)
    ensures
        match stored {
            Some(stored) => state == stored,
            None => {
                &&& state.gold == 0
                &&& is_default_settings(state.user_settings)
                &&& state.tasks@.len() == 0
                &&& state.window_position == (PhysicalPosition { x: 100, y: 100 })
            },
        },
{
    match stored {
        Some(stored) => stored,
        None => AppState::default(),
    }
}

pub fn get_gold(state: &AppState) -> (gold: u32)
    ensures
        gold == state.gold,
{
    state.gold
}

/// Sets the gold to `value` and returns it.
pub fn set_gold(state: &mut AppState, value: u32) -> (gold: u32)
    ensures
        gold == value,
        *final(state) == (AppState { gold: value, ..*old(state) }),
{
    state.gold = value;
    state.gold
}

/// Adds `value` to the gold and returns the new amount.
pub fn increment_gold(state: &mut AppState, value: u32) -> (gold: u32)
    requires
        old(state).gold + value <= u32::MAX,
    ensures
        gold == old(state).gold + value,
        *final(state) == (AppState { gold, ..*old(state) }),
{
    state.gold = state.gold + value;
    state.gold
}

/// Takes `value` off the gold, stopping at zero, and returns the new amount.
pub fn decrement_gold(state: &mut AppState, value: u32) -> (gold: u32)
    ensures
        gold == if old(state).gold >= value {
            old(state).gold - value
        } else {
            0
        },
        *final(state) == (AppState { gold, ..*old(state) }),
{
    state.gold = if state.gold >= value {
        state.gold - value
    } else {
        0
    };
    state.gold
}

pub fn get_user_settings(state: &AppState) -> (settings: UserSettings)
    ensures
        settings == state.user_settings,
{
    state.user_settings.clone()
}

/// Replaces the user settings and brings the tracker loop in line with them:
/// with auto focus on, a loop is asked for, provided that there is a main
/// window to track; with auto focus off, the loop is asked to end.
///
/// Returns the state a new loop is to start from, if one is to be started.
pub fn set_user_settings(
    state: &mut AppState,
    guard: &mut FocusGuard,
    settings: UserSettings,
    window_available: bool,
) -> (tracker: Option<FocusTracker>)
    ensures
        *final(state) == (AppState { user_settings: settings, ..*old(state) }),
        final(guard)@ == if !settings.auto_focus_enabled {
            guard_after_stop(old(guard)@)
        } else if window_available {
            guard_after_start(old(guard)@)
        } else {
            old(guard)@
        },
        tracker is Some <==> settings.auto_focus_enabled && window_available && start_spawns(
            old(guard)@,
        ),
        tracker matches Some(fresh) ==> fresh@ == initial_tracker() && fresh.loop_generation()
            == final(guard)@.generation,
{
    let auto_focus_enabled = settings.auto_focus_enabled;
    state.user_settings = settings;
    if auto_focus_enabled {
        if window_available {
            start_mouse_tracking(guard)
        } else {
            None
        }
    } else {
        stop_mouse_tracking(guard);
        None
    }
}

/// Appends a task to the to-do list.
pub fn add_task(state: &mut AppState, task: Task)
    ensures
        final(state).tasks@ == old(state).tasks@.push(task),
        final(state).gold == old(state).gold,
        final(state).user_settings == old(state).user_settings,
        final(state).window_position == old(state).window_position,
{
    state.tasks.push(task);
}

pub fn get_position(state: &AppState) -> (position: PhysicalPosition)
    ensures
        position == state.window_position,
{
    state.window_position
}

pub fn set_position(state: &mut AppState, new_position: PhysicalPosition)
    ensures
        *final(state) == (AppState { window_position: new_position, ..*old(state) }),
{
    state.window_position = new_position;
}

pub fn get_default_tab(state: &AppState) -> (tab: String)
    ensures
        tab == state.user_settings.default_tab,
{
    state.user_settings.default_tab.clone()
}

/// Sets the title of the window that focus is handed to.
pub fn set_game_title(state: &mut AppState, title: String)
    ensures
        final(state).user_settings.auto_focus_settings.game_title == title,
        final(state).user_settings.auto_focus_settings.shift_idle_time == old(
            state,
        ).user_settings.auto_focus_settings.shift_idle_time,
        final(state).user_settings == (UserSettings {
            auto_focus_settings: final(state).user_settings.auto_focus_settings,
            ..old(state).user_settings
        }),
        *final(state) == (AppState { user_settings: final(state).user_settings, ..*old(state) }),
{
    state.user_settings.auto_focus_settings.game_title = title;
}

} // verus!
