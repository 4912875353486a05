//! The state the application keeps between runs.

use crate::geometry::PhysicalPosition;
use vstd::prelude::*;

verus! {

/// How transparent the folded window is, and after how long it fades.
#[derive(Debug, PartialEq, Eq)]
pub struct FoldedSettings {
    /// Opacity in hundredths.
    pub opacity: u8,
    /// Seconds without interaction before the folded window fades.
    pub idle_time: u16,
}

/// Which window focus is handed to, and after how long.
#[derive(Debug, PartialEq, Eq)]
pub struct FocusSettings {
    /// Title of the window that receives focus.
    pub game_title: String,
    /// Seconds the cursor must stay outside before focus is handed over.
    pub shift_idle_time: u64,
}

/// What the user can configure.
#[derive(Debug, PartialEq, Eq)]
pub struct UserSettings {
    pub update_check_enabled: bool,
    pub theme: String,
    pub class_image: bool,
    pub folded_opacity_enabled: bool,
    pub folded_settings: FoldedSettings,
    pub auto_focus_enabled: bool,
    pub auto_focus_settings: FocusSettings,
    pub focus_border_enabled: bool,
    /// The tab shown when the application starts.
    pub default_tab: String,
}

/// One entry of the to-do list.
#[derive(Debug, PartialEq, Eq)]
pub struct Task {
    pub id: u32,
    pub description: String,
    pub completed: bool,
}

/// Everything that is persisted.
#[derive(Debug, PartialEq, Eq)]
pub struct AppState {
    pub gold: u32,
    pub user_settings: UserSettings,
    pub tasks: Vec<Task>,
    pub window_position: PhysicalPosition,
}

impl Default for FoldedSettings {
    fn default() -> (settings: FoldedSettings)
        ensures
            settings == (FoldedSettings { opacity: 60, idle_time: 10 }),
    {
        FoldedSettings { opacity: 60, idle_time: 10 }
    }
}

impl Clone for FoldedSettings {
    fn clone(&self) -> (copy: FoldedSettings)
        ensures
            copy == *self,
    {
        FoldedSettings { opacity: self.opacity, idle_time: self.idle_time }
    }
}

impl Default for FocusSettings {
    fn default() -> (settings: FocusSettings)
        ensures
            settings.game_title@ == "LOST ARK (64-bit, DX11) v.3.5.7.1"@,
            settings.shift_idle_time == 1,
    {
        FocusSettings {
            game_title: "LOST ARK (64-bit, DX11) v.3.5.7.1".to_owned(),
            shift_idle_time: 1,
        }
    }
}

impl Clone for FocusSettings {
    fn clone(&self) -> (copy: FocusSettings)
        ensures
            copy == *self,
    {
        FocusSettings {
            game_title: self.game_title.clone(),
            shift_idle_time: self.shift_idle_time,
        }
    }
}

impl Default for UserSettings {
    fn default() -> (settings: UserSettings)
        ensures
            is_default_settings(settings),
    {
        UserSettings {
            update_check_enabled: true,
            theme: "light".to_owned(),
            class_image: true,
            folded_opacity_enabled: true,
            folded_settings: FoldedSettings::default(),
            auto_focus_enabled: true,
            auto_focus_settings: FocusSettings::default(),
            focus_border_enabled: true,
            default_tab: "Tab1".to_owned(),
        }
    }
}

impl Clone for UserSettings {
    fn clone(&self) -> (copy: UserSettings)
        ensures
            copy == *self,
    {
        UserSettings {
            update_check_enabled: self.update_check_enabled,
            theme: self.theme.clone(),
            class_image: self.class_image,
            folded_opacity_enabled: self.folded_opacity_enabled,
            folded_settings: self.folded_settings.clone(),
            auto_focus_enabled: self.auto_focus_enabled,
            auto_focus_settings: self.auto_focus_settings.clone(),
            focus_border_enabled: self.focus_border_enabled,
            default_tab: self.default_tab.clone(),
        }
    }
}

impl Clone for Task {
    fn clone(&self) -> (copy: Task)
        ensures
            copy == *self,
    {
        Task { id: self.id, description: self.description.clone(), completed: self.completed }
    }
}

/// The user settings of a fresh installation, as the contracts see them.
pub open spec fn is_default_settings(settings: UserSettings) -> bool {
    &&& settings.update_check_enabled
    &&& settings.theme@ == "light"@
    &&& settings.class_image
    &&& settings.folded_opacity_enabled
    &&& settings.folded_settings == (FoldedSettings { opacity: 60, idle_time: 10 })
    &&& settings.auto_focus_enabled
    &&& settings.auto_focus_settings.game_title@ == "LOST ARK (64-bit, DX11) v.3.5.7.1"@
    &&& settings.auto_focus_settings.shift_idle_time == 1
    &&& settings.focus_border_enabled
    &&& settings.default_tab@ == "Tab1"@
}

impl Default for AppState {
    fn default() -> (state: AppState)
        ensures
            state.gold == 0,
            is_default_settings(state.user_settings),
            state.tasks@.len() == 0,
            state.window_position == (PhysicalPosition { x: 100, y: 100 }),
    {
        AppState {
            gold: 0,
            user_settings: UserSettings::default(),
            tasks: Vec::new(),
            window_position: PhysicalPosition { x: 100, y: 100 },
        }
    }
}

} // verus!
