use loa_assist::audio::audio_manager::{get_sound_path, select_sound, UnknownSound, DEFAULT_SOUND};
use loa_assist::geometry::{PhysicalPosition, PhysicalSize};
use loa_assist::tray::handlers::{
    handle_menu_event, handle_tray_event, MenuAction, MouseButton, MouseButtonState, TrayEvent,
    RESTORED_POSITION, RESTORED_SIZE,
};
use loa_assist::ui::animations::{step_duration_ms, Easing, ANIMATION_STEPS, RESIZE_DURATION_MS};

#[test]
fn sounds_have_their_files() {
    assert_eq!(get_sound_path("Background"), Some(r"C:\Windows\Media\Windows Background.wav"));
    assert_eq!(get_sound_path("Foreground"), Some(r"C:\Windows\Media\Windows Foreground.wav"));
    assert_eq!(get_sound_path("Logon"), Some(r"C:\Windows\Media\Windows Logon.wav"));
    assert_eq!(
        get_sound_path("Alarm"),
        Some(r"C:\Windows\Media\Windows Notify System Generic.wav")
    );
    assert_eq!(get_sound_path("alarm"), None);
    assert_eq!(get_sound_path(""), None);
}

#[test]
fn default_sound_is_played_when_none_is_named() {
    assert_eq!(DEFAULT_SOUND, "Background");
    assert_eq!(select_sound(None), Ok(r"C:\Windows\Media\Windows Background.wav"));
    assert_eq!(select_sound(Some("Logon")), Ok(r"C:\Windows\Media\Windows Logon.wav"));
    let unknown = select_sound(Some("Chime")).unwrap_err();
    assert_eq!(unknown, UnknownSound { name: "Chime".to_string() });
    assert_eq!(unknown.message(), "Sound 'Chime' not found in predefined list");
}

#[test]
fn menu_entries_have_their_actions() {
    assert_eq!(handle_menu_event("quit"), MenuAction::Quit);
    assert_eq!(handle_menu_event("open"), MenuAction::ShowMainWindow);
    assert_eq!(handle_menu_event("hide"), MenuAction::HideMainWindow);
    assert_eq!(handle_menu_event("restoreSize"), MenuAction::RestoreMainWindowSize);
    assert_eq!(handle_menu_event("restoresize"), MenuAction::Unhandled);
    assert_eq!(handle_menu_event(""), MenuAction::Unhandled);
    assert_eq!(RESTORED_SIZE, (320, 500));
    assert_eq!(RESTORED_POSITION, (0, 0));
}

#[test]
fn only_a_released_left_click_shows_the_window() {
    let click = |button, button_state| TrayEvent::Click { button, button_state };
    assert!(handle_tray_event(click(MouseButton::Left, MouseButtonState::Up)));
    assert!(!handle_tray_event(click(MouseButton::Left, MouseButtonState::Down)));
    assert!(!handle_tray_event(click(MouseButton::Right, MouseButtonState::Up)));
    assert!(!handle_tray_event(click(MouseButton::Middle, MouseButtonState::Up)));
    assert!(!handle_tray_event(TrayEvent::Other));
}

#[test]
fn easing_is_chosen_by_name() {
    assert_eq!(Easing::from_name("easeInOutQuad"), Easing::InOutQuad);
    assert_eq!(Easing::from_name("easeInOutQuart"), Easing::InOutQuart);
    assert_eq!(Easing::from_name("easeInOutExpo"), Easing::InOutExpo);
    assert_eq!(Easing::from_name("easeInOutBack"), Easing::InOutBack);
    assert_eq!(Easing::from_name("linear"), Easing::InOutQuad);
    assert_eq!(Easing::from_name(""), Easing::InOutQuad);
}

#[test]
fn animation_is_cut_into_sixty_steps() {
    assert_eq!(ANIMATION_STEPS, 60);
    assert_eq!(RESIZE_DURATION_MS, 800);
    assert_eq!(step_duration_ms(800), 13);
    assert_eq!(step_duration_ms(59), 0);
    assert_eq!(step_duration_ms(u64::MAX), u64::MAX / 60);
}

#[test]
fn geometry_constructors() {
    assert_eq!(PhysicalPosition::new(-1, 2), PhysicalPosition { x: -1, y: 2 });
    assert_eq!(PhysicalSize::new(3, 4), PhysicalSize { width: 3, height: 4 });
}
