use loa_assist::dock::dock_events::{evaluate_move_event, MovingFlag};
use loa_assist::dock::dock_manager::DockManager;
use loa_assist::geometry::{PhysicalPosition, PhysicalSize};

#[test]
fn second_event_is_dropped_while_the_first_is_evaluated() {
    let mut flag = MovingFlag::new();
    assert!(!flag.is_held());
    assert!(flag.try_enter());
    assert!(flag.is_held());
    assert!(!flag.try_enter());
    assert!(flag.is_held());
    flag.release();
    assert!(!flag.is_held());
    assert!(flag.try_enter());
}

#[test]
fn exactly_one_evaluation_for_two_events_back_to_back() {
    let mut flag = MovingFlag::new();
    let mut dock = DockManager::new();
    let screen = PhysicalSize::new(1920, 1080);
    let mut evaluations = 0;

    let first = flag.try_enter();
    let second = flag.try_enter();
    assert!(first);
    assert!(!second);
    if first {
        let moved = evaluate_move_event(
            &mut dock,
            PhysicalPosition::new(3, 300),
            Some((200, 100)),
            screen,
            Some(PhysicalPosition::new(3, 300)),
        );
        evaluations += 1;
        assert_eq!(moved, Some(PhysicalPosition::new(0, 300)));
        assert!(flag.is_held());
        flag.release();
    }
    assert_eq!(evaluations, 1);
    assert!(!flag.is_held());
    assert!(dock.is_docked());

    // A third event, after completion, is processed.
    assert!(flag.try_enter());
    let moved = evaluate_move_event(
        &mut dock,
        PhysicalPosition::new(700, 300),
        Some((200, 100)),
        screen,
        Some(PhysicalPosition::new(700, 300)),
    );
    flag.release();
    assert_eq!(moved, None);
    assert!(!dock.is_docked());
    assert!(!flag.is_held());
}

#[test]
fn event_is_skipped_when_the_geometry_is_unavailable() {
    let mut flag = MovingFlag::new();
    let mut dock = DockManager::with_threshold(9);
    assert!(flag.try_enter());
    let moved = evaluate_move_event(
        &mut dock,
        PhysicalPosition::new(0, 0),
        None,
        PhysicalSize::new(1920, 1080),
        Some(PhysicalPosition::new(30, 30)),
    );
    flag.release();
    assert_eq!(moved, None);
    assert!(!flag.is_held());
    assert!(!dock.is_docked());
    assert_eq!(dock.threshold(), 9);
    // A docked engine stays docked through a skipped event.
    let _ = dock.handle_window_move(
        PhysicalPosition::new(3, 3),
        (200, 100),
        PhysicalSize::new(1920, 1080),
        Some(PhysicalPosition::new(3, 3)),
    );
    assert!(dock.is_docked());
    let moved = evaluate_move_event(
        &mut dock,
        PhysicalPosition::new(700, 300),
        None,
        PhysicalSize::new(1920, 1080),
        None,
    );
    assert_eq!(moved, None);
    assert!(dock.is_docked());
}
