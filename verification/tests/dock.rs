use loa_assist::dock::dock_manager::{DockManager, DEFAULT_THRESHOLD};
use loa_assist::geometry::{PhysicalPosition, PhysicalSize};

const SCREEN: PhysicalSize = PhysicalSize { width: 1920, height: 1080 };
const WINDOW: (u32, u32) = (200, 100);

fn at(x: i32, y: i32) -> PhysicalPosition {
    PhysicalPosition::new(x, y)
}

#[test]
fn new_engine_is_undocked_with_default_threshold() {
    let dock = DockManager::new();
    assert!(!dock.is_docked());
    assert_eq!(dock.threshold(), 5);
    assert_eq!(DEFAULT_THRESHOLD, 5);
    let wide = DockManager::with_threshold(40);
    assert_eq!(wide.threshold(), 40);
    assert!(!wide.is_docked());
}

#[test]
fn window_in_the_corner_snaps_to_the_origin() {
    let mut dock = DockManager::new();
    let moved = dock.handle_window_move(at(0, 0), WINDOW, SCREEN, Some(at(4, 3)));
    assert_eq!(moved, Some(at(0, 0)));
    assert!(dock.is_docked());
}

#[test]
fn corner_candidate_is_the_origin() {
    let dock = DockManager::new();
    assert!(dock.is_near_edge(at(0, 0), WINDOW, SCREEN));
    assert_eq!(dock.snap_target(at(0, 0), WINDOW, SCREEN), Some(at(0, 0)));
}

#[test]
fn window_already_at_its_target_is_not_moved() {
    let mut dock = DockManager::new();
    let moved = dock.handle_window_move(at(0, 0), WINDOW, SCREEN, Some(at(0, 0)));
    assert_eq!(moved, None);
    assert!(!dock.is_docked());
    let moved = dock.handle_window_move(at(1, 1), WINDOW, SCREEN, Some(at(1, 1)));
    assert_eq!(moved, None);
    assert!(!dock.is_docked());
    let moved = dock.handle_window_move(at(2, 1), WINDOW, SCREEN, Some(at(2, 1)));
    assert_eq!(moved, Some(at(0, 0)));
    assert!(dock.is_docked());
}

#[test]
fn jitter_tolerance_is_per_axis() {
    let mut dock = DockManager::new();
    let moved = dock.handle_window_move(at(0, 0), WINDOW, SCREEN, Some(at(1, -1)));
    assert_eq!(moved, None);
    let moved = dock.handle_window_move(at(0, 0), WINDOW, SCREEN, Some(at(0, -2)));
    assert_eq!(moved, Some(at(0, 0)));
}

#[test]
fn free_window_is_left_alone() {
    let mut dock = DockManager::new();
    let moved = dock.handle_window_move(at(600, 400), WINDOW, SCREEN, Some(at(600, 400)));
    assert_eq!(moved, None);
    assert!(!dock.is_docked());
    assert!(!dock.is_near_edge(at(600, 400), WINDOW, SCREEN));
    assert_eq!(dock.snap_target(at(600, 400), WINDOW, SCREEN), None);
}

#[test]
fn threshold_boundary() {
    let dock = DockManager::new();
    assert!(dock.is_near_edge(at(5, 400), WINDOW, SCREEN));
    assert!(!dock.is_near_edge(at(6, 400), WINDOW, SCREEN));
    assert!(dock.is_near_edge(at(1715, 400), WINDOW, SCREEN));
    assert!(!dock.is_near_edge(at(1714, 400), WINDOW, SCREEN));
    assert!(dock.is_near_edge(at(600, 5), WINDOW, SCREEN));
    assert!(!dock.is_near_edge(at(600, 6), WINDOW, SCREEN));
    assert!(dock.is_near_edge(at(600, 975), WINDOW, SCREEN));
    assert!(!dock.is_near_edge(at(600, 974), WINDOW, SCREEN));
}

#[test]
fn each_corner_and_edge_has_its_target() {
    let dock = DockManager::new();
    assert_eq!(dock.snap_target(at(3, 4), WINDOW, SCREEN), Some(at(0, 0)));
    assert_eq!(dock.snap_target(at(1718, 2), WINDOW, SCREEN), Some(at(1720, 0)));
    assert_eq!(dock.snap_target(at(1, 977), WINDOW, SCREEN), Some(at(0, 980)));
    assert_eq!(dock.snap_target(at(1719, 979), WINDOW, SCREEN), Some(at(1720, 980)));
    assert_eq!(dock.snap_target(at(4, 300), WINDOW, SCREEN), Some(at(0, 300)));
    assert_eq!(dock.snap_target(at(1716, 300), WINDOW, SCREEN), Some(at(1720, 300)));
    assert_eq!(dock.snap_target(at(700, 5), WINDOW, SCREEN), Some(at(700, 0)));
    assert_eq!(dock.snap_target(at(700, 976), WINDOW, SCREEN), Some(at(700, 980)));
}

#[test]
fn corners_come_before_edges_and_left_before_right() {
    // A window as wide as the screen minus four pixels is near both the left
    // and the right edge: the left corner wins.
    let dock = DockManager::new();
    let size = (1916, 100);
    assert_eq!(dock.snap_target(at(2, 2), size, SCREEN), Some(at(0, 0)));
    assert_eq!(dock.snap_target(at(2, 400), size, SCREEN), Some(at(0, 400)));
    // Near top and bottom at once: the top wins.
    let tall = (200, 1076);
    assert_eq!(dock.snap_target(at(600, 2), tall, SCREEN), Some(at(600, 0)));
    assert_eq!(dock.snap_target(at(1718, 2), tall, SCREEN), Some(at(1720, 0)));
}

#[test]
fn docked_engine_moves_nothing_until_the_window_leaves() {
    let mut dock = DockManager::new();
    let first = dock.handle_window_move(at(3, 300), WINDOW, SCREEN, Some(at(3, 300)));
    assert_eq!(first, Some(at(0, 300)));
    assert!(dock.is_docked());
    // The move that the snap itself causes, and further moves along the edge.
    let second = dock.handle_window_move(at(0, 300), WINDOW, SCREEN, Some(at(0, 300)));
    assert_eq!(second, None);
    assert!(dock.is_docked());
    let third = dock.handle_window_move(at(4, 320), WINDOW, SCREEN, Some(at(4, 320)));
    assert_eq!(third, None);
    assert!(dock.is_docked());
    // Still docked near another edge.
    let fourth = dock.handle_window_move(at(700, 2), WINDOW, SCREEN, Some(at(700, 2)));
    assert_eq!(fourth, None);
    assert!(dock.is_docked());
    // Leaving all edge zones undocks.
    let fifth = dock.handle_window_move(at(700, 300), WINDOW, SCREEN, Some(at(700, 300)));
    assert_eq!(fifth, None);
    assert!(!dock.is_docked());
    // And the next approach snaps again.
    let sixth = dock.handle_window_move(at(1717, 300), WINDOW, SCREEN, Some(at(1717, 300)));
    assert_eq!(sixth, Some(at(1720, 300)));
    assert!(dock.is_docked());
}

#[test]
fn unknown_actual_position_skips_the_event() {
    let mut dock = DockManager::new();
    let moved = dock.handle_window_move(at(3, 300), WINDOW, SCREEN, None);
    assert_eq!(moved, None);
    assert!(!dock.is_docked());
}

#[test]
fn window_not_smaller_than_the_screen_is_left_alone() {
    let mut dock = DockManager::new();
    let moved = dock.handle_window_move(at(0, 0), (1920, 100), SCREEN, Some(at(50, 50)));
    assert_eq!(moved, None);
    assert!(!dock.is_docked());
    let moved = dock.handle_window_move(at(0, 0), (2000, 1200), SCREEN, Some(at(50, 50)));
    assert_eq!(moved, None);
    assert!(!dock.is_docked());
    assert_eq!(dock.snap_target(at(0, 0), (200, 1080), SCREEN), None);
}

#[test]
fn negative_position_is_left_alone() {
    let mut dock = DockManager::new();
    let moved = dock.handle_window_move(at(-3, 300), WINDOW, SCREEN, Some(at(-3, 300)));
    assert_eq!(moved, None);
    assert!(!dock.is_docked());
    assert_eq!(dock.snap_target(at(300, -1), WINDOW, SCREEN), None);
}

#[test]
fn extreme_values_do_not_overflow() {
    let mut dock = DockManager::with_threshold(i32::MIN);
    let huge = PhysicalSize::new(u32::MAX, u32::MAX);
    let moved = dock.handle_window_move(
        at(i32::MAX, i32::MAX),
        (0, 0),
        huge,
        Some(at(i32::MIN, i32::MIN)),
    );
    assert_eq!(moved, None);
    let mut dock = DockManager::with_threshold(i32::MAX);
    let moved = dock.handle_window_move(
        at(i32::MAX, i32::MAX),
        (1, 1),
        PhysicalSize::new(i32::MAX as u32 + 1, i32::MAX as u32 + 1),
        Some(at(i32::MIN, i32::MIN)),
    );
    assert_eq!(moved, Some(at(0, 0)));
    let mut dock = DockManager::with_threshold(0);
    let moved = dock.handle_window_move(
        at(i32::MAX, 7),
        (1, 1),
        PhysicalSize::new(i32::MAX as u32 + 1, 100),
        Some(at(i32::MIN, 7)),
    );
    assert_eq!(moved, Some(at(i32::MAX, 7)));
}

#[test]
fn custom_threshold_widens_the_zone() {
    let mut dock = DockManager::with_threshold(50);
    let moved = dock.handle_window_move(at(40, 300), WINDOW, SCREEN, Some(at(40, 300)));
    assert_eq!(moved, Some(at(0, 300)));
    assert_eq!(dock.threshold(), 50);
}
