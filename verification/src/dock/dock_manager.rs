//! The docking engine: from a move event and the current geometry to the
//! position the window should snap to, if any.

use crate::geometry::{PhysicalPosition, PhysicalSize};
use vstd::prelude::*;

verus! {

/// Distance from a screen edge, in pixels, within which a freshly created
/// engine treats the window as near that edge.
pub const DEFAULT_THRESHOLD: i32 = 5;

/// The docking engine of one window.
pub struct DockManager {
    docked: bool,
    threshold: i32,
}

/// What the contracts see of a [`DockManager`].
pub struct DockView {
    pub docked: bool,
    pub threshold: int,
}

/// What one evaluation of a move event decides: the docked flag afterwards and
/// the position to move the window to, if it is to be moved.
pub struct MoveOutcome {
    pub docked: bool,
    pub target: Option<PhysicalPosition>,
}

impl View for DockManager {
    type V = DockView;

    closed spec fn view(&self) -> DockView {
        DockView { docked: self.docked, threshold: self.threshold as int }
    }
}

/// The x coordinate at which the window touches the right screen edge.
pub open spec fn right_edge(size: (u32, u32), screen: PhysicalSize) -> int {
    screen.width - size.0
}

/// The y coordinate at which the window touches the bottom screen edge.
pub open spec fn bottom_edge(size: (u32, u32), screen: PhysicalSize) -> int {
    screen.height - size.1
}

/// The window's left border is within `threshold` pixels of the left screen
/// edge, or beyond it.
pub open spec fn near_left(threshold: int, position: PhysicalPosition) -> bool {
    position.x <= threshold
}

/// The window's right border is within `threshold` pixels of the right
/// screen edge, or beyond it.
pub open spec fn near_right(
    threshold: int,
    position: PhysicalPosition,
    size: (u32, u32),
    screen: PhysicalSize,
) -> bool {
    position.x >= right_edge(size, screen) - threshold
}

/// The window's top border is within `threshold` pixels of the top screen
/// edge, or beyond it.
pub open spec fn near_top(threshold: int, position: PhysicalPosition) -> bool {
    position.y <= threshold
}

/// The window's bottom border is within `threshold` pixels of the bottom
/// screen edge, or beyond it.
pub open spec fn near_bottom(
    threshold: int,
    position: PhysicalPosition,
    size: (u32, u32),
    screen: PhysicalSize,
) -> bool {
    position.y >= bottom_edge(size, screen) - threshold
}

/// The window is within `threshold` pixels of at least one screen edge.
pub open spec fn near_any_edge(
    threshold: int,
    position: PhysicalPosition,
    size: (u32, u32),
    screen: PhysicalSize,
) -> bool {
    near_left(threshold, position) || near_right(threshold, position, size, screen) || near_top(
        threshold,
        position,
    ) || near_bottom(threshold, position, size, screen)
}

/// The geometry is one the edge arithmetic makes sense for: the position is
/// not negative, the screen is larger than the window on both axes, and both
/// far edges are coordinates a position can hold.
pub open spec fn geometry_meaningful(
    position: PhysicalPosition,
    size: (u32, u32),
    screen: PhysicalSize,
) -> bool {
    &&& position.x >= 0
    &&& position.y >= 0
    &&& 0 < right_edge(size, screen) <= i32::MAX
    &&& 0 < bottom_edge(size, screen) <= i32::MAX
}

/// The corner or edge point a window near an edge snaps to. Corners come
/// before edges: left-top, right-top, left-bottom, right-bottom, then left,
/// right, top, bottom; the first that matches wins. For a window near no edge
/// this is the window's own position.
pub open spec fn snap_point(
    threshold: int,
    position: PhysicalPosition,
    size: (u32, u32),
    screen: PhysicalSize,
) -> (int, int) {
    let left = near_left(threshold, position);
    let right = near_right(threshold, position, size, screen);
    let top = near_top(threshold, position);
    let bottom = near_bottom(threshold, position, size, screen);
    let x_right = right_edge(size, screen);
    let y_bottom = bottom_edge(size, screen);
    if left && top {
        (0, 0)
    } else if right && top {
        (x_right, 0)
    } else if left && bottom {
        (0, y_bottom)
    } else if right && bottom {
        (x_right, y_bottom)
    } else if left {
        (0, position.y as int)
    } else if right {
        (x_right, position.y as int)
    } else if top {
        (position.x as int, 0)
    } else if bottom {
        (position.x as int, y_bottom)
    } else {
        (position.x as int, position.y as int)
    }
}

/// The window sits more than one pixel away from `target` on some axis.
pub open spec fn displaced(current: PhysicalPosition, target: (int, int)) -> bool {
    ||| current.x - target.0 > 1
    ||| target.0 - current.x > 1
    ||| current.y - target.1 > 1
    ||| target.1 - current.y > 1
}

/// The candidate position of an evaluation: where the engine would put the
/// window, before the docked flag and the jitter tolerance are looked at.
pub open spec fn snap_candidate(
    threshold: int,
    position: PhysicalPosition,
    size: (u32, u32),
    screen: PhysicalSize,
) -> Option<PhysicalPosition> {
    if near_any_edge(threshold, position, size, screen) && geometry_meaningful(
        position,
        size,
        screen,
    ) {
        let point = snap_point(threshold, position, size, screen);
        Some(PhysicalPosition { x: point.0 as i32, y: point.1 as i32 })
    } else {
        None
    }
}

/// What an evaluation decides.
///
/// - Near no edge: the window is free, the flag is cleared.
/// - Near an edge and already docked: nothing moves, the flag stays.
/// - Near an edge and not docked: the window is moved to its candidate
///   position and the flag is set, provided that the geometry is meaningful,
///   the window's actual position is known, and the window is more than one
///   pixel away from the candidate. Otherwise nothing moves and the flag stays
///   clear.
pub open spec fn move_outcome(
    dock: DockView,
    position: PhysicalPosition,
    size: (u32, u32),
    screen: PhysicalSize,
    current: Option<PhysicalPosition>,
) -> MoveOutcome {
    if !near_any_edge(dock.threshold, position, size, screen) {
        MoveOutcome { docked: false, target: None }
    } else if dock.docked {
        MoveOutcome { docked: true, target: None }
    } else {
        match (snap_candidate(dock.threshold, position, size, screen), current) {
            (Some(target), Some(actual)) => if displaced(
                actual,
                (target.x as int, target.y as int),
            ) {
                MoveOutcome { docked: true, target: Some(target) }
            } else {
                MoveOutcome { docked: false, target: None }
            },
            _ => MoveOutcome { docked: false, target: None },
        }
    }
}

/// The candidate's coordinates are those of the snap point, unchanged by
/// the narrowing to 32 bits.
pub proof fn lemma_candidate_is_snap_point(
    threshold: int,
    position: PhysicalPosition,
    size: (u32, u32),
    screen: PhysicalSize,
)
    requires
        near_any_edge(threshold, position, size, screen),
        geometry_meaningful(position, size, screen),
    ensures
        snap_candidate(threshold, position, size, screen) matches Some(target) && (
        target.x as int,
        target.y as int,
    ) == snap_point(threshold, position, size, screen),
        snap_point(threshold, position, size, screen).0 >= 0,
        snap_point(threshold, position, size, screen).1 >= 0,
{
}

impl DockManager {
    /// An undocked engine with the default threshold.
    pub fn new() -> (manager: DockManager)
        ensures
            manager@ == (DockView { docked: false, threshold: DEFAULT_THRESHOLD as int }),
    {
        DockManager { docked: false, threshold: DEFAULT_THRESHOLD }
    }

    /// An undocked engine with the given threshold.
    pub fn with_threshold(threshold: i32) -> (manager: DockManager)
        ensures
            manager@ == (DockView { docked: false, threshold: threshold as int }),
    {
        DockManager { docked: false, threshold }
    }

    pub fn is_docked(&self) -> (docked: bool)
        ensures
            docked == self@.docked,
    {
        self.docked
    }

    pub fn threshold(&self) -> (threshold: i32)
        ensures
            threshold == self@.threshold,
    {
        self.threshold
    }

    /// Whether the window is within the threshold of some screen edge.
    pub fn is_near_edge(
        &self,
        position: PhysicalPosition,
        size: (u32, u32),
        screen_size: PhysicalSize,
    ) -> (near: bool)
        ensures
            near == near_any_edge(self@.threshold, position, size, screen_size),
    {
        let threshold = self.threshold as i64;
        let x = position.x as i64;
        let y = position.y as i64;
        let x_right = screen_size.width as i64 - size.0 as i64;
        let y_bottom = screen_size.height as i64 - size.1 as i64;
        x <= threshold || x >= x_right - threshold || y <= threshold || y >= y_bottom - threshold
    }

    /// The position the window would snap to, whatever the docked flag says:
    /// `None` when the window is near no edge or the geometry is not
    /// meaningful.
    pub fn snap_target(
        &self,
        position: PhysicalPosition,
        size: (u32, u32),
        screen_size: PhysicalSize,
    ) -> (target: Option<PhysicalPosition>)
        ensures
            target == snap_candidate(self@.threshold, position, size, screen_size),
    {
        let threshold = self.threshold as i64;
        let x = position.x as i64;
        let y = position.y as i64;
        let x_right = screen_size.width as i64 - size.0 as i64;
        let y_bottom = screen_size.height as i64 - size.1 as i64;
        let meaningful = x >= 0 && y >= 0 && 0 < x_right && x_right <= i32::MAX as i64 && 0
            < y_bottom && y_bottom <= i32::MAX as i64;
        if !meaningful {
            return None;
        }
        let left = x <= threshold;
        let right = x >= x_right - threshold;
        let top = y <= threshold;
        let bottom = y >= y_bottom - threshold;
        let x_right = x_right as i32;
        let y_bottom = y_bottom as i32;
        if left && top {
            Some(PhysicalPosition { x: 0, y: 0 })
        } else if right && top {
            Some(PhysicalPosition { x: x_right, y: 0 })
        } else if left && bottom {
            Some(PhysicalPosition { x: 0, y: y_bottom })
        } else if right && bottom {
            Some(PhysicalPosition { x: x_right, y: y_bottom })
        } else if left {
            Some(PhysicalPosition { x: 0, y: position.y })
        } else if right {
            Some(PhysicalPosition { x: x_right, y: position.y })
        } else if top {
            Some(PhysicalPosition { x: position.x, y: 0 })
        } else if bottom {
            Some(PhysicalPosition { x: position.x, y: y_bottom })
        } else {
            None
        }
    }

    /// Evaluates one move event.
    ///
    /// `position` is the position the event reports, `size` the window's outer
    /// size as `(width, height)`, `screen_size` the size of the screen, and
    /// `current_position` the window's actual outer position at the time of
    /// the evaluation, `None` when it could not be retrieved.
    ///
    /// Returns the position to move the window to, or `None` when the window
    /// is to be left where it is.
    pub fn handle_window_move(
        &mut self,
        position: PhysicalPosition,
        size: (u32, u32),
        screen_size: PhysicalSize,
        current_position: Option<PhysicalPosition>,
    ) -> (new_position: Option<PhysicalPosition>)
        ensures
            new_position == move_outcome(
                old(self)@,
                position,
                size,
                screen_size,
                current_position,
            ).target,
            final(self)@.docked == move_outcome(
                old(self)@,
                position,
                size,
                screen_size,
                current_position,
            ).docked,
            final(self)@.threshold == old(self)@.threshold,
    {
        if !self.is_near_edge(position, size, screen_size) {
            self.docked = false;
            return None;
        }
        if self.docked {
            return None;
        }
        let candidate = self.snap_target(position, size, screen_size);
        match (candidate, current_position) {
            (Some(target), Some(actual)) => {
                let dx = actual.x as i64 - target.x as i64;
                let dy = actual.y as i64 - target.y as i64;
                if dx > 1 || dx < -1 || dy > 1 || dy < -1 {
                    self.docked = true;
                    Some(target)
                } else {
                    None
                }
            },
            _ => None,
        }
    }
}

/// A window that is within the threshold of no screen edge is never
/// repositioned, and the engine is undocked afterwards, whatever it was
/// before.
pub proof fn lemma_free_window_is_left_alone(
    dock: DockView,
    position: PhysicalPosition,
    size: (u32, u32),
    screen: PhysicalSize,
    current: Option<PhysicalPosition>,
)
    requires
        !near_any_edge(dock.threshold, position, size, screen),
    ensures
        move_outcome(dock, position, size, screen, current).target is None,
        !move_outcome(dock, position, size, screen, current).docked,
{
}

/// While the engine is docked it never repositions the window. It stays
/// docked for as long as the window is near some edge, and is undocked by the
/// first event that finds the window near none.
pub proof fn lemma_docked_engine_is_idle(
    dock: DockView,
    position: PhysicalPosition,
    size: (u32, u32),
    screen: PhysicalSize,
    current: Option<PhysicalPosition>,
)
    requires
        dock.docked,
    ensures
        move_outcome(dock, position, size, screen, current).target is None,
        move_outcome(dock, position, size, screen, current).docked == near_any_edge(
            dock.threshold,
            position,
            size,
            screen,
        ),
{
}

/// The engine repositions the window only from the undocked state, only to
/// the candidate position, and is docked whenever it does; the docked flag is
/// never set otherwise unless it was set before.
pub proof fn lemma_reposition_docks(
    dock: DockView,
    position: PhysicalPosition,
    size: (u32, u32),
    screen: PhysicalSize,
    current: Option<PhysicalPosition>,
)
    ensures
        move_outcome(dock, position, size, screen, current).target is Some ==> {
            &&& !dock.docked
            &&& move_outcome(dock, position, size, screen, current).docked
            &&& move_outcome(dock, position, size, screen, current).target == snap_candidate(
                dock.threshold,
                position,
                size,
                screen,
            )
            &&& current is Some
        },
        move_outcome(dock, position, size, screen, current).docked ==> dock.docked || move_outcome(
            dock,
            position,
            size,
            screen,
            current,
        ).target is Some,
{
}

/// With a threshold that is not negative, a snapped window touches a screen
/// edge and lies on the screen with all of its area.
pub proof fn lemma_snapped_window_is_on_screen(
    threshold: int,
    position: PhysicalPosition,
    size: (u32, u32),
    screen: PhysicalSize,
)
    requires
        threshold >= 0,
        snap_candidate(threshold, position, size, screen) is Some,
    ensures
        ({
            let target = snap_candidate(threshold, position, size, screen)->Some_0;
            &&& 0 <= target.x <= right_edge(size, screen)
            &&& 0 <= target.y <= bottom_edge(size, screen)
            &&& target.x + size.0 <= screen.width
            &&& target.y + size.1 <= screen.height
            &&& {
                ||| target.x == 0
                ||| target.x == right_edge(size, screen)
                ||| target.y == 0
                ||| target.y == bottom_edge(size, screen)
            }
        }),
{
}

/// Once a snap has been applied, the event that reports the window at the
/// snapped position changes nothing: the window is not moved again and the
/// engine stays docked.
pub proof fn lemma_snap_is_stable(
    dock: DockView,
    position: PhysicalPosition,
    size: (u32, u32),
    screen: PhysicalSize,
    current: Option<PhysicalPosition>,
)
    requires
        dock.threshold >= 0,
        move_outcome(dock, position, size, screen, current).target is Some,
    ensures
        ({
            let first = move_outcome(dock, position, size, screen, current);
            let snapped = first.target->Some_0;
            let after = DockView { docked: first.docked, threshold: dock.threshold };
            let second = move_outcome(after, snapped, size, screen, Some(snapped));
            second.target is None && second.docked
        }),
{
}

} // verus!
