//! The flag in front of the docking engine. Move events arrive faster than
//! they can be evaluated; the flag lets one evaluation run at a time, and the
//! events that arrive meanwhile are dropped.

use crate::dock::dock_manager::{move_outcome, DockManager, DockView, MoveOutcome};
use crate::geometry::{PhysicalPosition, PhysicalSize};
use vstd::prelude::*;

verus! {

/// Guards the evaluation of move events for one window. Its view is `true`
/// while an evaluation is in flight.
pub struct MovingFlag {
    moving: bool,
}

impl View for MovingFlag {
    type V = bool;

    closed spec fn view(&self) -> bool {
        self.moving
    }
}

impl MovingFlag {
    /// A clear flag.
    pub fn new() -> (flag: MovingFlag)
        ensures
            !flag@,
    {
        MovingFlag { moving: false }
    }

    /// Whether an evaluation is in flight.
    pub fn is_held(&self) -> (held: bool)
        ensures
            held == self@,
    {
        self.moving
    }

    /// Tests and sets the flag, as one step. Returns `true` when the event may
    /// be evaluated; the caller then owes one call of [`Self::release`], once
    /// the evaluation is over and the window has been moved. Returns `false`
    /// when an evaluation is already in flight: the event is to be dropped.
    pub fn try_enter(&mut self) -> (admitted: bool)
        ensures
            admitted == !old(self)@,
            final(self)@,
    {
        let held = self.moving;
        self.moving = true;
        !held
    }

    /// Clears the flag. Owed after every admitted event, whether or not its
    /// evaluation could be made.
    pub fn release(&mut self)
        ensures
            !final(self)@,
    {
        self.moving = false;
    }
}

/// The evaluation of an admitted event: what [`DockManager::handle_window_move`]
/// decides, where the window's size is known. Without a size the event is
/// skipped: nothing moves and the engine is left as it was.
pub open spec fn event_outcome(
    dock: DockView,
    position: PhysicalPosition,
    size: Option<(u32, u32)>,
    screen: PhysicalSize,
    current: Option<PhysicalPosition>,
) -> MoveOutcome {
    match size {
        Some(size) => move_outcome(dock, position, size, screen, current),
        None => MoveOutcome { docked: dock.docked, target: None },
    }
}

/// Evaluates an admitted move event. `size` and `current_position` are
/// `None` when the window's geometry could not be retrieved.
///
/// Returns the position to move the window to, if it is to be moved.
pub fn evaluate_move_event(
    dock: &mut DockManager,
    position: PhysicalPosition,
    size: Option<(u32, u32)>,
    screen_size: PhysicalSize,
    current_position: Option<PhysicalPosition>,
) -> (new_position: Option<PhysicalPosition>)
    ensures
        new_position == event_outcome(
            old(dock)@,
            position,
            size,
            screen_size,
            current_position,
        ).target,
        final(dock)@.docked == event_outcome(
            old(dock)@,
            position,
            size,
            screen_size,
            current_position,
        ).docked,
        final(dock)@.threshold == old(dock)@.threshold,
{
    match size {
        Some(size) => dock.handle_window_move(position, size, screen_size, current_position),
        None => None,
    }
}

/// What reaches the flag: a move event arrives, or the evaluation that is in
/// flight completes.
pub enum MoveSignal {
    Arrived,
    Completed,
}

/// The flag after a run of signals, given what it was before. The last signal
/// decides: an arrival leaves the flag set, as [`MovingFlag::try_enter`]
/// does; a completion leaves it clear, as [`MovingFlag::release`] does.
pub open spec fn held_after(held: bool, signals: Seq<MoveSignal>) -> bool {
    if signals.len() == 0 {
        held
    } else {
        signals.last() is Arrived
    }
}

/// Whether a signal starts an evaluation: an arrival that finds the flag
/// clear does, and nothing else.
pub open spec fn starts_evaluation(held: bool, signal: MoveSignal) -> bool {
    signal is Arrived && !held
}

/// How many evaluations a run of signals starts.
pub open spec fn evaluations_started(held: bool, signals: Seq<MoveSignal>) -> nat
    decreases signals.len(),
{
    if signals.len() == 0 {
        0
    } else {
        let earlier = evaluations_started(held, signals.drop_last());
        if starts_evaluation(held_after(held, signals.drop_last()), signals.last()) {
            earlier + 1
        } else {
            earlier
        }
    }
}

/// How many completions a run of signals holds.
pub open spec fn completions(signals: Seq<MoveSignal>) -> nat
    decreases signals.len(),
{
    if signals.len() == 0 {
        0
    } else if signals.last() is Completed {
        completions(signals.drop_last()) + 1
    } else {
        completions(signals.drop_last())
    }
}

/// Evaluations never overlap. Starting from a clear flag, a run of signals
/// starts at most one evaluation more than it holds completions, and no more
/// than it holds completions when it leaves the flag clear. In particular,
/// of any number of events that arrive back to back, with no completion in
/// between, exactly the first is evaluated.
pub proof fn lemma_one_evaluation_in_flight(signals: Seq<MoveSignal>)
    ensures
        evaluations_started(false, signals) <= completions(signals) + 1,
        !held_after(false, signals) ==> evaluations_started(false, signals) <= completions(
            signals,
        ),
        completions(signals) == 0 && signals.len() > 0 ==> evaluations_started(false, signals)
            == 1,
    decreases signals.len(),
{
    if signals.len() > 0 {
        let earlier = signals.drop_last();
        lemma_one_evaluation_in_flight(earlier);
        if completions(signals) == 0 && earlier.len() > 0 {
            lemma_arrivals_set_the_flag(earlier);
        }
    }
}

/// A run of arrivals alone leaves the flag set.
pub proof fn lemma_arrivals_set_the_flag(signals: Seq<MoveSignal>)
    requires
        completions(signals) == 0,
        signals.len() > 0,
    ensures
        held_after(false, signals),
{
}

/// Whatever came before, the event that follows a completion is evaluated:
/// no run of signals can close the flag for good.
pub proof fn lemma_completion_reopens(held: bool, signals: Seq<MoveSignal>)
    ensures
        starts_evaluation(
            held_after(held, signals.push(MoveSignal::Completed)),
            MoveSignal::Arrived,
        ),
{
    let run = signals.push(MoveSignal::Completed);
    assert(run.last() == MoveSignal::Completed);
}

} // verus!
