//! Adaptive focus shifting. A tracker samples, tick by tick, whether the
//! cursor is over the managed window. When the cursor enters, the managed
//! window asks for focus; when it has been away for the configured delay,
//! focus is handed to the target window. While auto focus is disabled no
//! focus is moved at all; the tracker keeps following the cursor.
//!
//! The tracker and the hand-over are step functions: the caller makes the
//! observations and the system calls, these functions decide.

use crate::geometry::{PhysicalPosition, PhysicalSize};
use crate::state::types::FocusSettings;
use crate::text::{contains_substring, is_substring};
use vstd::prelude::*;

verus! {

/// Title of the managed window.
pub const MANAGED_WINDOW_TITLE: &'static str = "Lost Ark Assist";

/// What the title of the settings window contains. While that window holds
/// the foreground, focus is not moved.
pub const SETTINGS_WINDOW_TITLE: &'static str = "숙제표 설정";

/// Milliseconds between two ticks of the tracker.
pub const POLL_INTERVAL_MS: u64 = 100;

// ---------------------------------------------------------------------------
// Guard
// ---------------------------------------------------------------------------
/// The switches of the focus engine of one window: whether a tracker loop is
/// wanted, whether focus may be moved, and which loop is the current one.
pub struct FocusGuard {
    running: bool,
    enabled: bool,
    generation: u64,
}

/// What the contracts see of a [`FocusGuard`].
pub struct FocusGuardView {
    pub running: bool,
    pub enabled: bool,
    /// Number of loops begun so far. The loop that was begun last carries
    /// this number; it is the only one that may go on.
    pub generation: u64,
}

impl View for FocusGuard {
    type V = FocusGuardView;

    closed spec fn view(&self) -> FocusGuardView {
        FocusGuardView {
            running: self.running,
            enabled: self.enabled,
            generation: self.generation,
        }
    }
}

/// Whether a start request on a guard in state `guard` begins a new loop: no
/// loop is wanted yet, and the count of loops has not reached the largest
/// number it can hold.
pub open spec fn start_spawns(guard: FocusGuardView) -> bool {
    !guard.running && guard.generation < u64::MAX
}

/// The guard after a start request.
pub open spec fn guard_after_start(guard: FocusGuardView) -> FocusGuardView {
    if start_spawns(guard) {
        FocusGuardView {
            running: true,
            enabled: guard.enabled,
            generation: (guard.generation + 1) as u64,
        }
    } else {
        guard
    }
}

/// The guard after a stop request.
pub open spec fn guard_after_stop(guard: FocusGuardView) -> FocusGuardView {
    FocusGuardView { running: false, enabled: guard.enabled, generation: guard.generation }
}

/// Whether the loop that carries `loop_generation` goes on to its next tick:
/// a loop is wanted, and this loop is the one that was begun last.
pub open spec fn loop_continues(guard: FocusGuardView, loop_generation: u64) -> bool {
    guard.running && guard.generation == loop_generation
}

impl FocusGuard {
    /// No loop begun, moving focus enabled.
    pub fn new() -> (guard: FocusGuard)
        ensures
            guard@ == (FocusGuardView { running: false, enabled: true, generation: 0 }),
    {
        FocusGuard { running: false, enabled: true, generation: 0 }
    }

    /// Whether a tracker loop is wanted: one was asked for and has not been
    /// asked to end.
    pub fn is_running(&self) -> (running: bool)
        ensures
            running == self@.running,
    {
        self.running
    }

    /// Whether focus may be moved.
    pub fn is_enabled(&self) -> (enabled: bool)
        ensures
            enabled == self@.enabled,
    {
        self.enabled
    }

    /// Whether the loop that owns `tracker` goes on. The loop asks before
    /// every tick and ends when the answer is `false`: after a stop request,
    /// and also when a newer loop has been begun since this one was.
    pub fn should_continue(&self, tracker: &FocusTracker) -> (goes_on: bool)
        ensures
            goes_on == loop_continues(self@, tracker.loop_generation()),
    {
        self.running && self.generation == tracker.generation
    }
}

/// Forbids moving focus. A running tracker keeps sampling.
pub fn pause_auto_focus(guard: &mut FocusGuard)
    ensures
        final(guard)@ == (FocusGuardView { enabled: false, ..old(guard)@ }),
{
    guard.enabled = false;
}

/// Allows moving focus again.
pub fn resume_auto_focus(guard: &mut FocusGuard)
    ensures
        final(guard)@ == (FocusGuardView { enabled: true, ..old(guard)@ }),
{
    guard.enabled = true;
}

/// Asks for a tracker loop. Returns the tracker the new loop is to run, or
/// `None` when a loop is already wanted; the guard is then left as it was.
pub fn start_mouse_tracking(guard: &mut FocusGuard) -> (tracker: Option<FocusTracker>)
    ensures
        tracker is Some <==> start_spawns(old(guard)@),
        tracker matches Some(fresh) ==> fresh@ == initial_tracker() && fresh.loop_generation()
            == final(guard)@.generation,
        final(guard)@ == guard_after_start(old(guard)@),
{
    if guard.running || guard.generation == u64::MAX {
        return None;
    }
    guard.running = true;
    guard.generation = guard.generation + 1;
    Some(FocusTracker { is_mouse_over: false, last_out_time: None, generation: guard.generation })
}

/// Asks the tracker loop to end. The loop sees the request before its next
/// tick.
pub fn stop_mouse_tracking(guard: &mut FocusGuard)
    ensures
        final(guard)@ == guard_after_stop(old(guard)@),
{
    guard.running = false;
}

/// Starting twice is the same as starting once: the first request on an idle
/// guard begins a loop, the second begins none and leaves the guard as the
/// first left it. After a stop the next request begins a loop again.
pub proof fn lemma_start_is_idempotent(guard: FocusGuardView)
    ensures
        start_spawns(guard) ==> guard_after_start(guard).running,
        !start_spawns(guard_after_start(guard)),
        guard_after_start(guard_after_start(guard)) == guard_after_start(guard),
        guard.generation < u64::MAX ==> start_spawns(guard_after_stop(guard)),
{
}

/// At no time do two loops go on: whatever the guard holds, the loops that
/// may go on all carry the same number.
pub proof fn lemma_one_loop_goes_on(guard: FocusGuardView, first: u64, second: u64)
    requires
        loop_continues(guard, first),
        loop_continues(guard, second),
    ensures
        first == second,
{
}

/// A loop that was begun before a stop ends, even when the next start comes
/// before the loop has seen the stop: the new loop carries a new number, and
/// only that one goes on.
pub proof fn lemma_stale_loop_ends(guard: FocusGuardView, stale: u64)
    requires
        stale <= guard.generation,
        start_spawns(guard_after_stop(guard)),
    ensures
        ({
            let restarted = guard_after_start(guard_after_stop(guard));
            &&& !loop_continues(guard_after_stop(guard), stale)
            &&& !loop_continues(restarted, stale)
            &&& loop_continues(restarted, restarted.generation)
        }),
{
}

// ---------------------------------------------------------------------------
// Policy
// ---------------------------------------------------------------------------
/// The rules a tick works under. Read afresh for every tick, so that a change
/// of the settings takes effect within one polling interval.
#[derive(Debug, PartialEq, Eq)]
pub struct FocusPolicy {
    /// Title of the window that receives focus; matched exactly.
    pub target_title: String,
    /// Seconds the cursor must have been outside before focus is handed over.
    pub idle_delay_secs: u64,
    /// Whether focus may be moved at all: to the target window, and to the
    /// managed window.
    pub enabled: bool,
}

impl FocusPolicy {
    /// The policy that the settings and the guard hold at this moment.
    pub fn snapshot(settings: &FocusSettings, guard: &FocusGuard) -> (policy: FocusPolicy)
        ensures
            policy.target_title == settings.game_title,
            policy.idle_delay_secs == settings.shift_idle_time,
            policy.enabled == guard@.enabled,
    {
        FocusPolicy {
            target_title: settings.game_title.clone(),
            idle_delay_secs: settings.shift_idle_time,
            enabled: guard.enabled,
        }
    }
}

// ---------------------------------------------------------------------------
// Observations
// ---------------------------------------------------------------------------
/// Whether a window is minimized, and whether it is visible.
#[derive(Clone, Copy, Debug, PartialEq, Eq, Structural)]
pub struct WindowStatus {
    pub minimized: bool,
    pub visible: bool,
}

/// The handle under which the system knows a top-level window.
#[derive(Clone, Copy, Debug, PartialEq, Eq, Structural)]
pub struct WindowHandle {
    pub raw: isize,
}

/// The cursor at `cursor` is within the rectangle of a window at `position`
/// with size `size`, borders included.
pub open spec fn cursor_inside(
    position: PhysicalPosition,
    size: PhysicalSize,
    cursor: (i32, i32),
) -> bool {
    &&& position.x <= cursor.0 <= position.x + size.width
    &&& position.y <= cursor.1 <= position.y + size.height
}

/// Whether the cursor is over the window. `position` and `size` are `None`
/// when the window's geometry could not be retrieved; the cursor then counts
/// as outside.
pub fn is_mouse_inside_window(
    position: Option<PhysicalPosition>,
    size: Option<PhysicalSize>,
    cursor: (i32, i32),
) -> (inside: bool)
    ensures
        inside == match (position, size) {
            (Some(position), Some(size)) => cursor_inside(position, size, cursor),
            _ => false,
        },
{
    match (position, size) {
        (Some(position), Some(size)) => {
            let x = cursor.0 as i64;
            let y = cursor.1 as i64;
            let left = position.x as i64;
            let top = position.y as i64;
            x >= left && x <= left + size.width as i64 && y >= top && y <= top
                + size.height as i64
        },
        _ => false,
    }
}

/// A window that was found and is minimized or not visible.
pub open spec fn hidden_or_minimized(status: Option<WindowStatus>) -> bool {
    match status {
        Some(status) => status.minimized || !status.visible,
        None => false,
    }
}

/// Whether the window with the given status is minimized or hidden. `None`
/// stands for a window that was not found; it counts as neither.
pub fn is_window_hidden_or_minimized(status: Option<WindowStatus>) -> (hidden: bool)
    ensures
        hidden == hidden_or_minimized(status),
{
    match status {
        Some(status) => status.minimized || !status.visible,
        None => false,
    }
}

/// Whether the settings window holds the foreground: the title of the
/// foreground window contains [`SETTINGS_WINDOW_TITLE`]. `None` stands for
/// no foreground window, or one whose title could not be read.
pub fn is_settings_window_focused(foreground_title: Option<&str>) -> (focused: bool)
    ensures
        focused == match foreground_title {
            Some(title) => is_substring(SETTINGS_WINDOW_TITLE@, title@),
            None => false,
        },
{
    match foreground_title {
        Some(title) => contains_substring(title, SETTINGS_WINDOW_TITLE),
        None => false,
    }
}

// ---------------------------------------------------------------------------
// Tracker
// ---------------------------------------------------------------------------
/// The state of a tracker between two ticks: whether the cursor was over the
/// window at the last tick, and when it left, if the idle timer is running.
/// Times are readings of a monotonic clock in milliseconds.
#[derive(Clone, Copy, Debug, PartialEq, Eq, Structural)]
pub struct TrackerState {
    pub is_mouse_over: bool,
    pub last_out_time: Option<u64>,
}

/// What a tick asks the caller to do.
#[derive(Clone, Copy, Debug, PartialEq, Eq, Structural)]
pub enum TrackerAction {
    /// Nothing.
    Nothing,
    /// Give focus to the managed window.
    FocusManagedWindow,
    /// Hand focus to the target window: run a [`FocusShift`].
    ShiftFocus,
}

/// What a tick observes.
pub struct TickInput {
    /// The cursor is over the managed window.
    pub inside: bool,
    /// Moving focus is vetoed for this tick.
    pub suppressed: bool,
    /// The clock, in milliseconds.
    pub now_ms: u64,
    /// The idle delay in force, in seconds.
    pub idle_delay_secs: u64,
    /// Moving focus is enabled.
    pub enabled: bool,
}

/// The tracker of one window: the state between ticks, and the number of the
/// loop that runs it.
pub struct FocusTracker {
    is_mouse_over: bool,
    last_out_time: Option<u64>,
    generation: u64,
}

impl View for FocusTracker {
    type V = TrackerState;

    closed spec fn view(&self) -> TrackerState {
        TrackerState { is_mouse_over: self.is_mouse_over, last_out_time: self.last_out_time }
    }
}

/// The state a tracker starts from: cursor outside, no timer.
pub open spec fn initial_tracker() -> TrackerState {
    TrackerState { is_mouse_over: false, last_out_time: None }
}

/// Milliseconds from `out_ms` to `now_ms`; zero when the clock reads less
/// than it did.
pub open spec fn elapsed_ms(out_ms: u64, now_ms: u64) -> int {
    if now_ms >= out_ms {
        now_ms - out_ms
    } else {
        0
    }
}

/// The cursor has been away for at least the idle delay.
pub open spec fn idle_expired(out_ms: u64, now_ms: u64, idle_delay_secs: u64) -> bool {
    elapsed_ms(out_ms, now_ms) >= idle_delay_secs * 1000
}

/// One tick of the tracker.
///
/// - Cursor inside: the timer is cleared. If the cursor was outside before,
///   the managed window asks for focus, unless suppressed or disabled.
/// - Cursor just left: the timer starts at `now_ms`.
/// - Cursor outside, timer running and expired: the timer is cleared and
///   a hand-over is asked for, unless suppressed. Whether the hand-over may
///   move focus is decided when it begins, see [`shift_begin`].
/// - Otherwise nothing changes.
///
/// Suppression and the enabled switch veto actions only; the state moves on
/// as it would without.
pub open spec fn tracker_step(state: TrackerState, input: TickInput) -> (
    TrackerState,
    TrackerAction,
) {
    if input.inside {
        (
            TrackerState { is_mouse_over: true, last_out_time: None },
            if !state.is_mouse_over && !input.suppressed && input.enabled {
                TrackerAction::FocusManagedWindow
            } else {
                TrackerAction::Nothing
            },
        )
    } else if state.is_mouse_over {
        (
            TrackerState { is_mouse_over: false, last_out_time: Some(input.now_ms) },
            TrackerAction::Nothing,
        )
    } else {
        match state.last_out_time {
            Some(out_ms) if idle_expired(out_ms, input.now_ms, input.idle_delay_secs) => (
                TrackerState { is_mouse_over: false, last_out_time: None },
                if input.suppressed {
                    TrackerAction::Nothing
                } else {
                    TrackerAction::ShiftFocus
                },
            ),
            _ => (state, TrackerAction::Nothing),
        }
    }
}

/// What a tick observes under `policy`.
pub open spec fn tick_input(
    inside: bool,
    suppressed: bool,
    now_ms: u64,
    policy: FocusPolicy,
) -> TickInput {
    TickInput {
        inside,
        suppressed,
        now_ms,
        idle_delay_secs: policy.idle_delay_secs,
        enabled: policy.enabled,
    }
}

/// The state after a run of ticks.
pub open spec fn tracker_run(state: TrackerState, inputs: Seq<TickInput>) -> TrackerState
    decreases inputs.len(),
{
    if inputs.len() == 0 {
        state
    } else {
        tracker_step(tracker_run(state, inputs.drop_last()), inputs.last()).0
    }
}

/// How often a run of ticks hands focus over.
pub open spec fn shifts_in_run(state: TrackerState, inputs: Seq<TickInput>) -> nat
    decreases inputs.len(),
{
    if inputs.len() == 0 {
        0
    } else {
        let before = tracker_run(state, inputs.drop_last());
        let earlier = shifts_in_run(state, inputs.drop_last());
        if tracker_step(before, inputs.last()).1 == TrackerAction::ShiftFocus {
            earlier + 1
        } else {
            earlier
        }
    }
}

/// In all of `inputs` the cursor is outside the window.
pub open spec fn all_outside(inputs: Seq<TickInput>) -> bool {
    forall|i: int| 0 <= i < inputs.len() ==> !(#[trigger] inputs[i]).inside
}

impl FocusTracker {
    /// The number of the loop that runs this tracker.
    pub closed spec fn loop_generation(&self) -> u64 {
        self.generation
    }

    /// A tracker in its initial state that belongs to no loop: no guard lets
    /// it go on.
    pub fn new() -> (tracker: FocusTracker)
        ensures
            tracker@ == initial_tracker(),
            tracker.loop_generation() == 0,
    {
        FocusTracker { is_mouse_over: false, last_out_time: None, generation: 0 }
    }

    /// The state between ticks.
    pub fn state(&self) -> (state: TrackerState)
        ensures
            state == self@,
    {
        TrackerState { is_mouse_over: self.is_mouse_over, last_out_time: self.last_out_time }
    }

    /// The number of the loop that runs this tracker.
    pub fn generation(&self) -> (generation: u64)
        ensures
            generation == self.loop_generation(),
    {
        self.generation
    }

    /// Runs one tick and returns what the caller is to do.
    ///
    /// `inside` says whether the cursor is over the managed window,
    /// `suppressed` whether moving focus is vetoed for this tick, `now_ms` is
    /// the clock, and `policy` the policy read for this tick.
    pub fn tick(&mut self, inside: bool, suppressed: bool, now_ms: u64, policy: &FocusPolicy) -> (action:
        TrackerAction)
        ensures
            (final(self)@, action) == tracker_step(
                old(self)@,
                tick_input(inside, suppressed, now_ms, *policy),
            ),
            final(self).loop_generation() == old(self).loop_generation(),
    {
        if inside {
            let entered = !self.is_mouse_over;
            self.is_mouse_over = true;
            self.last_out_time = None;
            if entered && !suppressed && policy.enabled {
                TrackerAction::FocusManagedWindow
            } else {
                TrackerAction::Nothing
            }
        } else if self.is_mouse_over {
            self.is_mouse_over = false;
            self.last_out_time = Some(now_ms);
            TrackerAction::Nothing
        } else {
            match self.last_out_time {
                Some(out_ms) => {
                    let elapsed: u64 = if now_ms >= out_ms {
                        now_ms - out_ms
                    } else {
                        0
                    };
                    if elapsed as u128 >= policy.idle_delay_secs as u128 * 1000 {
                        self.last_out_time = None;
                        if suppressed {
                            TrackerAction::Nothing
                        } else {
                            TrackerAction::ShiftFocus
                        }
                    } else {
                        TrackerAction::Nothing
                    }
                },
                None => TrackerAction::Nothing,
            }
        }
    }
}

/// After any tick the timer runs only while the cursor is outside.
pub proof fn lemma_timer_runs_only_outside(state: TrackerState, input: TickInput)
    ensures
        tracker_step(state, input).0.is_mouse_over == input.inside,
        input.inside ==> tracker_step(state, input).0.last_out_time is None,
{
}

/// Focus is handed over only when the cursor is outside, the timer is
/// running, the idle delay has passed since the cursor left, and the action
/// is not suppressed. In particular no hand-over happens before the delay
/// has passed.
pub proof fn lemma_shift_only_after_delay(state: TrackerState, input: TickInput)
    requires
        tracker_step(state, input).1 == TrackerAction::ShiftFocus,
    ensures
        !input.inside,
        !input.suppressed,
        !state.is_mouse_over,
        state.last_out_time matches Some(out_ms) && idle_expired(
            out_ms,
            input.now_ms,
            input.idle_delay_secs,
        ),
        tracker_step(state, input).0 == initial_tracker(),
{
}

/// The first tick that finds the cursor outside with the delay passed hands
/// focus over, unless suppressed, and clears the timer either way.
pub proof fn lemma_shift_when_due(state: TrackerState, input: TickInput, out_ms: u64)
    requires
        !input.inside,
        state == (TrackerState { is_mouse_over: false, last_out_time: Some(out_ms) }),
        idle_expired(out_ms, input.now_ms, input.idle_delay_secs),
    ensures
        tracker_step(state, input).0 == initial_tracker(),
        tracker_step(state, input).1 == if input.suppressed {
            TrackerAction::Nothing
        } else {
            TrackerAction::ShiftFocus
        },
{
}

/// While the delay has not passed the tracker waits: no action, no change.
pub proof fn lemma_waits_until_due(state: TrackerState, input: TickInput, out_ms: u64)
    requires
        !input.inside,
        state == (TrackerState { is_mouse_over: false, last_out_time: Some(out_ms) }),
        !idle_expired(out_ms, input.now_ms, input.idle_delay_secs),
    ensures
        tracker_step(state, input) == (state, TrackerAction::Nothing),
{
}

/// With no timer running and the cursor staying outside, nothing happens,
/// however long it lasts: no hand-over follows one that was made, until the
/// cursor has entered and left again.
pub proof fn lemma_idle_outside_stays_idle(inputs: Seq<TickInput>)
    requires
        all_outside(inputs),
    ensures
        tracker_run(initial_tracker(), inputs) == initial_tracker(),
        shifts_in_run(initial_tracker(), inputs) == 0,
    decreases inputs.len(),
{
    if inputs.len() > 0 {
        let earlier = inputs.drop_last();
        assert(all_outside(earlier)) by {
            assert forall|i: int| 0 <= i < earlier.len() implies !(#[trigger] earlier[i]).inside by {
                assert(earlier[i] == inputs[i]);
            }
        }
        lemma_idle_outside_stays_idle(earlier);
        assert(!inputs[inputs.len() - 1].inside);
    }
}

/// As long as the cursor stays outside, focus is handed over at most once,
/// whatever state the tracker started from, and once it has been handed over
/// the timer is not running.
pub proof fn lemma_at_most_one_shift_per_absence(state: TrackerState, inputs: Seq<TickInput>)
    requires
        all_outside(inputs),
    ensures
        shifts_in_run(state, inputs) <= 1,
        shifts_in_run(state, inputs) == 1 ==> tracker_run(state, inputs) == initial_tracker(),
    decreases inputs.len(),
{
    if inputs.len() > 0 {
        let earlier = inputs.drop_last();
        assert(all_outside(earlier)) by {
            assert forall|i: int| 0 <= i < earlier.len() implies !(#[trigger] earlier[i]).inside by {
                assert(earlier[i] == inputs[i]);
            }
        }
        lemma_at_most_one_shift_per_absence(state, earlier);
        assert(!inputs[inputs.len() - 1].inside);
    }
}

/// The tracker follows the cursor in the same way whether moving focus is
/// enabled or not: the state after a tick does not depend on the switch.
pub proof fn lemma_tracking_ignores_enabled(state: TrackerState, input: TickInput)
    ensures
        tracker_step(state, TickInput { enabled: true, ..input }).0 == tracker_step(
            state,
            TickInput { enabled: false, ..input },
        ).0,
{
}

/// The same holds of whole runs: two runs of ticks that differ in the
/// enabled switch alone end in the same state.
pub proof fn lemma_runs_ignore_enabled(
    state: TrackerState,
    inputs: Seq<TickInput>,
    others: Seq<TickInput>,
)
    requires
        inputs.len() == others.len(),
        forall|i: int|
            0 <= i < inputs.len() ==> (#[trigger] others[i]) == (TickInput {
                enabled: others[i].enabled,
                ..inputs[i]
            }),
    ensures
        tracker_run(state, inputs) == tracker_run(state, others),
    decreases inputs.len(),
{
    if inputs.len() > 0 {
        let earlier = inputs.drop_last();
        let earlier_others = others.drop_last();
        assert forall|i: int| 0 <= i < earlier.len() implies (#[trigger] earlier_others[i]) == (
        TickInput { enabled: earlier_others[i].enabled, ..earlier[i] }) by {
            assert(earlier_others[i] == others[i]);
            assert(earlier[i] == inputs[i]);
        }
        lemma_runs_ignore_enabled(state, earlier, earlier_others);
        let last = inputs.len() - 1;
        assert(others[last] == (TickInput { enabled: others[last].enabled, ..inputs[last] }));
    }
}

/// While moving focus is disabled a tick never asks for focus on the managed
/// window, whatever the state and wherever the cursor is. The one action it
/// may still ask for is a hand-over, and a hand-over that begins while
/// disabled asks for nothing, see [`lemma_disabled_asks_for_nothing`].
pub proof fn lemma_disabled_requests_no_focus(state: TrackerState, input: TickInput)
    requires
        !input.enabled,
    ensures
        tracker_step(state, input).1 != TrackerAction::FocusManagedWindow,
        tracker_step(state, input).1 == TrackerAction::ShiftFocus ==> shift_begin(
            input.enabled,
        ) == (FocusShift::Failed(FocusError::Disabled), FocusShiftAction::Stop),
{
}

/// With moving focus enabled, the managed window asks for focus exactly on
/// the tick that finds the cursor inside after it was outside, unless that
/// tick is suppressed.
pub proof fn lemma_focus_request_on_entering(state: TrackerState, input: TickInput)
    ensures
        tracker_step(state, input).1 == TrackerAction::FocusManagedWindow <==> input.inside
            && !state.is_mouse_over && !input.suppressed && input.enabled,
{
}

// ---------------------------------------------------------------------------
// Hand-over
// ---------------------------------------------------------------------------
/// Why focus was not handed over.
#[derive(Clone, Copy, Debug, PartialEq, Eq, Structural)]
pub enum FocusError {
    /// Hand-over is disabled.
    Disabled,
    /// The managed window itself is minimized or hidden.
    SelfHidden,
    /// No window has the target title.
    TargetNotFound,
    /// The system refused to move focus.
    TransferRefused,
}

/// How far a hand-over has come.
#[derive(Clone, Copy, Debug, PartialEq, Eq, Structural)]
pub enum FocusShift {
    /// Waiting for the status of the managed window.
    AwaitingSelfStatus,
    /// Waiting for the lookup of the target window.
    AwaitingTarget,
    /// Waiting for the system's answer to the transfer request.
    AwaitingTransfer,
    /// Focus was handed over.
    Succeeded,
    /// Focus was not handed over.
    Failed(FocusError),
}

/// What the caller reports to a hand-over in progress.
#[derive(Clone, Copy, Debug, PartialEq, Eq, Structural)]
pub enum FocusShiftEvent {
    /// The status of the window titled [`MANAGED_WINDOW_TITLE`]; `None` when
    /// there is no such window.
    SelfStatus(Option<WindowStatus>),
    /// The window whose title is the target title; `None` when there is
    /// none.
    TargetLookup(Option<WindowHandle>),
    /// Whether the system moved focus.
    TransferResult(bool),
}

/// What a hand-over asks the caller to do next.
#[derive(Debug, PartialEq, Eq)]
pub enum FocusShiftAction {
    /// Look up the window titled [`MANAGED_WINDOW_TITLE`] and report its
    /// status.
    QuerySelfStatus,
    /// Look up the window with exactly this title and report its handle.
    FindTarget(String),
    /// Ask the system to give this window the foreground, and report the
    /// answer.
    SetForeground(WindowHandle),
    /// Nothing more: the hand-over is over, or the event was not the one
    /// awaited.
    Stop,
}

/// The first step of a hand-over: vetoed at once when hand-over is disabled.
pub open spec fn shift_begin(enabled: bool) -> (FocusShift, FocusShiftAction) {
    if enabled {
        (FocusShift::AwaitingSelfStatus, FocusShiftAction::QuerySelfStatus)
    } else {
        (FocusShift::Failed(FocusError::Disabled), FocusShiftAction::Stop)
    }
}

/// The next step of a hand-over. An event other than the one awaited changes
/// nothing and asks for nothing.
pub open spec fn shift_advance(shift: FocusShift, event: FocusShiftEvent, target_title: String) -> (
    FocusShift,
    FocusShiftAction,
) {
    match (shift, event) {
        (FocusShift::AwaitingSelfStatus, FocusShiftEvent::SelfStatus(status)) => {
            if hidden_or_minimized(status) {
                (FocusShift::Failed(FocusError::SelfHidden), FocusShiftAction::Stop)
            } else {
                (FocusShift::AwaitingTarget, FocusShiftAction::FindTarget(target_title))
            }
        },
        (FocusShift::AwaitingTarget, FocusShiftEvent::TargetLookup(Some(handle))) => (
            FocusShift::AwaitingTransfer,
            FocusShiftAction::SetForeground(handle),
        ),
        (FocusShift::AwaitingTarget, FocusShiftEvent::TargetLookup(None)) => (
            FocusShift::Failed(FocusError::TargetNotFound),
            FocusShiftAction::Stop,
        ),
        (FocusShift::AwaitingTransfer, FocusShiftEvent::TransferResult(moved)) => {
            if moved {
                (FocusShift::Succeeded, FocusShiftAction::Stop)
            } else {
                (FocusShift::Failed(FocusError::TransferRefused), FocusShiftAction::Stop)
            }
        },
        _ => (shift, FocusShiftAction::Stop),
    }
}

/// The result of a hand-over, once it is over.
pub open spec fn shift_result(shift: FocusShift) -> Option<Result<(), FocusError>> {
    match shift {
        FocusShift::Succeeded => Some(Ok(())),
        FocusShift::Failed(error) => Some(Err(error)),
        _ => None,
    }
}

/// The result of a whole attempt, given what the system would answer to each
/// question. The vetoes come in a fixed order; an answer is looked at only if
/// no earlier veto applies.
pub open spec fn attempt_focus_shift(
    enabled: bool,
    self_status: Option<WindowStatus>,
    target: Option<WindowHandle>,
    transfer_moves: bool,
) -> Result<(), FocusError> {
    if !enabled {
        Err(FocusError::Disabled)
    } else if hidden_or_minimized(self_status) {
        Err(FocusError::SelfHidden)
    } else if target is None {
        Err(FocusError::TargetNotFound)
    } else if !transfer_moves {
        Err(FocusError::TransferRefused)
    } else {
        Ok(())
    }
}

impl FocusShift {
    /// Begins a hand-over under `policy`.
    pub fn begin(policy: &FocusPolicy) -> (step: (FocusShift, FocusShiftAction))
        ensures
            step == shift_begin(policy.enabled),
    {
        if policy.enabled {
            (FocusShift::AwaitingSelfStatus, FocusShiftAction::QuerySelfStatus)
        } else {
            (FocusShift::Failed(FocusError::Disabled), FocusShiftAction::Stop)
        }
    }

    /// Takes the answer to the last action and says what to do next.
    pub fn advance(self, event: FocusShiftEvent, policy: &FocusPolicy) -> (step: (
        FocusShift,
        FocusShiftAction,
    ))
        ensures
            step == shift_advance(self, event, policy.target_title),
    {
        match (self, event) {
            (FocusShift::AwaitingSelfStatus, FocusShiftEvent::SelfStatus(status)) => {
                if is_window_hidden_or_minimized(status) {
                    (FocusShift::Failed(FocusError::SelfHidden), FocusShiftAction::Stop)
                } else {
                    (
                        FocusShift::AwaitingTarget,
                        FocusShiftAction::FindTarget(policy.target_title.clone()),
                    )
                }
            },
            (FocusShift::AwaitingTarget, FocusShiftEvent::TargetLookup(Some(handle))) => (
                FocusShift::AwaitingTransfer,
                FocusShiftAction::SetForeground(handle),
            ),
            (FocusShift::AwaitingTarget, FocusShiftEvent::TargetLookup(None)) => (
                FocusShift::Failed(FocusError::TargetNotFound),
                FocusShiftAction::Stop,
            ),
            (FocusShift::AwaitingTransfer, FocusShiftEvent::TransferResult(moved)) => {
                if moved {
                    (FocusShift::Succeeded, FocusShiftAction::Stop)
                } else {
                    (FocusShift::Failed(FocusError::TransferRefused), FocusShiftAction::Stop)
                }
            },
            _ => (self, FocusShiftAction::Stop),
        }
    }

    /// The result, once the hand-over is over; `None` while it is under way.
    pub fn result(&self) -> (result: Option<Result<(), FocusError>>)
        ensures
            result == shift_result(*self),
    {
        match self {
            FocusShift::Succeeded => Some(Ok(())),
            FocusShift::Failed(error) => Some(Err(*error)),
            _ => None,
        }
    }
}

/// A hand-over that is over stays over: whatever is reported to it, it asks
/// for nothing more and its result stands.
pub proof fn lemma_finished_shift_is_final(
    shift: FocusShift,
    event: FocusShiftEvent,
    target_title: String,
)
    requires
        shift_result(shift) is Some,
    ensures
        shift_advance(shift, event, target_title) == (shift, FocusShiftAction::Stop),
{
}

/// With hand-over disabled an attempt ends at its first step: it fails with
/// `Disabled` and asks for nothing, then and ever after. No window is looked
/// up and no transfer of focus is requested, whatever the system would have
/// answered and whatever is reported to the attempt afterwards.
pub proof fn lemma_disabled_asks_for_nothing(
    self_status: Option<WindowStatus>,
    target: Option<WindowHandle>,
    transfer_moves: bool,
    event: FocusShiftEvent,
    target_title: String,
)
    ensures
        shift_begin(false) == (FocusShift::Failed(FocusError::Disabled), FocusShiftAction::Stop),
        shift_advance(shift_begin(false).0, event, target_title) == shift_begin(false),
        attempt_focus_shift(false, self_status, target, transfer_moves) == Err::<(), FocusError>(
            FocusError::Disabled,
        ),
{
}

/// A transfer of focus is requested by one step only: the one that takes the
/// handle of the target window while the lookup is awaited. That stage is
/// reached only through a managed window that is neither minimized nor
/// hidden, and that one only with hand-over enabled.
pub proof fn lemma_transfer_needs_every_check(
    shift: FocusShift,
    event: FocusShiftEvent,
    target_title: String,
    handle: WindowHandle,
)
    ensures
        shift_advance(shift, event, target_title).1 == FocusShiftAction::SetForeground(handle)
            <==> shift == FocusShift::AwaitingTarget && event == FocusShiftEvent::TargetLookup(
            Some(handle),
        ),
        shift_advance(shift, event, target_title).0 == FocusShift::AwaitingTarget
            && shift != FocusShift::AwaitingTarget ==> ({
            &&& shift == FocusShift::AwaitingSelfStatus
            &&& event matches FocusShiftEvent::SelfStatus(status)
            &&& !hidden_or_minimized(status)
        }),
        forall|enabled: bool|
            shift_begin(enabled).0 == FocusShift::AwaitingSelfStatus ==> enabled,
        forall|enabled: bool| shift_begin(enabled).0 != FocusShift::AwaitingTarget,
{
}

/// Run from its first step, with the system's answers fed in as they are
/// asked for, a hand-over ends with the result of the whole attempt.
pub proof fn lemma_steps_give_attempt_result(
    enabled: bool,
    target_title: String,
    self_status: Option<WindowStatus>,
    target: Option<WindowHandle>,
    transfer_moves: bool,
)
    ensures
        ({
            let expected = attempt_focus_shift(enabled, self_status, target, transfer_moves);
            let first = shift_begin(enabled);
            let second = shift_advance(
                first.0,
                FocusShiftEvent::SelfStatus(self_status),
                target_title,
            );
            let third = shift_advance(
                second.0,
                FocusShiftEvent::TargetLookup(target),
                target_title,
            );
            let fourth = shift_advance(
                third.0,
                FocusShiftEvent::TransferResult(transfer_moves),
                target_title,
            );
            if first.1 == FocusShiftAction::Stop {
                shift_result(first.0) == Some(expected)
            } else if second.1 == FocusShiftAction::Stop {
                shift_result(second.0) == Some(expected)
            } else if third.1 == FocusShiftAction::Stop {
                shift_result(third.0) == Some(expected)
            } else {
                &&& target matches Some(handle) && third.1 == FocusShiftAction::SetForeground(
                    handle,
                )
                &&& fourth.1 == FocusShiftAction::Stop
                &&& shift_result(fourth.0) == Some(expected)
            }
        }),
{
}

} // verus!
