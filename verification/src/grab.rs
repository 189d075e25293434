//! Cursor grab: the cursor is hidden and held while the window has focus, and
//! given back when it loses it.
//!
//! A grab signal is a `bool`: `true` asks for the cursor to be locked, `false`
//! for it to be released. Signals come from the window's focus changes and
//! from a manual toggle; each one is applied to the cursor options.

use vstd::prelude::*;
use crate::window::{CursorGrabMode, CursorOptions, Window};

verus! {

/// The two states of the grab.
#[derive(Clone, Copy, Debug, PartialEq, Eq, Structural)]
pub enum GrabState {
    /// The cursor is visible and free.
    Unlocked,
    /// The cursor is hidden and held in place.
    Locked,
}

impl GrabState {
    /// The state that a grab signal asks for.
    pub open spec fn spec_requested(grab: bool) -> GrabState {
        if grab {
            GrabState::Locked
        } else {
            GrabState::Unlocked
        }
    }

    /// The state that a grab signal asks for.
    #[verifier::when_used_as_spec(spec_requested)]
    pub fn requested(grab: bool) -> (state: GrabState)
        ensures
            state == GrabState::spec_requested(grab),
            state == GrabState::Locked <==> grab,
            state == GrabState::Unlocked <==> !grab,
    {
        if grab {
            GrabState::Locked
        } else {
            GrabState::Unlocked
        }
    }

    /// The cursor options that put this state into effect.
    pub open spec fn spec_cursor_options(self) -> CursorOptions {
        match self {
            GrabState::Locked => CursorOptions {
                visible: false,
                grab_mode: CursorGrabMode::Locked,
            },
            GrabState::Unlocked => CursorOptions { visible: true, grab_mode: CursorGrabMode::Free },
        }
    }

    /// The cursor options that put this state into effect.
    #[verifier::when_used_as_spec(spec_cursor_options)]
    pub fn cursor_options(self) -> (options: CursorOptions)
        ensures
            options == self.spec_cursor_options(),
            options.visible <==> self == GrabState::Unlocked,
            options.grab_mode == CursorGrabMode::Locked <==> self == GrabState::Locked,
            options.grab_mode == CursorGrabMode::Free <==> self == GrabState::Unlocked,
    {
        match self {
            GrabState::Locked => CursorOptions {
                visible: false,
                grab_mode: CursorGrabMode::Locked,
            },
            GrabState::Unlocked => CursorOptions { visible: true, grab_mode: CursorGrabMode::Free },
        }
    }

    /// The state after a grab signal: the one that the signal asks for,
    /// whatever the state before.
    pub open spec fn next(self, grab: bool) -> GrabState {
        GrabState::requested(grab)
    }

    /// The state after a run of grab signals, applied in turn.
    pub open spec fn after(self, signals: Seq<bool>) -> GrabState
        decreases signals.len(),
    {
        if signals.len() == 0 {
            self
        } else {
            self.after(signals.drop_last()).next(signals.last())
        }
    }
}

impl Default for GrabState {
    /// The grab starts unlocked.
    fn default() -> (state: GrabState)
        ensures
            state == GrabState::Unlocked,
    {
        GrabState::Unlocked
    }
}

/// The state that cursor options put into effect, if they are those of a
/// state.
pub open spec fn grab_state(options: CursorOptions) -> Option<GrabState> {
    if options == GrabState::Locked.cursor_options() {
        Some(GrabState::Locked)
    } else if options == GrabState::Unlocked.cursor_options() {
        Some(GrabState::Unlocked)
    } else {
        None
    }
}

/// The last of the focus changes, if there is one.
pub open spec fn last_focus(events: Seq<bool>) -> Option<bool> {
    if events.len() == 0 {
        None
    } else {
        Some(events.last())
    }
}

/// Puts a grab signal into effect. Asked to grab, the cursor is hidden and
/// locked; asked to release, it is shown and freed. What the options held
/// before does not matter.
pub fn apply_grab(grab: bool, cursor_options: &mut CursorOptions)
    ensures
        *final(cursor_options) == GrabState::requested(grab).cursor_options(),
        final(cursor_options).visible == !grab,
        final(cursor_options).grab_mode == if grab {
            CursorGrabMode::Locked
        } else {
            CursorGrabMode::Free
        },
        grab_state(*final(cursor_options)) == Some(GrabState::requested(grab)),
{
    let options = GrabState::requested(grab).cursor_options();
    cursor_options.visible = options.visible;
    cursor_options.grab_mode = options.grab_mode;
}

/// The grab signal that a frame's focus changes call for. `events` holds, in
/// the order in which they arrived, whether the window had focus after each
/// change. Only the last change counts; without any there is no signal.
pub fn focus_events(events: &[bool]) -> (signal: Option<bool>)
    ensures
        signal == last_focus(events@),
        signal is None <==> events@.len() == 0,
        signal is Some ==> signal->0 == events@[events@.len() - 1],
{
    let n: usize = events.len();
    if n == 0 {
        None
    } else {
        Some(events[n - 1])
    }
}

/// The window after a manual toggle: its focus flag is flipped, its size is
/// as before.
pub open spec fn toggled(window: Window) -> Window {
    Window { focused: !window.focused, width: window.width, height: window.height }
}

/// The manual toggle: flips the window's focus flag and returns the grab
/// signal for the new value.
///
/// The flag is the caller's own bookkeeping, and the system is not asked: a
/// toggle in a window that has the system's focus marks it unfocused though
/// it still receives input, and the two stay apart until a focus change
/// sets the flag again.
pub fn toggle_grab(window: &mut Window) -> (signal: bool)
    ensures
        *final(window) == toggled(*old(window)),
        signal == !old(window).focused,
{
    window.focused = !window.focused;
    window.focused
}

/// Every state can be read back from its cursor options, and the two states
/// differ in them: one shows the cursor, the other hides it.
pub proof fn state_shows_in_cursor(state: GrabState)
    ensures
        grab_state(state.cursor_options()) == Some(state),
        GrabState::Locked.cursor_options() != GrabState::Unlocked.cursor_options(),
{
}

/// After a run of grab signals the state is the one that the last signal asks
/// for, however often and in whatever states the machine was on the way; with
/// no signal it stays as it was. So to lock, release and lock again ends in the
/// same state, with the same cursor options, as to lock once; and of a frame's
/// focus changes `focus_events` need hand on the last alone.
pub proof fn last_signal_decides(start: GrabState, signals: Seq<bool>)
    ensures
        start.after(signals) == match last_focus(signals) {
            Some(grab) => GrabState::requested(grab),
            None => start,
        },
{
}

/// The manual toggle stands in for a focus change. Its signal is the one of
/// focus changes that end with the opposite of the window's flag, and it
/// leads to the same state and the same cursor options. So from an unfocused
/// window the toggle locks the cursor just as gaining focus does.
pub proof fn toggle_matches_focus_change(window: Window, events: Seq<bool>, state: GrabState)
    requires
        events.len() > 0,
        events.last() == !window.focused,
    ensures
        Some(toggled(window).focused) == last_focus(events),
        state.next(toggled(window).focused) == state.after(events),
        !window.focused ==> state.next(toggled(window).focused) == GrabState::Locked,
{
    last_signal_decides(state, events);
}

} // verus!
