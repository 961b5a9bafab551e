//! Classifies button edges into single clicks, double clicks and long
//! presses, reporting them as input events.
use vstd::prelude::*;
use crate::input::event::InputEvent;

verus! {

/// Milliseconds since boot.
pub type Timestamp = u64;

/// A press held at least this long is a long press.
pub const LONG_PRESS_MS: Timestamp = 600;

/// A release followed by more than this much quiet is a single click.
pub const DOUBLE_CLICK_GAP_MS: Timestamp = 300;

/// Where the tracker is in a gesture.
#[derive(Debug, Clone, Copy, PartialEq, Eq, Structural)]
pub enum ButtonState {
    Idle,
    Pressed { since: Timestamp },
    WaitingForSecondPress { released_at: Timestamp },
    PressedSecond { since: Timestamp },
}

/// The state after an edge (`is_down` tells which) at time `now`.
pub open spec fn state_after_edge(s: ButtonState, is_down: bool, now: Timestamp) -> ButtonState {
    match s {
        ButtonState::Idle => if is_down { ButtonState::Pressed { since: now } } else { s },
        ButtonState::Pressed { .. } => if !is_down { ButtonState::WaitingForSecondPress { released_at: now } } else { s },
        ButtonState::WaitingForSecondPress { .. } => if is_down { ButtonState::PressedSecond { since: now } } else { s },
        ButtonState::PressedSecond { .. } => if !is_down { ButtonState::Idle } else { s },
    }
}

/// The event an edge reports: only the release of a second press, a double click.
pub open spec fn event_for_edge(s: ButtonState, is_down: bool) -> Option<InputEvent> {
    if s is PressedSecond && !is_down {
        Some(InputEvent::DoubleClick)
    } else {
        None
    }
}

/// `now - t`, or `0` when `now` is earlier.
pub open spec fn elapsed(now: Timestamp, t: Timestamp) -> int {
    if now >= t { now - t } else { 0 }
}

/// The event that the passage of time reports at `now`.
pub open spec fn event_for_time(s: ButtonState, now: Timestamp) -> Option<InputEvent> {
    match s {
        ButtonState::Pressed { since } => if elapsed(now, since) >= LONG_PRESS_MS {
            Some(InputEvent::LongPress)
        } else {
            None
        },
        ButtonState::WaitingForSecondPress { released_at } => if elapsed(now, released_at) > DOUBLE_CLICK_GAP_MS {
            Some(InputEvent::SingleClick)
        } else {
            None
        },
        _ => None,
    }
}

/// The state after the passage of time to `now`: back to idle when a
/// timeout fired.
pub open spec fn state_after_time(s: ButtonState, now: Timestamp) -> ButtonState {
    if event_for_time(s, now) is Some {
        ButtonState::Idle
    } else {
        s
    }
}

/// Tracks one button through its gestures.
pub struct ButtonTracker {
    pub state: ButtonState,
}

impl Default for ButtonTracker {
    /// A tracker in the idle state.
    fn default() -> (r: Self)
        ensures
            r.state == ButtonState::Idle,
    {
        ButtonTracker { state: ButtonState::Idle }
    }
}

impl ButtonTracker {
    /// Feeds one debounced edge: `is_down` is the new level, `now` its time.
    pub fn on_edge(&mut self, is_down: bool, now: u64) -> (r: Option<InputEvent>)
        ensures
            final(self).state == state_after_edge(old(self).state, is_down, now),
            r == event_for_edge(old(self).state, is_down),
    {
        match self.state {
            ButtonState::Idle => {
                if is_down {
                    self.state = ButtonState::Pressed { since: now };
                }
                None
            },
            ButtonState::Pressed { since: _ } => {
                if !is_down {
                    self.state = ButtonState::WaitingForSecondPress { released_at: now };
                }
                None
            },
            ButtonState::WaitingForSecondPress { .. } => {
                if is_down {
                    self.state = ButtonState::PressedSecond { since: now };
                }
                None
            },
            ButtonState::PressedSecond { .. } => {
                if !is_down {
                    self.state = ButtonState::Idle;
                    return Some(InputEvent::DoubleClick);
                }
                None
            },
        }
    }

    /// Call this every loop iteration (regardless of new edges) with the
    /// current time, to resolve timeouts that don't depend on a new press.
    pub fn check_timeouts(&mut self, now: u64) -> (r: Option<InputEvent>)
        ensures
            final(self).state == state_after_time(old(self).state, now),
            r == event_for_time(old(self).state, now),
    {
        match self.state {
            ButtonState::Pressed { since } => {
                if now.saturating_sub(since) >= LONG_PRESS_MS {
                    self.state = ButtonState::Idle;
                    Some(InputEvent::LongPress)
                } else {
                    None
                }
            },
            ButtonState::WaitingForSecondPress { released_at } => {
                if now.saturating_sub(released_at) > DOUBLE_CLICK_GAP_MS {
                    self.state = ButtonState::Idle;
                    Some(InputEvent::SingleClick)
                } else {
                    None
                }
            },
            _ => None,
        }
    }
}

/// Every reported gesture leaves the tracker idle, ready for the next one.
pub proof fn gesture_ends_idle(s: ButtonState, is_down: bool, now: Timestamp)
    ensures
        event_for_edge(s, is_down) is Some ==> state_after_edge(s, is_down, now) == ButtonState::Idle,
        event_for_time(s, now) is Some ==> state_after_time(s, now) == ButtonState::Idle,
{
}

/// Press, release, press, release is a double click, whatever the times of
/// the edges (as long as no timeout is checked in between).
pub proof fn press_release_twice_is_double_click(t0: Timestamp, t1: Timestamp, t2: Timestamp, t3: Timestamp)
    ensures
        ({
            let s1 = state_after_edge(ButtonState::Idle, true, t0);
            let s2 = state_after_edge(s1, false, t1);
            let s3 = state_after_edge(s2, true, t2);
            &&& event_for_edge(ButtonState::Idle, true) is None
            &&& event_for_edge(s1, false) is None
            &&& event_for_edge(s2, true) is None
            &&& event_for_edge(s3, false) == Some(InputEvent::DoubleClick)
            &&& state_after_edge(s3, false, t3) == ButtonState::Idle
        }),
{
}

/// A press held for `LONG_PRESS_MS` or more is a long press once the
/// timeouts are checked; earlier checks report nothing.
pub proof fn held_press_is_long_press(t0: Timestamp, now: Timestamp)
    ensures
        ({
            let s = state_after_edge(ButtonState::Idle, true, t0);
            &&& now >= t0 + LONG_PRESS_MS ==> event_for_time(s, now) == Some(InputEvent::LongPress)
            &&& now < t0 + LONG_PRESS_MS ==> event_for_time(s, now) is None && state_after_time(s, now) == s
        }),
{
}

/// A press and release followed by more than `DOUBLE_CLICK_GAP_MS` of quiet
/// is a single click; until then nothing is reported.
pub proof fn lone_click_is_single_click(t0: Timestamp, t1: Timestamp, now: Timestamp)
    ensures
        ({
            let s = state_after_edge(state_after_edge(ButtonState::Idle, true, t0), false, t1);
            &&& now > t1 + DOUBLE_CLICK_GAP_MS ==> event_for_time(s, now) == Some(InputEvent::SingleClick)
            &&& now <= t1 + DOUBLE_CLICK_GAP_MS ==> event_for_time(s, now) is None
        }),
{
}

/// An idle tracker reports nothing on the passage of time.
pub proof fn idle_reports_nothing(now: Timestamp)
    ensures
        event_for_time(ButtonState::Idle, now) is None,
        state_after_time(ButtonState::Idle, now) == ButtonState::Idle,
{
}

/// Timeout checks while the second press of a double click is held report
/// nothing and keep the press: pressing, releasing, pressing again within
/// the gap (with timeout checks in between) and releasing is a double click,
/// however the checks fall while the second press is held.
pub proof fn second_press_survives_timeout_checks(
    since: Timestamp,
    now: Timestamp,
    t0: Timestamp,
    t1: Timestamp,
    c1: Timestamp,
    t2: Timestamp,
    c2: Timestamp,
    t3: Timestamp,
)
    requires
        c1 <= t1 + DOUBLE_CLICK_GAP_MS,
    ensures
        event_for_time(ButtonState::PressedSecond { since }, now) is None,
        state_after_time(ButtonState::PressedSecond { since }, now) == (ButtonState::PressedSecond { since }),
        ({
            let s1 = state_after_edge(ButtonState::Idle, true, t0);
            let s2 = state_after_edge(s1, false, t1);
            let s3 = state_after_time(s2, c1);
            let s4 = state_after_edge(s3, true, t2);
            let s5 = state_after_time(s4, c2);
            &&& event_for_time(s2, c1) is None
            &&& event_for_time(s4, c2) is None
            &&& event_for_edge(s5, false) == Some(InputEvent::DoubleClick)
            &&& state_after_edge(s5, false, t3) == ButtonState::Idle
        }),
{
}

} // verus!
