//! Button gesture classification reporting its own event type: the same
//! gesture rules as `input::button`, with the gestures as `ButtonEvent`s.
use vstd::prelude::*;
use crate::input::event::InputEvent;
use crate::input::button::{event_for_edge, event_for_time, 
    ButtonState, DOUBLE_CLICK_GAP_MS, LONG_PRESS_MS, elapsed, state_after_edge, state_after_time,
};

verus! {

/// A recognised gesture.
#[derive(Debug, Clone, Copy, PartialEq, Eq, Structural)]
pub enum ButtonEvent {
    SingleClick,
    DoubleClick,
    LongPress,
}

/// The gesture an edge completes: only the release of a second press.
pub open spec fn gesture_for_edge(s: ButtonState, is_down: bool) -> Option<ButtonEvent> {
    if s is PressedSecond && !is_down {
        Some(ButtonEvent::DoubleClick)
    } else {
        None
    }
}

/// The gesture that the passage of time to `now` completes.
pub open spec fn gesture_for_time(s: ButtonState, now: u64) -> Option<ButtonEvent> {
    match s {
        ButtonState::Pressed { since } => if elapsed(now, since) >= LONG_PRESS_MS {
            Some(ButtonEvent::LongPress)
        } else {
            None
        },
        ButtonState::WaitingForSecondPress { released_at } => if elapsed(now, released_at) > DOUBLE_CLICK_GAP_MS {
            Some(ButtonEvent::SingleClick)
        } else {
            None
        },
        _ => None,
    }
}

/// Tracks one button through its gestures.
pub struct ButtonTracker {
    pub state: ButtonState,
}

impl ButtonTracker {
    /// A tracker in the idle state.
    pub fn new() -> (r: Self)
        ensures
            r.state == ButtonState::Idle,
    {
        Self { state: ButtonState::Idle }
    }

    /// Feeds one debounced edge: `is_down` is the new level, `now` its time.
    pub fn on_edge(&mut self, is_down: bool, now: u64) -> (r: Option<ButtonEvent>)
        ensures
            final(self).state == state_after_edge(old(self).state, is_down, now),
            r == gesture_for_edge(old(self).state, is_down),
    {
        match self.state {
            ButtonState::Idle => {
                if is_down {
                    self.state = ButtonState::Pressed { since: now };
                }
                None
            },
            ButtonState::Pressed { since: _ } => {
                if !is_down {
                    // released: a single or a double click, which the next edge or timeout tells
                    self.state = ButtonState::WaitingForSecondPress { released_at: now };
                }
                None
            },
            ButtonState::WaitingForSecondPress { .. } => {
                if is_down {
                    self.state = ButtonState::PressedSecond { since: now };
                }
                None
            },
            ButtonState::PressedSecond { .. } => {
                if !is_down {
                    self.state = ButtonState::Idle;
                    return Some(ButtonEvent::DoubleClick);
                }
                None
            },
        }
    }

    /// Call this every loop iteration (regardless of new edges) with the
    /// current time, to resolve timeouts that don't depend on a new press.
    pub fn check_timeouts(&mut self, now: u64) -> (r: Option<ButtonEvent>)
        ensures
            final(self).state == state_after_time(old(self).state, now),
            r == gesture_for_time(old(self).state, now),
    {
        match self.state {
            ButtonState::Pressed { since } => {
                if now.saturating_sub(since) >= LONG_PRESS_MS {
                    self.state = ButtonState::Idle;
                    Some(ButtonEvent::LongPress)
                } else {
                    None
                }
            },
            ButtonState::WaitingForSecondPress { released_at } => {
                if now.saturating_sub(released_at) > DOUBLE_CLICK_GAP_MS {
                    self.state = ButtonState::Idle;
                    Some(ButtonEvent::SingleClick)
                } else {
                    None
                }
            },
            _ => None,
        }
    }
}

/// The gesture of a `ButtonEvent` as an input event.
pub open spec fn as_input_event(e: ButtonEvent) -> InputEvent {
    match e {
        ButtonEvent::SingleClick => InputEvent::SingleClick,
        ButtonEvent::DoubleClick => InputEvent::DoubleClick,
        ButtonEvent::LongPress => InputEvent::LongPress,
    }
}

/// This tracker and the one in `input::button` recognise the same gestures
/// at the same moments.
pub proof fn same_gestures_as_input_tracker(s: ButtonState, is_down: bool, now: u64)
    ensures
        match gesture_for_edge(s, is_down) {
            Some(g) => event_for_edge(s, is_down) == Some(as_input_event(g)),
            None => event_for_edge(s, is_down) is None,
        },
        match gesture_for_time(s, now) {
            Some(g) => event_for_time(s, now) == Some(as_input_event(g)),
            None => event_for_time(s, now) is None,
        },
{
}

/// Timeout checks while the second press of a double click is held report
/// nothing and keep the press, so a press, a release, a second press within
/// the gap and its release are a double click whatever checks fall between.
pub proof fn second_press_survives_gesture_checks(
    since: u64,
    now: u64,
    t0: u64,
    t1: u64,
    c1: u64,
    t2: u64,
    c2: u64,
    t3: u64,
)
    requires
        c1 <= t1 + DOUBLE_CLICK_GAP_MS,
    ensures
        gesture_for_time(ButtonState::PressedSecond { since }, now) is None,
        state_after_time(ButtonState::PressedSecond { since }, now) == (ButtonState::PressedSecond { since }),
        ({
            let s1 = state_after_edge(ButtonState::Idle, true, t0);
            let s2 = state_after_edge(s1, false, t1);
            let s3 = state_after_time(s2, c1);
            let s4 = state_after_edge(s3, true, t2);
            let s5 = state_after_time(s4, c2);
            &&& gesture_for_time(s2, c1) is None
            &&& gesture_for_time(s4, c2) is None
            &&& gesture_for_edge(s5, false) == Some(ButtonEvent::DoubleClick)
            &&& state_after_edge(s5, false, t3) == ButtonState::Idle
        }),
{
}

} // verus!
