//! The settings screen: a cursor over the settings entries.
use vstd::prelude::*;
use crate::display::screen::navigation::Transition;
use crate::display::util::rotating::WrappingInt;
use crate::input::event::InputEvent;
use crate::input::rotary::RotationEvent;

verus! {

/// The number of entries of the settings screen.
pub const SETTINGS_ITEM_COUNT: usize = 4;

#[derive(Debug, Clone, Copy, PartialEq, Eq, Structural)]
pub struct SettingsState {
    pub selected: WrappingInt,
}

impl SettingsState {
    /// The cursor on the first of the settings entries.
    pub fn new() -> (r: Self)
        ensures
            r.selected == (WrappingInt { value: 0, max_value: SETTINGS_ITEM_COUNT as i32 }),
    {
        Self { selected: WrappingInt::new(0, SETTINGS_ITEM_COUNT as i32) }
    }
}

/// What the settings screen does with `event`: its state afterwards and the
/// navigation.
pub open spec fn settings_effect(state: SettingsState, event: InputEvent) -> (SettingsState, Transition) {
    match event {
        InputEvent::LongPress => (state, Transition::Pop),
        InputEvent::Rotation(RotationEvent::Next) => (
            SettingsState { selected: WrappingInt { value: state.selected.spec_next(), ..state.selected } },
            Transition::Stay,
        ),
        InputEvent::Rotation(RotationEvent::Previous) => (
            SettingsState { selected: WrappingInt { value: state.selected.spec_prev(), ..state.selected } },
            Transition::Stay,
        ),
        _ => (state, Transition::Ignored),
    }
}

/// Whether the settings screen can take `event` without overflowing its cursor.
pub open spec fn settings_accepts(state: SettingsState, event: InputEvent) -> bool {
    &&& event == InputEvent::Rotation(RotationEvent::Next) ==> state.selected.can_step_next()
    &&& event == InputEvent::Rotation(RotationEvent::Previous) ==> state.selected.can_step_prev()
}

/// Handles `event` on the settings screen: a long press leaves it, a
/// rotation moves the cursor (wrapping around), anything else is ignored.
pub fn handle_settings(state: &mut SettingsState, event: InputEvent) -> (t: Transition)
    requires
        settings_accepts(*old(state), event),
    ensures
        (*final(state), t) == settings_effect(*old(state), event),
{
    match event {
        InputEvent::LongPress => Transition::Pop,
        InputEvent::Rotation(RotationEvent::Next) => {
            state.selected.next();
            Transition::Stay
        },
        InputEvent::Rotation(RotationEvent::Previous) => {
            state.selected.prev();
            Transition::Stay
        },
        _ => Transition::Ignored,
    }
}

} // verus!
