//! The settings screen: only a long press does anything (it leaves).
use vstd::prelude::*;
use crate::input::event::InputEvent;
use crate::screens::navigation::Transition;

verus! {

#[derive(Debug, Clone, Copy, PartialEq, Eq, Structural)]
pub struct SettingsState {
    pub selected: usize,
}

impl Default for SettingsState {
    fn default() -> (r: Self)
        ensures
            r.selected == 0,
    {
        SettingsState { selected: 0 }
    }
}

pub fn handle_settings(_state: &mut SettingsState, event: InputEvent) -> (t: Transition)
    ensures
        *final(_state) == *old(_state),
        t == (if event == InputEvent::LongPress { Transition::Pop } else { Transition::Ignored }),
{
    match event {
        InputEvent::LongPress => Transition::Pop,
        _ => Transition::Ignored,
    }
}

} // verus!
