//! The main menu: a cursor moved by the encoder.
use vstd::prelude::*;
use crate::input::event::InputEvent;
use crate::input::rotary::RotationEvent;
use crate::screens::navigation::Transition;

verus! {

#[derive(Debug, Clone, Copy, PartialEq, Eq, Structural)]
pub struct MainMenuState {
    pub selected: usize,
}

impl Default for MainMenuState {
    fn default() -> (r: Self)
        ensures
            r.selected == 0,
    {
        MainMenuState { selected: 0 }
    }
}

/// The main menu's state and navigation after `event`: the encoder moves the
/// cursor by one, saturating at both ends of `usize`; a click stays.
pub open spec fn main_menu_effect(state: MainMenuState, event: InputEvent) -> (MainMenuState, Transition) {
    match event {
        InputEvent::Rotation(RotationEvent::Next) => (
            MainMenuState { selected: if state.selected < usize::MAX { (state.selected + 1) as usize } else { usize::MAX } },
            Transition::Stay,
        ),
        InputEvent::Rotation(RotationEvent::Previous) => (
            MainMenuState { selected: if state.selected > 0 { (state.selected - 1) as usize } else { 0 } },
            Transition::Stay,
        ),
        InputEvent::SingleClick => (state, Transition::Stay),
        _ => (state, Transition::Ignored),
    }
}

pub fn handle_main_menu(state: &mut MainMenuState, event: InputEvent) -> (t: Transition)
    ensures
        (*final(state), t) == main_menu_effect(*old(state), event),
{
    match event {
        InputEvent::Rotation(RotationEvent::Next) => {
            state.selected = state.selected.saturating_add(1);
            Transition::Stay
        },
        InputEvent::Rotation(RotationEvent::Previous) => {
            state.selected = state.selected.saturating_sub(1);
            Transition::Stay
        },
        InputEvent::SingleClick => Transition::Stay,
        _ => Transition::Ignored,
    }
}

} // verus!
