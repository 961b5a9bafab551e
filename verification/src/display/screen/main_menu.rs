//! A fixed three-entry main menu whose first entry opens the volume screen.
use vstd::prelude::*;
use crate::display::screen::adjust_volume::{RenderApplication, VolumeAdjustState};
use crate::display::screen::navigation::{Screen, Transition};
use crate::display::util::rotating::WrappingInt;
use crate::input::event::InputEvent;
use crate::input::rotary::RotationEvent;
use crate::protocol::Identifier;

verus! {

/// The number of entries of the main menu.
pub const MENU_ITEM_COUNT: usize = 3;

#[derive(Debug, Clone, Copy, PartialEq, Eq, Structural)]
pub struct MainMenuState {
    pub selected: usize,
}

impl Default for MainMenuState {
    fn default() -> (r: Self)
        ensures
            r.selected == 0,
    {
        MainMenuState { selected: 0 }
    }
}

impl Default for VolumeAdjustState {
    /// A volume screen at zero with a wrap of zero, for application id `0`
    /// with an empty name, silent volume and not muted.
    fn default() -> (r: Self)
        ensures
            r.value == (WrappingInt { value: 0, max_value: 0 }),
            r.application.id == Identifier::App(0),
            r.application.name@ == Seq::<char>::empty(),
            r.application.volume_bits == 0,
            !r.application.is_muted,
    {
        VolumeAdjustState {
            value: WrappingInt::new(0, 0),
            application: RenderApplication {
                id: Identifier::App(0),
                name: String::new(),
                volume_bits: 0,
                is_muted: false,
            },
        }
    }
}

/// Handles `event` on the main menu: a rotation moves the cursor around the
/// three entries, a click on the first entry opens the volume screen (a click
/// elsewhere stays), anything else is ignored.
pub fn handle_main_menu(state: &mut MainMenuState, event: InputEvent) -> (t: Transition)
    ensures
        match event {
            InputEvent::Rotation(RotationEvent::Next) => t is Stay && final(state).selected == (if old(state).selected
                < usize::MAX { old(state).selected + 1 } else { usize::MAX as int }) % (MENU_ITEM_COUNT as int),
            InputEvent::Rotation(RotationEvent::Previous) => t is Stay && final(state).selected == (if old(
                state,
            ).selected == 0 { MENU_ITEM_COUNT - 1 } else { old(state).selected - 1 }),
            InputEvent::SingleClick => *final(state) == *old(state) && (if old(state).selected == 0 {
                t matches Transition::Push(Screen::VolumeAdjust(v)) && v.value == (WrappingInt {
                    value: 0,
                    max_value: 0,
                }) && v.application.id == Identifier::App(0) && v.application.name@ == Seq::<char>::empty()
                    && v.application.volume_bits == 0 && !v.application.is_muted
            } else {
                t is Stay
            }),
            _ => t is Ignored && *final(state) == *old(state),
        },
{
    match event {
        InputEvent::Rotation(RotationEvent::Next) => {
            state.selected = state.selected.saturating_add(1) % MENU_ITEM_COUNT;
            Transition::Stay
        },
        InputEvent::Rotation(RotationEvent::Previous) => {
            if state.selected == 0 {
                state.selected = MENU_ITEM_COUNT - 1;
            } else {
                state.selected = state.selected.saturating_sub(1);
            }
            Transition::Stay
        },
        InputEvent::SingleClick => match state.selected {
            0 => Transition::Push(Screen::VolumeAdjust(VolumeAdjustState::default())),
            _ => Transition::Stay,
        },
        _ => Transition::Ignored,
    }
}

} // verus!
