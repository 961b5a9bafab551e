//! Screens, transitions and the routing of events to the screen on top.
use vstd::prelude::*;
use crate::input::event::InputEvent;
use crate::screens::adjust_volume::{VolumeAdjustState, handle_volume_adjust, volume_effect};
use crate::screens::main_menu::{MainMenuState, handle_main_menu, main_menu_effect};
use crate::screens::settings::{SettingsState, handle_settings};
use crate::screens::ui_state::UIState;
use crate::input::rotary::RotationEvent;

verus! {

/// What an event does to the navigation stack.
#[derive(Debug, Clone, Copy, PartialEq, Eq, Structural)]
pub enum Transition {
    /// The event was handled; the screen stays.
    Stay,
    /// Enter a new screen on top.
    Push(Screen),
    /// Go back to the previous screen.
    Pop,
    /// The event does not apply here (same as `Stay`).
    Ignored,
}

/// A screen with its state.
#[derive(Debug, Clone, Copy, PartialEq, Eq, Structural)]
pub enum Screen {
    MainMenu(MainMenuState),
    VolumeAdjust(VolumeAdjustState),
    Settings(SettingsState),
}

impl Default for Screen {
    fn default() -> (r: Self)
        ensures
            r == Screen::MainMenu(MainMenuState { selected: 0 }),
    {
        Self::MainMenu(MainMenuState::default())
    }
}

/// What the screen `screen` does with `event`.
pub open spec fn screen_effect(screen: Screen, event: InputEvent) -> (Screen, Transition) {
    match screen {
        Screen::MainMenu(s) => {
            let (s2, t) = main_menu_effect(s, event);
            (Screen::MainMenu(s2), t)
        },
        Screen::VolumeAdjust(s) => {
            let (s2, t) = volume_effect(s, event);
            (Screen::VolumeAdjust(s2), t)
        },
        Screen::Settings(s) => (Screen::Settings(s), if event == InputEvent::LongPress {
            Transition::Pop
        } else {
            Transition::Ignored
        }),
    }
}

/// The stack after a transition.
pub open spec fn after_transition(stack: Seq<Screen>, t: Transition) -> Seq<Screen> {
    match t {
        Transition::Push(s) => stack.push(s),
        Transition::Pop => if stack.len() > 1 { stack.drop_last() } else { stack },
        _ => stack,
    }
}

/// Hands `event` to the screen on top and carries out the navigation it
/// asks for.
pub fn handle_event(ui_state: &mut UIState, event: InputEvent)
    requires
        old(ui_state).wf(),
        event == InputEvent::Rotation(RotationEvent::Next) ==> !(old(ui_state)@.last() matches Screen::VolumeAdjust(v)
            && v.value == i32::MAX),
    ensures
        final(ui_state).wf(),
        ({
            let (top, t) = screen_effect(old(ui_state)@.last(), event);
            final(ui_state)@ == after_transition(old(ui_state)@.update(old(ui_state)@.len() - 1, top), t)
        }),
{
    let transition = match ui_state.current_mut() {
        Screen::MainMenu(state) => handle_main_menu(state, event),
        Screen::VolumeAdjust(state) => handle_volume_adjust(state, event),
        Screen::Settings(state) => handle_settings(state, event),
    };

    match transition {
        Transition::Stay | Transition::Ignored => {},
        Transition::Push(screen) => ui_state.push(screen),
        Transition::Pop => ui_state.pop(),
    }
}

/// On a non-empty stack, leaving a screen that was just entered gives the
/// stack back; no transition empties a non-empty stack (the root screen is
/// never left).
pub proof fn navigation_keeps_root(stack: Seq<Screen>, s: Screen, t: Transition)
    ensures
        stack.len() > 0 ==> after_transition(after_transition(stack, Transition::Push(s)), Transition::Pop) == stack,
        stack.len() > 0 ==> after_transition(stack, t).len() > 0,
        stack.len() == 1 ==> after_transition(stack, Transition::Pop) == stack,
{
    assert(stack.push(s).drop_last() =~= stack);
}

} // verus!
