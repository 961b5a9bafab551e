//! The navigation outcome of an event and the screens it can lead to.
use vstd::prelude::*;
use crate::display::screen::adjust_volume::VolumeAdjustState;
use crate::display::screen::application_menu::ApplicationMenuState;
use crate::display::screen::settings::SettingsState;
use crate::display::screen::system_menu::SystemMenuState;

verus! {

/// What an event does to the navigation stack.
#[derive(Debug)]
pub enum Transition {
    /// The event was handled; the screen stays.
    Stay,
    /// Enter a new screen on top.
    Push(Screen),
    /// Go back to the previous screen.
    Pop,
    /// The event does not apply here (same as `Stay`).
    Ignored,
}

/// A screen with its state.
#[derive(Debug)]
pub enum Screen {
    ApplicationList(ApplicationMenuState),
    SystemMenu(SystemMenuState),
    VolumeAdjust(VolumeAdjustState),
    Settings(SettingsState),
}

} // verus!
