//! The system menu: one entry per playback device, then the settings entry.
use vstd::prelude::*;
use crate::display::screen::navigation::{Screen, Transition};
use crate::display::screen::settings::SettingsState;
use crate::display::util::rotating::WrappingInt;
use crate::display::widget::scrollable_list::ScrollState;
use crate::input::event::InputEvent;
use crate::input::rotary::RotationEvent;
use crate::vtype::{AudioDevice, DeviceIdentifier};

verus! {

#[derive(Debug, Clone, Copy, PartialEq, Eq, Structural)]
pub struct SystemMenuState {
    pub value: WrappingInt,
    pub count: i32,
    pub scroll: ScrollState,
}

impl SystemMenuState {
    /// A menu over `menu_item_count` devices plus the settings entry, with
    /// the cursor on the first entry.
    pub fn new(menu_item_count: i32) -> (r: Self)
        requires
            menu_item_count < i32::MAX,
        ensures
            r.value == (WrappingInt { value: 0, max_value: (menu_item_count + 1) as i32 }),
            r.count == menu_item_count + 1,
            r.scroll.offset == 0,
    {
        let menu_count = menu_item_count + 1; // 1 is for settings index.
        Self { value: WrappingInt::new(0, menu_count), count: menu_count, scroll: ScrollState::default() }
    }
}

/// What the system menu asks for after an event.
#[derive(Debug)]
pub enum SystemMenuOutcome {
    /// A navigation step.
    Navigate(Transition),
    /// Open the application list of the device with this id (`None` when the
    /// cursor is past the devices); the list needs that device's application
    /// count, see `open_application_list`.
    OpenDevice(Option<DeviceIdentifier>),
}

/// The id of device `index` of `devices`, if there is such a device.
pub open spec fn device_id_at(devices: Seq<AudioDevice>, index: i32) -> Option<DeviceIdentifier> {
    if (index as usize) < devices.len() {
        Some(devices[index as usize as int].id)
    } else {
        None
    }
}

/// What the system menu does with `event`: its state afterwards and what
/// it asks for.
pub open spec fn system_menu_effect(
    state: SystemMenuState,
    event: InputEvent,
    devices: Seq<AudioDevice>,
) -> (SystemMenuState, SystemMenuOutcome) {
    match event {
        InputEvent::Rotation(RotationEvent::Next) => (
            SystemMenuState { value: WrappingInt { value: state.value.spec_next(), ..state.value }, ..state },
            SystemMenuOutcome::Navigate(Transition::Stay),
        ),
        InputEvent::Rotation(RotationEvent::Previous) => (
            SystemMenuState { value: WrappingInt { value: state.value.spec_prev(), ..state.value }, ..state },
            SystemMenuOutcome::Navigate(Transition::Stay),
        ),
        InputEvent::SingleClick => if state.value.value == state.count - 1 {
            (
                state,
                SystemMenuOutcome::Navigate(Transition::Push(Screen::Settings(SettingsState {
                    selected: WrappingInt { value: 0, max_value: 4 },
                }))),
            )
        } else {
            (state, SystemMenuOutcome::OpenDevice(device_id_at(devices, state.value.value)))
        },
        InputEvent::LongPress => (state, SystemMenuOutcome::Navigate(Transition::Pop)),
        _ => (state, SystemMenuOutcome::Navigate(Transition::Ignored)),
    }
}

/// Whether the system menu can take `event` without overflowing its arithmetic.
pub open spec fn system_menu_accepts(state: SystemMenuState, event: InputEvent) -> bool {
    &&& event == InputEvent::Rotation(RotationEvent::Next) ==> state.value.can_step_next()
    &&& event == InputEvent::Rotation(RotationEvent::Previous) ==> state.value.can_step_prev()
    &&& event == InputEvent::SingleClick ==> state.count > i32::MIN
}

/// Handles `event` on the system menu: a rotation moves the cursor
/// (wrapping), a click on the last entry opens the settings and a click on a
/// device entry opens that device's application list, a long press leaves.
pub fn handle_system_menu(state: &mut SystemMenuState, event: InputEvent, devices: &Vec<AudioDevice>) -> (r: SystemMenuOutcome)
    requires
        system_menu_accepts(*old(state), event),
    ensures
        (*final(state), r) == system_menu_effect(*old(state), event, devices@),
{
    match event {
        InputEvent::Rotation(RotationEvent::Next) => {
            state.value.next();
            SystemMenuOutcome::Navigate(Transition::Stay)
        },
        InputEvent::Rotation(RotationEvent::Previous) => {
            state.value.prev();
            SystemMenuOutcome::Navigate(Transition::Stay)
        },
        InputEvent::SingleClick => {
            if state.value.value() == state.count - 1 {
                SystemMenuOutcome::Navigate(Transition::Push(Screen::Settings(SettingsState::new())))
            } else {
                let index = state.value.value() as usize;
                let device_id = if index < devices.len() {
                    Some(devices[index].id.clone())
                } else {
                    None
                };
                SystemMenuOutcome::OpenDevice(device_id)
            }
        },
        InputEvent::LongPress => SystemMenuOutcome::Navigate(Transition::Pop),
        _ => SystemMenuOutcome::Navigate(Transition::Ignored),
    }
}

/// A click on device entry `i` (any entry but the last, which is the
/// settings) asks to open exactly device `i` of the list, and a click on the
/// last entry opens the settings; the menu itself does not change.
pub proof fn device_entry_opens_that_device(state: SystemMenuState, devices: Seq<AudioDevice>)
    requires
        0 <= state.value.value,
    ensures
        ({
            let (s, o) = system_menu_effect(state, InputEvent::SingleClick, devices);
            let i = state.value.value as int;
            &&& s == state
            &&& (i != state.count - 1 && i < devices.len() ==> o == SystemMenuOutcome::OpenDevice(Some(devices[i].id)))
            &&& (i != state.count - 1 && i >= devices.len() ==> o == SystemMenuOutcome::OpenDevice(None))
            &&& (i == state.count - 1 ==> o matches SystemMenuOutcome::Navigate(Transition::Push(Screen::Settings(_))))
        }),
{
}

} // verus!
