//! Routing of input events to the screen on top of the navigation stack.
use vstd::prelude::*;
use crate::display::screen::adjust_volume::{VolumeAdjustState, handle_volume_adjust, volume_adjust_effect};
use crate::display::screen::application_menu::{
    ApplicationMenuState, application_menu_accepts, application_menu_effect, handle_main_menu,
    resolve_selection,
};
use crate::display::screen::navigation::{Screen, Transition};
use crate::display::screen::settings::{handle_settings, settings_accepts, settings_effect};
use crate::display::screen::system_menu::{
    SystemMenuOutcome, handle_system_menu, system_menu_accepts, system_menu_effect,
};
use crate::display::screen::ui_state::UIState;
use crate::display::util::rotating::WrappingInt;
use crate::input::event::InputEvent;
use crate::input::rotary::RotationEvent;
use crate::protocol::Command;
use crate::vtype::{AudioApplication, AudioDevice, DeviceIdentifier};

verus! {

/// What the screens read about the host: the device and applications of the
/// application list on top (if that is the screen shown) and the playback
/// devices.
pub struct ScreenData {
    pub device: Option<AudioDevice>,
    pub applications: Vec<AudioApplication>,
    pub devices: Vec<AudioDevice>,
}

/// Work that handling an event leaves to the caller.
#[derive(Debug)]
pub enum Effect {
    Nothing,
    /// Send this command to the host.
    Send(Command),
    /// Open the application list of this device (see `open_application_list`).
    OpenDevice(Option<DeviceIdentifier>),
}

/// The stack after a transition: a push adds a screen, a pop leaves the top
/// screen unless it is the root, anything else keeps the stack.
pub open spec fn after_transition(stack: Seq<Screen>, t: Transition) -> Seq<Screen> {
    match t {
        Transition::Push(s) => stack.push(s),
        Transition::Pop => if stack.len() > 1 { stack.drop_last() } else { stack },
        _ => stack,
    }
}

/// Whether the screen `screen` can take `event` with `data`.
pub open spec fn screen_accepts(screen: Screen, event: InputEvent, data: ScreenData) -> bool {
    match screen {
        Screen::ApplicationList(s) => application_menu_accepts(
            s,
            event,
            data.device,
            data.applications@,
            data.devices@.len() as usize,
        ),
        Screen::VolumeAdjust(_) => true,
        Screen::Settings(s) => settings_accepts(s, event),
        Screen::SystemMenu(s) => system_menu_accepts(s, event),
    }
}

/// What the screen `screen` does with `event`: the screen afterwards, the
/// navigation, and the work left to the caller.
pub open spec fn screen_effect(screen: Screen, event: InputEvent, data: ScreenData) -> (Screen, Transition, Effect) {
    match screen {
        Screen::ApplicationList(s) => {
            let (s2, t) = application_menu_effect(s, event, data.device, data.applications@, data.devices@.len() as usize);
            (Screen::ApplicationList(s2), t, Effect::Nothing)
        },
        Screen::VolumeAdjust(s) => {
            let (s2, t, c) = volume_adjust_effect(s, event);
            (Screen::VolumeAdjust(s2), t, match c {
                Some(c) => Effect::Send(c),
                None => Effect::Nothing,
            })
        },
        Screen::Settings(s) => {
            let (s2, t) = settings_effect(s, event);
            (Screen::Settings(s2), t, Effect::Nothing)
        },
        Screen::SystemMenu(s) => {
            let (s2, o) = system_menu_effect(s, event, data.devices@);
            match o {
                SystemMenuOutcome::Navigate(t) => (Screen::SystemMenu(s2), t, Effect::Nothing),
                SystemMenuOutcome::OpenDevice(d) => (Screen::SystemMenu(s2), Transition::Stay, Effect::OpenDevice(d)),
            }
        },
    }
}

/// Whether `screen` can take `event` with `data` (see `screen_accepts`):
/// callers test this before `handle_event`.
pub fn event_accepted(screen: &Screen, event: InputEvent, data: &ScreenData) -> (r: bool)
    ensures
        r == screen_accepts(*screen, event, *data),
{
    match screen {
        Screen::ApplicationList(s) => match event {
            InputEvent::Rotation(RotationEvent::Next) => s.selected.can_next(),
            InputEvent::Rotation(RotationEvent::Previous) => s.selected.can_prev(),
            InputEvent::SingleClick => resolve_selection(s, &data.device, &data.applications).is_some(),
            InputEvent::LongPress => (data.devices.len() as i32) < i32::MAX,
            InputEvent::DoubleClick => true,
        },
        Screen::VolumeAdjust(_) => true,
        Screen::Settings(s) => match event {
            InputEvent::Rotation(RotationEvent::Next) => s.selected.can_next(),
            InputEvent::Rotation(RotationEvent::Previous) => s.selected.can_prev(),
            _ => true,
        },
        Screen::SystemMenu(s) => match event {
            InputEvent::Rotation(RotationEvent::Next) => s.value.can_next(),
            InputEvent::Rotation(RotationEvent::Previous) => s.value.can_prev(),
            InputEvent::SingleClick => s.count > i32::MIN,
            _ => true,
        },
    }
}

/// Hands `event` to the screen on top of the stack and carries out the
/// navigation it asks for; commands for the host and requests to open a
/// device's application list are returned to the caller.
pub fn handle_event(ui_state: &mut UIState, event: InputEvent, data: &ScreenData) -> (e: Effect)
    requires
        old(ui_state).wf(),
        screen_accepts(old(ui_state)@.last(), event, *data),
    ensures
        final(ui_state).wf(),
        ({
            let (top, t, eff) = screen_effect(old(ui_state)@.last(), event, *data);
            &&& final(ui_state)@ == after_transition(old(ui_state)@.update(old(ui_state)@.len() - 1, top), t)
            &&& e == eff
        }),
{
    let (transition, effect) = match ui_state.current_mut() {
        Screen::ApplicationList(state) => (
            handle_main_menu(state, event, &data.device, &data.applications, data.devices.len()),
            Effect::Nothing,
        ),
        Screen::VolumeAdjust(state) => {
            let (t, c) = handle_volume_adjust(state, event);
            let eff = match c {
                Some(c) => Effect::Send(c),
                None => Effect::Nothing,
            };
            (t, eff)
        },
        Screen::Settings(state) => (handle_settings(state, event), Effect::Nothing),
        Screen::SystemMenu(state) => match handle_system_menu(state, event, &data.devices) {
            SystemMenuOutcome::Navigate(t) => (t, Effect::Nothing),
            SystemMenuOutcome::OpenDevice(d) => (Transition::Stay, Effect::OpenDevice(d)),
        },
    };

    match transition {
        Transition::Stay | Transition::Ignored => {},
        Transition::Push(screen) => ui_state.push(screen),
        Transition::Pop => ui_state.pop(),
    }
    effect
}

/// Enters the application list of `device_id`, which holds
/// `application_count` applications, with the cursor on its first entry.
pub fn open_application_list(ui_state: &mut UIState, device_id: Option<DeviceIdentifier>, application_count: usize)
    ensures
        final(ui_state)@ == old(ui_state)@.push(Screen::ApplicationList(ApplicationMenuState {
            selected: WrappingInt { value: 0, max_value: application_count as i32 },
            application_count,
            device_id,
        })),
{
    let menu_state = ApplicationMenuState::new(application_count, device_id);
    ui_state.push(Screen::ApplicationList(menu_state));
}

/// On a non-empty stack, leaving a screen that was just entered gives the
/// stack back; no transition empties a non-empty stack (the root screen is
/// never left).
pub proof fn navigation_keeps_root(stack: Seq<Screen>, s: Screen, t: Transition)
    ensures
        stack.len() > 0 ==> after_transition(after_transition(stack, Transition::Push(s)), Transition::Pop) == stack,
        stack.len() > 0 ==> after_transition(stack, t).len() > 0,
        stack.len() == 1 ==> after_transition(stack, Transition::Pop) == stack,
{
    assert(stack.push(s).drop_last() =~= stack);
}

/// On a volume screen every command that its handler produces is handed to
/// the caller, and none is made up: a double click hands over the mute
/// command for the screen's application with the mute flag flipped, and a
/// detent hands over the volume command with the new level. The other events
/// hand over nothing.
pub proof fn volume_screen_commands_reach_caller(state: VolumeAdjustState, event: InputEvent, data: ScreenData)
    ensures
        ({
            let (top, t, e) = screen_effect(Screen::VolumeAdjust(state), event, data);
            let (s2, t2, c) = volume_adjust_effect(state, event);
            &&& top == Screen::VolumeAdjust(s2)
            &&& t == t2
            &&& (c matches Some(cmd) ==> e == Effect::Send(cmd))
            &&& (c is None ==> e == Effect::Nothing)
            &&& (event == InputEvent::DoubleClick ==> e == Effect::Send(Command::SetMute {
                id: state.application.id,
                mute: !state.application.is_muted,
            }))
            &&& (event == InputEvent::Rotation(RotationEvent::Next) || event == InputEvent::Rotation(RotationEvent::Previous)
                ==> e == Effect::Send(Command::SetVolume { id: state.application.id, percent: s2.value.value as u32 }))
            &&& (event == InputEvent::LongPress || event == InputEvent::SingleClick ==> e == Effect::Nothing)
        }),
{
}

} // verus!
