//! The application list of one device: the device itself first (when it is
//! known), then its applications.
use vstd::prelude::*;
use crate::display::screen::adjust_volume::{RenderApplication, VolumeAdjustState, VOLUME_STEPS};
use crate::display::screen::navigation::{Screen, Transition};
use crate::display::screen::system_menu::SystemMenuState;
use crate::display::geometry::{Point, Rectangle, Size, spec_point, spec_rect, spec_size};
use crate::display::util::rotating::WrappingInt;
use crate::display::widget::scrollable_list::ScrollState;
use crate::input::event::InputEvent;
use crate::input::rotary::RotationEvent;
use crate::vtype::{AudioApplication, AudioDevice, DeviceIdentifier};
use vstd::std_specs::convert::FromSpec;

verus! {

#[derive(Debug)]
pub struct ApplicationMenuState {
    pub selected: WrappingInt,
    pub application_count: usize,
    pub device_id: Option<DeviceIdentifier>,
}

impl ApplicationMenuState {
    /// The cursor on the first of `application_count` entries of the list of
    /// `device_id`.
    pub fn new(application_count: usize, device_id: Option<DeviceIdentifier>) -> (r: Self)
        ensures
            r.selected == (WrappingInt { value: 0, max_value: application_count as i32 }),
            r.application_count == application_count,
            r.device_id == device_id,
    {
        Self { selected: WrappingInt::new(0, application_count as i32), device_id, application_count }
    }
}

/// The entry that the cursor at `selected` (read as a `u32`) names: entry 0 is
/// the device when there is one, the applications follow.
pub open spec fn selection(
    selected: i32,
    device: Option<AudioDevice>,
    applications: Seq<AudioApplication>,
) -> Option<RenderApplication> {
    let sel = selected as u32;
    if sel == 0 && device is Some {
        Some(<RenderApplication as FromSpec<&AudioDevice>>::from_spec(&device->0))
    } else {
        let offset: u32 = if device is Some { 1 } else { 0 };
        let index = if sel >= offset { sel - offset } else { 0 };
        if index < applications.len() {
            Some(<RenderApplication as FromSpec<&AudioApplication>>::from_spec(&applications[index]))
        } else {
            None
        }
    }
}

/// The entry under the cursor.
pub fn resolve_selection(state: &ApplicationMenuState, device: &Option<AudioDevice>, applications: &Vec<AudioApplication>) -> (r: Option<RenderApplication>)
    ensures
        r == selection(state.selected.value, *device, applications@),
{
    let selected = state.selected.value() as u32;

    // Index 0 is the device entry, if a device is present.
    if selected == 0 {
        if let Some(device) = device {
            return Some(RenderApplication::from(device));
        }
    }

    let offset: u32 = if device.is_some() { 1 } else { 0 };
    let absolute_index = selected.saturating_sub(offset);
    if (absolute_index as usize) < applications.len() {
        Some(RenderApplication::from(&applications[absolute_index as usize]))
    } else {
        None
    }
}

/// The width of one card of the application list.
pub const TILE_WIDTH: u32 = 40;

/// The entries the application list shows, left to right: the device first
/// when it is known, then its applications in order.
pub open spec fn spec_entries(device: Option<AudioDevice>, applications: Seq<AudioApplication>) -> Seq<RenderApplication> {
    let apps = applications.map_values(
        |a: AudioApplication| <RenderApplication as FromSpec<&AudioApplication>>::from_spec(&a),
    );
    match device {
        Some(d) => seq![<RenderApplication as FromSpec<&AudioDevice>>::from_spec(&d)] + apps,
        None => apps,
    }
}

/// The entries the application list shows for `device` and its
/// `applications`.
pub fn render_entries(device: &Option<AudioDevice>, applications: &Vec<AudioApplication>) -> (r: Vec<RenderApplication>)
    ensures
        r@ == spec_entries(*device, applications@),
{
    let mut entries: Vec<RenderApplication> = Vec::new();
    if let Some(device) = device {
        entries.push(RenderApplication::from(device));
    }
    let ghost start = entries@;
    let mut i: usize = 0;
    while i < applications.len()
        invariant
            i <= applications@.len(),
            entries@ == start + applications@.take(i as int).map_values(
                |a: AudioApplication| <RenderApplication as FromSpec<&AudioApplication>>::from_spec(&a),
            ),
        decreases applications@.len() - i,
    {
        entries.push(RenderApplication::from(&applications[i]));
        proof {
            assert(applications@.take(i + 1) =~= applications@.take(i as int).push(applications@[i as int]));
        }
        i = i + 1;
        assert(entries@ =~= start + applications@.take(i as int).map_values(
            |a: AudioApplication| <RenderApplication as FromSpec<&AudioApplication>>::from_spec(&a),
        ));
    }
    assert(applications@.take(i as int) =~= applications@);
    assert(entries@ =~= spec_entries(*device, applications@));
    entries
}

/// The card of entry `index` on a display `display_height` pixels high:
/// `TILE_WIDTH` wide and the display's height, the entries left to right.
pub fn application_tile(index: usize, display_height: u32) -> (r: Rectangle)
    requires
        index * TILE_WIDTH <= i32::MAX,
    ensures
        r == spec_rect(spec_point((index * TILE_WIDTH) as i32, 0), spec_size(TILE_WIDTH, display_height)),
{
    let offset = index * (TILE_WIDTH as usize);
    Rectangle::new(Point::new(offset as i32, 0), Size::new(TILE_WIDTH, display_height))
}

/// The entry under the cursor is the entry shown at the cursor's position:
/// for a cursor on one of the entries, a click opens the card drawn there.
pub proof fn selection_is_shown_entry(selected: i32, device: Option<AudioDevice>, applications: Seq<AudioApplication>)
    requires
        0 <= selected < spec_entries(device, applications).len(),
    ensures
        selection(selected, device, applications) == Some(spec_entries(device, applications)[selected as int]),
{
}

/// What the application list does with `event`: its state afterwards and the
/// navigation.
pub open spec fn application_menu_effect(
    state: ApplicationMenuState,
    event: InputEvent,
    device: Option<AudioDevice>,
    applications: Seq<AudioApplication>,
    device_count: usize,
) -> (ApplicationMenuState, Transition) {
    match event {
        InputEvent::Rotation(RotationEvent::Next) => (
            ApplicationMenuState { selected: WrappingInt { value: state.selected.spec_next(), ..state.selected }, ..state },
            Transition::Stay,
        ),
        InputEvent::Rotation(RotationEvent::Previous) => (
            ApplicationMenuState { selected: WrappingInt { value: state.selected.spec_prev(), ..state.selected }, ..state },
            Transition::Stay,
        ),
        InputEvent::SingleClick => (
            state,
            Transition::Push(Screen::VolumeAdjust(VolumeAdjustState {
                value: WrappingInt {
                    value: if state.selected.value <= 0 { state.selected.value } else { 0 },
                    max_value: VOLUME_STEPS,
                },
                application: selection(state.selected.value, device, applications)->0,
            })),
        ),
        InputEvent::LongPress => (
            state,
            Transition::Push(Screen::SystemMenu(SystemMenuState {
                value: WrappingInt { value: 0, max_value: (device_count as i32 + 1) as i32 },
                count: (device_count as i32 + 1) as i32,
                scroll: ScrollState { offset: 0 },
            })),
        ),
        _ => (state, Transition::Ignored),
    }
}

/// Whether the application list can take `event`: the cursor arithmetic stays
/// in range, a click names an entry, and the device count leaves room for the
/// settings entry of the system menu.
pub open spec fn application_menu_accepts(
    state: ApplicationMenuState,
    event: InputEvent,
    device: Option<AudioDevice>,
    applications: Seq<AudioApplication>,
    device_count: usize,
) -> bool {
    &&& event == InputEvent::Rotation(RotationEvent::Next) ==> state.selected.can_step_next()
    &&& event == InputEvent::Rotation(RotationEvent::Previous) ==> state.selected.can_step_prev()
    &&& event == InputEvent::SingleClick ==> selection(state.selected.value, device, applications) is Some
    &&& event == InputEvent::LongPress ==> (device_count as i32) < i32::MAX
}

/// Handles `event` on the application list of `state.device_id`, where
/// `device` is that device (if known), `applications` its applications and
/// `device_count` the number of playback devices: a rotation moves the cursor
/// (wrapping), a click opens the volume screen of the entry under the cursor,
/// a long press opens the system menu, anything else is ignored.
pub fn handle_main_menu(
    state: &mut ApplicationMenuState,
    event: InputEvent,
    device: &Option<AudioDevice>,
    applications: &Vec<AudioApplication>,
    device_count: usize,
) -> (t: Transition)
    requires
        application_menu_accepts(*old(state), event, *device, applications@, device_count),
    ensures
        (*final(state), t) == application_menu_effect(*old(state), event, *device, applications@, device_count),
{
    match event {
        InputEvent::Rotation(RotationEvent::Next) => {
            state.selected.next();
            Transition::Stay
        },
        InputEvent::Rotation(RotationEvent::Previous) => {
            state.selected.prev();
            Transition::Stay
        },
        InputEvent::SingleClick => {
            let render_application = match resolve_selection(state, device, applications) {
                Some(r) => r,
                None => {
                    assert(false);
                    return Transition::Ignored;
                },
            };
            let volume = VolumeAdjustState::new(state.selected.value(), render_application);
            Transition::Push(Screen::VolumeAdjust(volume))
        },
        InputEvent::LongPress => {
            let menu = SystemMenuState::new(device_count as i32);
            Transition::Push(Screen::SystemMenu(menu))
        },
        _ => Transition::Ignored,
    }
}

} // verus!
