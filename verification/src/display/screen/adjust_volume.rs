//! The volume screen: the encoder sets the volume of one application or
//! device, a double click toggles its mute.
use vstd::prelude::*;
use vstd::std_specs::convert::FromSpecImpl;
use vstd::string::*;
use crate::display::screen::Transition;
use crate::display::util::rotating::WrappingInt;
use crate::input::event::InputEvent;
use crate::input::rotary::RotationEvent;
use crate::protocol::{Command, Identifier};
use crate::vtype::{AudioApplication, AudioDevice};

verus! {

/// What the volume screen shows of an application or device. The volume is
/// the bit pattern of its `f32` level.
#[derive(Debug)]
pub struct RenderApplication {
    pub id: Identifier,
    pub name: String,
    pub volume_bits: u32,
    pub is_muted: bool,
}

impl<'a> From<&'a AudioDevice> for RenderApplication {
    fn from(device: &'a AudioDevice) -> (r: Self) {
        RenderApplication {
            id: Identifier::Device(device.id.clone()),
            is_muted: device.volume.muted,
            name: device.friendly_name.clone(),
            volume_bits: device.volume.current_bits,
        }
    }
}

impl<'a> FromSpecImpl<&'a AudioDevice> for RenderApplication {
    open spec fn obeys_from_spec() -> bool {
        true
    }

    open spec fn from_spec(device: &'a AudioDevice) -> Self {
        RenderApplication {
            id: Identifier::Device(device.id),
            is_muted: device.volume.muted,
            name: device.friendly_name,
            volume_bits: device.volume.current_bits,
        }
    }
}

impl<'a> From<&'a AudioApplication> for RenderApplication {
    fn from(app: &'a AudioApplication) -> (r: Self) {
        RenderApplication {
            id: Identifier::App(app.process.id),
            is_muted: app.volume.muted,
            name: app.process.name.clone(),
            volume_bits: app.volume.current_bits,
        }
    }
}

impl<'a> FromSpecImpl<&'a AudioApplication> for RenderApplication {
    open spec fn obeys_from_spec() -> bool {
        true
    }

    open spec fn from_spec(app: &'a AudioApplication) -> Self {
        RenderApplication {
            id: Identifier::App(app.process.id),
            is_muted: app.volume.muted,
            name: app.process.name,
            volume_bits: app.volume.current_bits,
        }
    }
}

/// The volume screen's state: the volume in percent (`0..=100`) and what it
/// applies to.
#[derive(Debug)]
pub struct VolumeAdjustState {
    pub value: WrappingInt,
    pub application: RenderApplication,
}

/// The volume steps of the screen.
pub const VOLUME_STEPS: i32 = 101;

impl VolumeAdjustState {
    /// A volume screen for `application`, starting at `min(value, 0)`.
    pub fn new(value: i32, application: RenderApplication) -> (r: Self)
        ensures
            r.value == (WrappingInt { value: if value <= 0 { value } else { 0 }, max_value: VOLUME_STEPS }),
            r.application == application,
    {
        Self { value: WrappingInt::new(if value <= 0 { value } else { 0 }, VOLUME_STEPS), application: application }
    }
}

/// What the volume screen does with `event`: the state afterwards, the
/// navigation, and the command to send to the host.
pub open spec fn volume_adjust_effect(state: VolumeAdjustState, event: InputEvent) -> (VolumeAdjustState, Transition, Option<Command>) {
    match event {
        InputEvent::Rotation(RotationEvent::Next) => {
            let v = if state.value.value < state.value.max_value - 1 { state.value.value + 1 } else { state.value.value as int };
            let s = VolumeAdjustState { value: WrappingInt { value: v as i32, ..state.value }, ..state };
            (s, Transition::Stay, Some(Command::SetVolume { id: state.application.id, percent: v as i32 as u32 }))
        },
        InputEvent::Rotation(RotationEvent::Previous) => {
            let v = if state.value.value > 0 { state.value.value - 1 } else { state.value.value as int };
            let s = VolumeAdjustState { value: WrappingInt { value: v as i32, ..state.value }, ..state };
            (s, Transition::Stay, Some(Command::SetVolume { id: state.application.id, percent: v as i32 as u32 }))
        },
        InputEvent::DoubleClick => {
            let muted = !state.application.is_muted;
            let s = VolumeAdjustState { application: RenderApplication { is_muted: muted, ..state.application }, ..state };
            (s, Transition::Stay, Some(Command::SetMute { id: state.application.id, mute: muted }))
        },
        InputEvent::LongPress => (state, Transition::Pop, None),
        InputEvent::SingleClick => (state, Transition::Ignored, None),
    }
}

/// Handles `event` on the volume screen: a rotation steps the volume by one
/// (staying within `0..=100`) and asks the host to set it, a double click
/// toggles mute and tells the host, a long press leaves the screen. The
/// command to send to the host is returned beside the navigation.
pub fn handle_volume_adjust(state: &mut VolumeAdjustState, event: InputEvent) -> (r: (Transition, Option<Command>))
    ensures
        (*final(state), r.0, r.1) == volume_adjust_effect(*old(state), event),
{
    match event {
        InputEvent::Rotation(RotationEvent::Next) => {
            state.value.next_clamped();
            let percent = state.value.value() as u32;
            (Transition::Stay, Some(Command::SetVolume { id: state.application.id.duplicate(), percent }))
        },
        InputEvent::Rotation(RotationEvent::Previous) => {
            state.value.prev_clamped();
            let percent = state.value.value() as u32;
            (Transition::Stay, Some(Command::SetVolume { id: state.application.id.duplicate(), percent }))
        },
        InputEvent::DoubleClick => {
            state.application.is_muted = !state.application.is_muted;
            (Transition::Stay, Some(Command::SetMute { id: state.application.id.duplicate(), mute: state.application.is_muted }))
        },
        InputEvent::LongPress => (Transition::Pop, None),
        InputEvent::SingleClick => (Transition::Ignored, None),
    }
}

/// On a volume screen whose level is a percentage (`0..=100`), every event
/// keeps it a percentage, and the level sent to the host is the new level.
pub proof fn volume_stays_a_percentage(state: VolumeAdjustState, event: InputEvent)
    requires
        state.value.max_value == VOLUME_STEPS,
        0 <= state.value.value <= 100,
    ensures
        ({
            let (s, _, c) = volume_adjust_effect(state, event);
            &&& s.value.max_value == VOLUME_STEPS
            &&& 0 <= s.value.value <= 100
            &&& (c matches Some(Command::SetVolume { percent, .. }) ==> percent == s.value.value)
        }),
{
}

/// One encoder detent moves the volume by exactly one step, stopping at the
/// ends of the scale: a counter-clockwise detent gives `v - 1` (or `v` at 0
/// and below), a clockwise detent gives `v + 1` (or `v` at the top), the
/// level sent to the host is the new level for the screen's application,
/// and the application and its mute flag are kept.
pub proof fn one_detent_moves_volume_one_step(state: VolumeAdjustState, event: InputEvent)
    requires
        event == InputEvent::Rotation(RotationEvent::Next) || event == InputEvent::Rotation(RotationEvent::Previous),
    ensures
        ({
            let v = state.value.value as int;
            let top = state.value.max_value - 1;
            let (s, t, c) = volume_adjust_effect(state, event);
            let expected = if event == InputEvent::Rotation(RotationEvent::Previous) {
                if v > 0 { v - 1 } else { v }
            } else {
                if v < top { v + 1 } else { v }
            };
            &&& s.value.value == expected
            &&& -1 <= s.value.value - v <= 1
            &&& s.value.max_value == state.value.max_value
            &&& s.application == state.application
            &&& t == Transition::Stay
            &&& c == Some(Command::SetVolume { id: state.application.id, percent: expected as i32 as u32 })
            &&& (state.value.max_value == VOLUME_STEPS && 0 <= v <= 100 ==> 0 <= expected <= 100
                && (event == InputEvent::Rotation(RotationEvent::Previous) ==> expected == (if v > 0 { v - 1 } else { 0 }))
                && (event == InputEvent::Rotation(RotationEvent::Next) ==> expected == (if v < 100 { v + 1 } else { 100 })))
        }),
{
}

/// The first `max_chars` characters of `name` (at least one character is
/// kept when the name has one).
pub fn truncate_name(name: &str, max_chars: usize) -> (out: String)
    ensures
        out@ == name@.take(
            if name@.len() < (if max_chars > 0 { max_chars as int } else { 1 }) {
                name@.len() as int
            } else {
                if max_chars > 0 { max_chars as int } else { 1 }
            },
        ),
{
    let limit = if max_chars > 0 { max_chars } else { 1 };
    let len = name.unicode_len();
    let k = if len < limit { len } else { limit };
    let prefix = name.substring_char(0, k);
    let out = String::from_str(prefix);
    assert(out@ =~= name@.take(k as int));
    out
}

} // verus!
