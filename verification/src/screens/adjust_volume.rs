//! The volume screen: a value stepped by the encoder.
use vstd::prelude::*;
use crate::input::event::InputEvent;
use crate::input::rotary::RotationEvent;
use crate::screens::navigation::Transition;

verus! {

#[derive(Debug, Clone, Copy, PartialEq, Eq, Structural)]
pub struct VolumeAdjustState {
    pub value: i32,
}

impl Default for VolumeAdjustState {
    fn default() -> (r: Self)
        ensures
            r.value == 0,
    {
        VolumeAdjustState { value: 0 }
    }
}

/// The volume screen's state and navigation after `event`: a clockwise step
/// raises the value by one up to 100, a counter-clockwise step lowers it by
/// one (saturating at `i32::MIN`), a long press leaves.
pub open spec fn volume_effect(state: VolumeAdjustState, event: InputEvent) -> (VolumeAdjustState, Transition) {
    match event {
        InputEvent::Rotation(RotationEvent::Next) => (
            VolumeAdjustState { value: if state.value + 1 <= 100 { (state.value + 1) as i32 } else { 100 } },
            Transition::Stay,
        ),
        InputEvent::Rotation(RotationEvent::Previous) => (
            VolumeAdjustState { value: if state.value > i32::MIN { (state.value - 1) as i32 } else { i32::MIN } },
            Transition::Stay,
        ),
        InputEvent::LongPress => (state, Transition::Pop),
        _ => (state, Transition::Ignored),
    }
}

pub fn handle_volume_adjust(state: &mut VolumeAdjustState, event: InputEvent) -> (t: Transition)
    requires
        event == InputEvent::Rotation(RotationEvent::Next) ==> old(state).value < i32::MAX,
    ensures
        (*final(state), t) == volume_effect(*old(state), event),
{
    match event {
        InputEvent::Rotation(RotationEvent::Next) => {
            let v = state.value + 1;
            state.value = if v <= 100 { v } else { 100 };
            Transition::Stay
        },
        InputEvent::Rotation(RotationEvent::Previous) => {
            state.value = match state.value.checked_sub(1) {
                Some(v) => v,
                None => i32::MIN,
            };
            Transition::Stay
        },
        InputEvent::LongPress => Transition::Pop,
        _ => Transition::Ignored,
    }
}

} // verus!
