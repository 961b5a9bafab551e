//! The input events that drive the screens.
use vstd::prelude::*;
use crate::input::rotary::RotationEvent;

verus! {

/// A classified input: a button gesture or one encoder detent.
#[derive(Debug, Clone, Copy, PartialEq, Eq, Structural)]
pub enum InputEvent {
    SingleClick,
    DoubleClick,
    LongPress,
    Rotation(RotationEvent),
}

} // verus!
