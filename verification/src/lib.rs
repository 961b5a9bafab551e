//! Verified core of the Volumize rotary-encoder and display firmware: input
//! classification, navigation state machines, layout arithmetic and the
//! audio-session registry that the firmware keeps in step with the host.
pub mod button_handling;
pub mod digits;
pub mod display;
pub mod frame;
pub mod input;
pub mod interrupt_handler;
pub mod navigation;
pub mod protocol;
pub mod screens;
pub mod vtype;
