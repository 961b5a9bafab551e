//! Input classification: button edges into clicks, encoder positions into
//! rotation steps.
pub mod button;
pub mod edge_filter;
pub mod event;
pub mod pulse_counter;
pub mod rotary;
