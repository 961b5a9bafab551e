//! Small helpers of the display code.
pub mod rotating;
