//! Decisions taken when the GPIO interrupt fires: decoding the quadrature
//! encoder's pin levels into steps.
pub mod rotary;
