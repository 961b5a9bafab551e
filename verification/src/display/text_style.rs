//! The text sizes used on the display.
use vstd::prelude::*;

verus! {

/// A text size: small, medium or large monospace type.
#[derive(Debug, Clone, Copy, PartialEq, Eq, Structural)]
pub enum TextStyle {
    Small,
    Medium,
    Large,
}

} // verus!
