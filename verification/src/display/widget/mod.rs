//! Widgets' layout decisions.
pub mod icon;
pub mod rounded_rectangle;
pub mod mute_indicator;
pub mod scrollable_list;
pub mod vertical_fill_slider;
