//! A simpler screen set: a main menu, a volume screen and a settings screen,
//! handled synchronously.
pub mod adjust_volume;
pub mod main_menu;
pub mod navigation;
pub mod settings;
pub mod ui_state;
pub use navigation::{Screen, Transition, handle_event};
