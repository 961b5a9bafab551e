//! The screens of the user interface and how input events move between them.
pub mod adjust_volume;
pub mod application_menu;
pub mod dispatch;
pub mod main_menu;
pub mod navigation;
pub mod settings;
pub mod system_menu;
pub mod ui_state;
pub mod wait_for_data;
pub use navigation::{Screen, Transition};
