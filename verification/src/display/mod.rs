//! Display-side logic: geometry, layout styles, widgets' arithmetic, screens and
//! the registry of audio devices and applications.
pub mod geometry;
pub mod keyed_list;
pub mod registry;
pub mod style;
pub mod text_style;
pub mod util;
pub mod screen;
pub mod widget;
