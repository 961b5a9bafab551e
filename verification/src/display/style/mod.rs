//! Box-model styling and layout helpers.
pub mod bitmap;
pub mod flexbox;
pub mod style_type;
