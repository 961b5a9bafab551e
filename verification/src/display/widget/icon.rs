//! An icon: a bitmap centred on a filled background.
use vstd::prelude::*;
use crate::display::geometry::BinaryColor;
use crate::display::style::bitmap::Bitmap;
use crate::display::style::style_type::{Align, Style, spec_corners_all, spec_insets_all};

verus! {

pub struct IconWidget<'a> {
    pub bitmap: Bitmap<'a>,
    pub color: BinaryColor,
    pub style: Style<BinaryColor>,
}

impl<'a> IconWidget<'a> {
    /// An icon drawn in the inverse of `color` on a `color` background,
    /// centred.
    pub fn new(bitmap: Bitmap<'a>, color: BinaryColor) -> (r: Self)
        ensures
            r.bitmap == bitmap,
            r.color == color,
            r.style == (Style {
                margin: spec_insets_all(0),
                padding: spec_insets_all(0),
                background_color: Some(color),
                foreground_color: color.spec_invert(),
                border: None,
                radius: spec_corners_all(0),
                align: Align::Center,
            }),
    {
        Self { bitmap, color, style: Style::new(color.invert()).background(color).align(Align::Center) }
    }

    /// The colour the icon's set pixels are drawn in.
    pub fn ink(&self) -> (r: BinaryColor)
        ensures
            r == self.color.spec_invert(),
    {
        self.color.invert()
    }
}

} // verus!
