//! Layout of the rounded card that shows one application or device: a
//! framed box split into rows for the name, the icon, the level slider, the
//! percentage and the mute mark.
use vstd::prelude::*;
use crate::display::geometry::{
    BinaryColor, LAYOUT_LIMIT, Rectangle, Size, rect_in_limit, spec_point, spec_rect, spec_size,
};
use crate::display::style::flexbox::{
    Axis, Flexbox, lemma_split_in_range_within_limit, prefix_sum, spec_split,
};
use crate::display::style::style_type::{
    Align, Border, PaintLayout, Style, align_offset, spec_corners_all, spec_insets_all,
};

verus! {

/// The width of the level slider in the middle row.
pub const CARD_SLIDER_WIDTH: u32 = 10;

/// The gap between the rows of a card.
pub const CARD_ROW_GAP: i32 = 3;

/// The areas of a card: its frame, and the rows inside it.
#[derive(Debug, Clone, Copy, PartialEq, Eq, Structural)]
pub struct CardLayout {
    pub frame: PaintLayout,
    pub name: Rectangle,
    pub icon: Rectangle,
    pub slider: Rectangle,
    pub percentage: Rectangle,
    pub mute: Rectangle,
}

/// The frame of a card: a one-pixel border with rounded corners of radius 3,
/// a margin of 2, a padding of 1, drawn on an unlit background and centred.
pub open spec fn spec_card_style() -> Style<BinaryColor> {
    Style {
        margin: spec_insets_all(2),
        padding: spec_insets_all(1),
        background_color: Some(BinaryColor::Off),
        foreground_color: BinaryColor::On,
        border: Some(Border { width: 1, color: BinaryColor::On }),
        radius: spec_corners_all(3),
        align: Align::Center,
    }
}

/// The style of a card's frame.
pub fn card_style() -> (r: Style<BinaryColor>)
    ensures
        r == spec_card_style(),
{
    Style::new(BinaryColor::On)
        .padding_all(1)
        .margin_all(2)
        .background(BinaryColor::Off)
        .border(1, BinaryColor::On)
        .radius_all(3)
        .align(Align::Center)
}

/// The relative heights of the rows: name, icon, slider, percentage, mute.
pub open spec fn card_row_weights() -> Seq<u32> {
    seq![1u32, 2u32, 3u32, 1u32, 1u32]
}

/// The layout of a card drawn in `area`: the frame is painted with the card
/// style, its content is split into five rows three pixels apart in the
/// proportion 1:2:3:1:1, and the slider is a column `CARD_SLIDER_WIDTH` wide
/// centred in the third row.
pub open spec fn spec_card_layout(area: Rectangle) -> CardLayout {
    let frame = spec_card_style().spec_paint_layout(area);
    let rows = spec_split(frame.content_area, CARD_ROW_GAP, card_row_weights(), Axis::Vertical);
    let slider_row = rows[2];
    CardLayout {
        frame,
        name: rows[0],
        icon: rows[1],
        slider: spec_rect(
            spec_point(
                (slider_row.top_left.x + align_offset(slider_row.size.width, CARD_SLIDER_WIDTH, Align::Center)) as i32,
                slider_row.top_left.y,
            ),
            spec_size(CARD_SLIDER_WIDTH, slider_row.size.height),
        ),
        percentage: rows[3],
        mute: rows[4],
    }
}

/// Lays out the card that shows one application in `area`.
pub fn rounded_rectangle_layout(area: Rectangle) -> (r: CardLayout)
    requires
        rect_in_limit(area),
    ensures
        r == spec_card_layout(area),
{
    let style = card_style();
    let frame = style.paint_layout(area);
    let content = frame.content_area;
    let weights: [u32; 5] = [1, 2, 3, 1, 1];
    proof {
        assert(weights@ =~= card_row_weights());
        reveal_with_fuel(prefix_sum, 6);
        assert(prefix_sum(weights@, 5) == 8);
        lemma_split_in_range_within_limit(content, CARD_ROW_GAP, weights@, Axis::Vertical);
    }
    let rows = Flexbox::new(content, CARD_ROW_GAP).vertical(&weights);
    assert(rows@.len() == 5);
    let slider_row = rows[2];
    let slider = style.align_element_x(slider_row, Size::new(CARD_SLIDER_WIDTH, slider_row.size.height), Align::Center);
    CardLayout {
        frame,
        name: rows[0],
        icon: rows[1],
        slider,
        percentage: rows[3],
        mute: rows[4],
    }
}

} // verus!
