//! Geometry of the fill slider: its styles, where the fill goes, and the
//! pieces of a label that fall inside and outside the fill.
use vstd::prelude::*;
use crate::display::geometry::{
    BinaryColor, LAYOUT_LIMIT, Point, Rectangle, Size, rect_in_limit, spec_point, spec_rect, spec_size,
};
use crate::display::style::style_type::{
    Align, Border, Corners, PaintLayout, Style, in_i32, signed, spec_corners_all, spec_insets_all,
};

verus! {

/// The direction in which a slider fills.
#[derive(Debug, Clone, Copy, PartialEq, Eq, Structural)]
pub enum SliderAlign {
    Vertical,
    Horizontal,
}

/// A slider: an outer frame, and a fill drawn with rounded corners when full
/// and with square top corners otherwise.
#[derive(Debug, Clone, Copy, PartialEq, Eq, Structural)]
pub struct VerticalSlider {
    pub outer_style: Style<BinaryColor>,
    pub inner_style_full: Style<BinaryColor>,
    pub inner_style_partial: Style<BinaryColor>,
}

/// The default slider: a frame with margin, padding and border 1, radius 3,
/// on an unlit background and centred; a lit fill with padding and border 1,
/// rounded all round (radius 3) when full and at the bottom only otherwise.
pub open spec fn spec_default_slider() -> VerticalSlider {
    let inner = Style {
        margin: spec_insets_all(0),
        padding: spec_insets_all(1),
        background_color: Some(BinaryColor::On),
        foreground_color: BinaryColor::On,
        border: Some(Border { width: 1, color: BinaryColor::On }),
        radius: spec_corners_all(3),
        align: Align::Start,
    };
    VerticalSlider {
        outer_style: Style {
            margin: spec_insets_all(1),
            padding: spec_insets_all(1),
            background_color: Some(BinaryColor::Off),
            foreground_color: BinaryColor::On,
            border: Some(Border { width: 1, color: BinaryColor::On }),
            radius: spec_corners_all(3),
            align: Align::Center,
        },
        inner_style_full: inner,
        inner_style_partial: Style {
            radius: Corners {
                top_left: spec_size(0, 0),
                top_right: spec_size(0, 0),
                bottom_left: spec_size(3, 3),
                bottom_right: spec_size(3, 3),
            },
            ..inner
        },
    }
}

impl Default for VerticalSlider {
    fn default() -> (r: Self)
        ensures
            r == spec_default_slider(),
    {
        let outer_style = Style::new(BinaryColor::On)
            .margin_all(1)
            .padding_all(1)
            .border(1, BinaryColor::On)
            .background(BinaryColor::Off)
            .radius_all(3)
            .align(Align::Center);

        let inner_style_full = Style::new(BinaryColor::On)
            .padding_all(1)
            .background(BinaryColor::On)
            .border(1, BinaryColor::On)
            .radius_all(3);

        let inner_style_partial = Style::new(BinaryColor::On)
            .padding_all(1)
            .background(BinaryColor::On)
            .border(1, BinaryColor::On)
            .radius(Corners::new(0, 0, 3, 3));

        Self { outer_style, inner_style_full, inner_style_partial }
    }
}

/// The right edge of `a` (saturating at the `i32` bounds, as computed).
pub open spec fn sat_i32(v: int) -> int {
    if v > i32::MAX {
        i32::MAX as int
    } else if v < i32::MIN {
        i32::MIN as int
    } else {
        v
    }
}

pub open spec fn max_i(a: int, b: int) -> int {
    if a >= b { a } else { b }
}

pub open spec fn min_i(a: int, b: int) -> int {
    if a <= b { a } else { b }
}

/// The overlap of two rectangles, if they overlap with positive area.
pub open spec fn spec_intersection(a: Rectangle, b: Rectangle) -> Option<Rectangle> {
    let a_right = sat_i32(a.top_left.x + signed(a.size.width));
    let a_bottom = a.top_left.y + signed(a.size.height);
    let b_right = b.top_left.x + signed(b.size.width);
    let b_bottom = b.top_left.y + signed(b.size.height);
    let left = max_i(a.top_left.x as int, b.top_left.x as int);
    let top = max_i(a.top_left.y as int, b.top_left.y as int);
    let right = min_i(a_right, b_right);
    let bottom = min_i(a_bottom, b_bottom);
    if right <= left || bottom <= top {
        None
    } else {
        Some(spec_rect(spec_point(left as i32, top as i32), spec_size((right - left) as u32, (bottom - top) as u32)))
    }
}

/// The edge arithmetic of an intersection stays within `i32`.
pub open spec fn edges_in_range(a: Rectangle, b: Rectangle) -> bool {
    &&& in_i32(a.top_left.y + signed(a.size.height))
    &&& in_i32(b.top_left.x + signed(b.size.width))
    &&& in_i32(b.top_left.y + signed(b.size.height))
}

/// `a + b` saturating at the bounds of `i32`.
fn saturating_add_i32(a: i32, b: i32) -> (r: i32)
    ensures
        r == sat_i32(a + b),
{
    match a.checked_add(b) {
        Some(s) => s,
        None => if b > 0 { i32::MAX } else { i32::MIN },
    }
}

/// The overlap of `a` and `b`; `None` when they do not overlap with positive
/// area (no degenerate rectangle is produced).
pub fn clamp_intersection(a: Rectangle, b: Rectangle) -> (r: Option<Rectangle>)
    requires
        edges_in_range(a, b),
    ensures
        r == spec_intersection(a, b),
{
    let a_right = saturating_add_i32(a.top_left.x, a.size.width as i32);
    let a_bottom = a.top_left.y + a.size.height as i32;
    let b_right = b.top_left.x + b.size.width as i32;
    let b_bottom = b.top_left.y + b.size.height as i32;

    let left = if a.top_left.x >= b.top_left.x { a.top_left.x } else { b.top_left.x };
    let top = if a.top_left.y >= b.top_left.y { a.top_left.y } else { b.top_left.y };
    let right = if a_right <= b_right { a_right } else { b_right };
    let bottom = if a_bottom <= b_bottom { a_bottom } else { b_bottom };

    if right <= left || bottom <= top {
        None
    } else {
        Some(Rectangle::new(
            Point::new(left, top),
            Size::new((right - left) as u32, (bottom - top) as u32),
        ))
    }
}

/// Whether `inner` lies inside `outer`.
pub open spec fn rect_within(outer: Rectangle, inner: Rectangle) -> bool {
    &&& outer.top_left.x <= inner.top_left.x
    &&& outer.top_left.y <= inner.top_left.y
    &&& inner.top_left.x + signed(inner.size.width) <= outer.top_left.x + signed(outer.size.width)
    &&& inner.top_left.y + signed(inner.size.height) <= outer.top_left.y + signed(outer.size.height)
}

/// The overlap of two rectangles lies inside both, and has positive width
/// and height.
pub proof fn intersection_lies_in_both(a: Rectangle, b: Rectangle)
    requires
        edges_in_range(a, b),
    ensures
        match spec_intersection(a, b) {
            Some(o) => rect_within(a, o) && rect_within(b, o) && o.size.width > 0 && o.size.height > 0,
            None => true,
        },
{
}

/// The parts of `rect` above and below its overlap with `cutout`: the whole
/// of `rect` when they do not overlap.
pub open spec fn spec_subtract(rect: Rectangle, cutout: Rectangle) -> Seq<Rectangle> {
    match spec_intersection(rect, cutout) {
        None => seq![rect],
        Some(overlap) => {
            let rect_bottom = rect.top_left.y + signed(rect.size.height);
            let overlap_bottom = overlap.top_left.y + signed(overlap.size.height);
            let above = if overlap.top_left.y > rect.top_left.y {
                seq![spec_rect(rect.top_left, spec_size(rect.size.width, (overlap.top_left.y - rect.top_left.y) as u32))]
            } else {
                Seq::empty()
            };
            let below = if overlap_bottom < rect_bottom {
                seq![spec_rect(
                    spec_point(rect.top_left.x, overlap_bottom as i32),
                    spec_size(rect.size.width, (rect_bottom - overlap_bottom) as u32),
                )]
            } else {
                Seq::empty()
            };
            above + below
        },
    }
}

/// The part of `rect` outside its overlap with `cutout`, as the strips above
/// and below the overlap.
pub fn subtract_rect(rect: Rectangle, cutout: Rectangle) -> (r: Vec<Rectangle>)
    requires
        edges_in_range(rect, cutout),
    ensures
        r@ == spec_subtract(rect, cutout),
{
    let overlap = match clamp_intersection(rect, cutout) {
        Some(o) => o,
        None => {
            let mut v = Vec::new();
            v.push(rect);
            assert(v@ =~= spec_subtract(rect, cutout));
            return v;
        },
    };
    let mut pieces: Vec<Rectangle> = Vec::new();

    // Part of `rect` above the overlap.
    if overlap.top_left.y > rect.top_left.y {
        pieces.push(Rectangle::new(
            rect.top_left,
            Size::new(rect.size.width, (overlap.top_left.y - rect.top_left.y) as u32),
        ));
    }

    // Part of `rect` below the overlap.
    let rect_bottom = rect.top_left.y + rect.size.height as i32;
    let overlap_bottom = overlap.top_left.y + overlap.size.height as i32;
    if overlap_bottom < rect_bottom {
        pieces.push(Rectangle::new(
            Point::new(rect.top_left.x, overlap_bottom),
            Size::new(rect.size.width, (rect_bottom - overlap_bottom) as u32),
        ));
    }
    assert(pieces@ =~= spec_subtract(rect, cutout));
    pieces
}

/// The rectangle the fill takes in `working_area` for a fill of `fill`
/// pixels: anchored to the bottom when vertical, to the right otherwise.
pub open spec fn spec_fill_area(working_area: Rectangle, fill: u32, align: SliderAlign) -> Rectangle {
    match align {
        SliderAlign::Vertical => spec_rect(
            spec_point(working_area.top_left.x, (working_area.top_left.y + signed(working_area.size.height) - signed(fill)) as i32),
            spec_size(working_area.size.width, fill),
        ),
        SliderAlign::Horizontal => spec_rect(
            spec_point((working_area.top_left.x + signed(working_area.size.width) - signed(fill)) as i32, working_area.top_left.y),
            spec_size(fill, working_area.size.height),
        ),
    }
}

impl VerticalSlider {
    /// The style of the fill: rounded all round when `is_max`, square at the
    /// top otherwise.
    pub fn inner_style(&self, is_max: bool) -> (r: &Style<BinaryColor>)
        ensures
            r == (if is_max { &self.inner_style_full } else { &self.inner_style_partial }),
    {
        if is_max {
            &self.inner_style_full
        } else {
            &self.inner_style_partial
        }
    }

    /// The frame of the slider drawn in `area`: the area is centred across
    /// the slider's direction (it keeps its size) and painted with the outer
    /// style; the fill goes into the frame's content area.
    pub fn frame_layout(&self, area: Rectangle, align: SliderAlign) -> (r: PaintLayout)
        requires
            rect_in_limit(area),
            self.outer_style.paint_in_range(area),
        ensures
            r == self.outer_style.spec_paint_layout(area),
    {
        let area = match align {
            SliderAlign::Vertical => self.outer_style.align_element_x(area, area.size, Align::Center),
            SliderAlign::Horizontal => self.outer_style.align_element_y(area, area.size, Align::Center),
        };
        self.outer_style.paint_layout(area)
    }

    /// The painted fill of `fill` pixels in the frame's content area
    /// `working_area`, with the style for a full or a partial level.
    pub fn fill_layout(&self, working_area: Rectangle, fill: u32, align: SliderAlign, is_max: bool) -> (r: PaintLayout)
        requires
            rect_in_limit(working_area),
            fill <= LAYOUT_LIMIT,
            (if is_max { self.inner_style_full } else { self.inner_style_partial }).paint_in_range(
                spec_fill_area(working_area, fill, align),
            ),
        ensures
            r == (if is_max { self.inner_style_full } else { self.inner_style_partial }).spec_paint_layout(
                spec_fill_area(working_area, fill, align),
            ),
    {
        let area = self.fill_area(working_area, fill, align, is_max);
        self.inner_style(is_max).paint_layout(area)
    }

    /// Where the fill of `fill` pixels goes in the slider's working area.
    pub fn fill_area(&self, working_area: Rectangle, fill: u32, align: SliderAlign, is_max: bool) -> (r: Rectangle)
        requires
            in_i32(signed(working_area.size.height) - signed(fill)),
            in_i32(working_area.top_left.y + signed(working_area.size.height) - signed(fill)),
            in_i32(signed(working_area.size.width) - signed(fill)),
            in_i32(working_area.top_left.x + signed(working_area.size.width) - signed(fill)),
            in_i32(working_area.top_left.y + crate::display::style::style_type::half(signed(working_area.size.height) - signed(fill))),
            in_i32(working_area.top_left.x + crate::display::style::style_type::half(signed(working_area.size.width) - signed(fill))),
        ensures
            r == spec_fill_area(working_area, fill, align),
    {
        let inner_style = self.inner_style(is_max);
        match align {
            SliderAlign::Vertical => {
                let fill_size = Size::new(working_area.size.width, fill);
                inner_style.align_element_y(working_area, fill_size, Align::End)
            },
            SliderAlign::Horizontal => {
                let fill_size = Size::new(fill, working_area.size.height);
                inner_style.align_element_x(working_area, fill_size, Align::End)
            },
        }
    }
}

} // verus!
