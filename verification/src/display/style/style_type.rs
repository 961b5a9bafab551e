//! The box model of a styled element: margin, border and padding around a
//! content area, and the alignment of content within an area.
use vstd::prelude::*;
use crate::display::geometry::{Point, Rectangle, Size, spec_point, spec_rect, spec_size};

verus! {

// ---------- Corners (per-corner radius, e.g. border-radius) ----------

/// The radius of each corner, as a size.
#[derive(Debug, Clone, Copy, PartialEq, Eq, Structural)]
pub struct Corners {
    pub top_left: Size,
    pub top_right: Size,
    pub bottom_left: Size,
    pub bottom_right: Size,
}

impl Default for Corners {
    /// All corners square.
    fn default() -> (r: Self)
        ensures
            r == spec_corners_all(0),
    {
        Corners::all(0)
    }
}

/// Every corner with radius `v`.
pub open spec fn spec_corners_all(v: u32) -> Corners {
    Corners {
        top_left: spec_size(v, v),
        top_right: spec_size(v, v),
        bottom_left: spec_size(v, v),
        bottom_right: spec_size(v, v),
    }
}

impl Corners {
    pub fn new(top_left: u32, top_right: u32, bottom_left: u32, bottom_right: u32) -> (r: Self)
        ensures
            r == (Corners {
                top_left: spec_size(top_left, top_left),
                top_right: spec_size(top_right, top_right),
                bottom_left: spec_size(bottom_left, bottom_left),
                bottom_right: spec_size(bottom_right, bottom_right),
            }),
    {
        Self {
            top_left: Size::new(top_left, top_left),
            top_right: Size::new(top_right, top_right),
            bottom_left: Size::new(bottom_left, bottom_left),
            bottom_right: Size::new(bottom_right, bottom_right),
        }
    }

    pub fn all(value: u32) -> (r: Self)
        ensures
            r == spec_corners_all(value),
    {
        Self {
            top_left: Size::new(value, value),
            top_right: Size::new(value, value),
            bottom_left: Size::new(value, value),
            bottom_right: Size::new(value, value),
        }
    }

    /// Whether every corner is square (zero width and height).
    pub fn is_zero(&self) -> (r: bool)
        ensures
            r == (self.top_left == spec_size(0, 0) && self.top_right == spec_size(0, 0)
                && self.bottom_left == spec_size(0, 0) && self.bottom_right == spec_size(0, 0)),
    {
        let width = self.top_left.width == 0 && self.top_right.width == 0 && self.bottom_left.width == 0
            && self.bottom_right.width == 0;
        let height = self.top_left.height == 0 && self.top_right.height == 0 && self.bottom_left.height
            == 0 && self.bottom_right.height == 0;
        width && height
    }
}

// ---------- Insets (edges, e.g. margin/padding) ----------

/// Distances from each edge, in pixels.
#[derive(Debug, Clone, Copy, PartialEq, Eq, Structural)]
pub struct Insets {
    pub top: i32,
    pub right: i32,
    pub bottom: i32,
    pub left: i32,
}

/// The same inset on every edge.
pub open spec fn spec_insets_all(v: i32) -> Insets {
    Insets { top: v, right: v, bottom: v, left: v }
}

impl Default for Insets {
    /// No inset.
    fn default() -> (r: Self)
        ensures
            r == spec_insets_all(0),
    {
        Insets::all(0)
    }
}

impl Insets {
    pub fn new(top: i32, right: i32, bottom: i32, left: i32) -> (r: Self)
        ensures
            r == (Insets { top, right, bottom, left }),
    {
        Self { top, right, bottom, left }
    }

    pub fn all(value: i32) -> (r: Self)
        ensures
            r == spec_insets_all(value),
    {
        Self { top: value, right: value, bottom: value, left: value }
    }
}

// ---------- Border ----------

#[derive(Debug, Clone, Copy, PartialEq, Eq, Structural)]
pub struct Border<C> {
    pub width: u32,
    pub color: C,
}

/// Horizontal alignment of content.
#[derive(Debug, Clone, Copy, PartialEq, Eq, Structural)]
pub enum Align {
    Start,
    Center,
    End,
}

impl Default for Align {
    fn default() -> (r: Self)
        ensures
            r == Align::Center,
    {
        Align::Center
    }
}

// ---------- Style ----------

/// How an element is painted: its margin, padding, colours, border, corner
/// radii and alignment.
#[derive(Debug, Clone, Copy, PartialEq, Eq, Structural)]
pub struct Style<Color> {
    pub margin: Insets,
    pub padding: Insets,
    pub background_color: Option<Color>,
    pub foreground_color: Color,
    pub border: Option<Border<Color>>,
    pub radius: Corners,
    pub align: Align,
}

/// The areas that painting a style on an area produces: where the
/// background and border go, and where the content goes.
#[derive(Debug, Clone, Copy, PartialEq, Eq, Structural)]
pub struct PaintLayout {
    pub bordered_area: Rectangle,
    pub content_area: Rectangle,
}

/// `x` as a number (the `i32` value of its bits for a `u32`).
pub open spec fn signed(x: u32) -> int {
    x as i32 as int
}

/// `rect` shrunk by `insets` on each side; the size does not go below zero.
pub open spec fn spec_shrink(rect: Rectangle, insets: Insets) -> Rectangle {
    let w = signed(rect.size.width) - insets.left - insets.right;
    let h = signed(rect.size.height) - insets.top - insets.bottom;
    spec_rect(
        spec_point((rect.top_left.x + insets.left) as i32, (rect.top_left.y + insets.top) as i32),
        spec_size((if w > 0 { w } else { 0 }) as u32, (if h > 0 { h } else { 0 }) as u32),
    )
}

pub open spec fn in_i32(v: int) -> bool {
    i32::MIN <= v <= i32::MAX
}

/// The integer arithmetic of `shrink` stays within `i32`.
pub open spec fn shrink_in_range(rect: Rectangle, insets: Insets) -> bool {
    &&& in_i32(rect.top_left.x + insets.left)
    &&& in_i32(rect.top_left.y + insets.top)
    &&& in_i32(signed(rect.size.width) - insets.left)
    &&& in_i32(signed(rect.size.width) - insets.left - insets.right)
    &&& in_i32(signed(rect.size.height) - insets.top)
    &&& in_i32(signed(rect.size.height) - insets.top - insets.bottom)
}

/// Whether `shrink(rect, insets)` stays within `i32`.
pub fn shrink_fits(rect: Rectangle, insets: &Insets) -> (r: bool)
    ensures
        r == shrink_in_range(rect, *insets),
{
    let lo = i32::MIN as i64;
    let hi = i32::MAX as i64;
    let x = rect.top_left.x as i64 + insets.left as i64;
    let y = rect.top_left.y as i64 + insets.top as i64;
    let w1 = rect.size.width as i32 as i64 - insets.left as i64;
    let w2 = w1 - insets.right as i64;
    let h1 = rect.size.height as i32 as i64 - insets.top as i64;
    let h2 = h1 - insets.bottom as i64;
    lo <= x && x <= hi && lo <= y && y <= hi && lo <= w1 && w1 <= hi && lo <= w2 && w2 <= hi
        && lo <= h1 && h1 <= hi && lo <= h2 && h2 <= hi
}

/// Shrinks a rectangle by the given insets on each side.
/// Clamps to zero size instead of going negative if insets exceed the rect.
pub fn shrink(rect: Rectangle, insets: &Insets) -> (r: Rectangle)
    requires
        shrink_in_range(rect, *insets),
    ensures
        r == spec_shrink(rect, *insets),
{
    let x = rect.top_left.x + insets.left;
    let y = rect.top_left.y + insets.top;
    let w = rect.size.width as i32 - insets.left - insets.right;
    let h = rect.size.height as i32 - insets.top - insets.bottom;
    let width = (if w > 0 { w } else { 0 }) as u32;
    let height = (if h > 0 { h } else { 0 }) as u32;
    Rectangle::new(Point::new(x, y), Size::new(width, height))
}

/// Half of `v`, rounding toward zero.
pub open spec fn half(v: int) -> int {
    if v >= 0 {
        v / 2
    } else {
        -((-v) / 2)
    }
}

fn half_i32(v: i32) -> (r: i32)
    ensures
        r == half(v as int),
{
    match v.checked_div(2) {
        Some(h) => h,
        None => 0,
    }
}

/// The offset of content of length `inner` in a parent of length `outer` for
/// an alignment.
pub open spec fn align_offset(outer: u32, inner: u32, align: Align) -> int {
    let d = signed(outer) - signed(inner);
    match align {
        Align::Start => 0,
        Align::Center => half(d),
        Align::End => d,
    }
}

/// The arithmetic of aligning `inner` in `outer` from `start` stays in `i32`.
pub open spec fn align_in_range(start: i32, outer: u32, inner: u32) -> bool {
    &&& in_i32(signed(outer) - signed(inner))
    &&& in_i32(start + half(signed(outer) - signed(inner)))
    &&& in_i32(start + signed(outer) - signed(inner))
}

impl<Color: Copy> Style<Color> {
    /// A style with foreground `foreground_color` and nothing else: no margin,
    /// padding, background or border, square corners, aligned to the start.
    pub fn new(foreground_color: Color) -> (r: Self)
        ensures
            r == (Style {
                margin: spec_insets_all(0),
                padding: spec_insets_all(0),
                background_color: None,
                foreground_color,
                border: None,
                radius: spec_corners_all(0),
                align: Align::Start,
            }),
    {
        Self {
            margin: Insets::default(),
            padding: Insets::default(),
            background_color: None,
            foreground_color,
            border: None,
            radius: Corners::default(),
            align: Align::Start,
        }
    }

    pub fn padding(self, insets: Insets) -> (r: Self)
        ensures
            r == (Style { padding: insets, ..self }),
    {
        let mut s = self;
        s.padding = insets;
        s
    }

    pub fn padding_all(self, value: i32) -> (r: Self)
        ensures
            r == (Style { padding: spec_insets_all(value), ..self }),
    {
        let mut s = self;
        s.padding = Insets::all(value);
        s
    }

    pub fn margin(self, insets: Insets) -> (r: Self)
        ensures
            r == (Style { margin: insets, ..self }),
    {
        let mut s = self;
        s.margin = insets;
        s
    }

    pub fn margin_all(self, value: i32) -> (r: Self)
        ensures
            r == (Style { margin: spec_insets_all(value), ..self }),
    {
        let mut s = self;
        s.margin = Insets::all(value);
        s
    }

    pub fn background(self, color: Color) -> (r: Self)
        ensures
            r == (Style { background_color: Some(color), ..self }),
    {
        let mut s = self;
        s.background_color = Some(color);
        s
    }

    pub fn color(self, color: Color) -> (r: Self)
        ensures
            r == (Style { foreground_color: color, ..self }),
    {
        let mut s = self;
        s.foreground_color = color;
        s
    }

    pub fn border(self, width: u32, color: Color) -> (r: Self)
        ensures
            r == (Style { border: Some(Border { width, color }), ..self }),
    {
        let mut s = self;
        s.border = Some(Border { width, color });
        s
    }

    pub fn radius_all(self, r: u32) -> (out: Self)
        ensures
            out == (Style { radius: spec_corners_all(r), ..self }),
    {
        let mut s = self;
        s.radius = Corners::all(r);
        s
    }

    pub fn radius(self, corners: Corners) -> (r: Self)
        ensures
            r == (Style { radius: corners, ..self }),
    {
        let mut s = self;
        s.radius = corners;
        s
    }

    pub fn align(self, a: Align) -> (r: Self)
        ensures
            r == (Style { align: a, ..self }),
    {
        let mut s = self;
        s.align = a;
        s
    }

    /// A rectangle of `source_size` placed in `parent` at the parent's top,
    /// aligned horizontally by `align`.
    pub fn align_element_x(&self, parent: Rectangle, source_size: Size, align: Align) -> (r: Rectangle)
        requires
            align_in_range(parent.top_left.x, parent.size.width, source_size.width),
        ensures
            r == spec_rect(
                spec_point(
                    (parent.top_left.x + align_offset(parent.size.width, source_size.width, align)) as i32,
                    parent.top_left.y,
                ),
                source_size,
            ),
    {
        let topleftx = parent.top_left.x;
        let width_offset = parent.size.width as i32 - source_size.width as i32;
        let x = match align {
            Align::Start => topleftx,
            Align::Center => topleftx + half_i32(width_offset),
            Align::End => topleftx + width_offset,
        };
        Rectangle::new(Point::new(x, parent.top_left.y), source_size)
    }

    /// A rectangle of `source_size` placed in `parent` at the parent's left,
    /// aligned vertically by `align`.
    pub fn align_element_y(&self, parent: Rectangle, source_size: Size, align: Align) -> (r: Rectangle)
        requires
            align_in_range(parent.top_left.y, parent.size.height, source_size.height),
        ensures
            r == spec_rect(
                spec_point(
                    parent.top_left.x,
                    (parent.top_left.y + align_offset(parent.size.height, source_size.height, align)) as i32,
                ),
                source_size,
            ),
    {
        let toplefty = parent.top_left.y;
        let height_offset = parent.size.height as i32 - source_size.height as i32;
        let y = match align {
            Align::Start => toplefty,
            Align::Center => toplefty + half_i32(height_offset),
            Align::End => toplefty + height_offset,
        };
        Rectangle::new(Point::new(parent.top_left.x, y), source_size)
    }

    /// The border width as a signed inset (zero without a border).
    pub open spec fn border_inset(self) -> i32 {
        match self.border {
            Some(b) => b.width as i32,
            None => 0,
        }
    }

    /// The painted areas of this style on `area`: the margin is taken off
    /// for the bordered area (background and border), then the border width
    /// and the padding for the content area.
    pub open spec fn spec_paint_layout(self, area: Rectangle) -> PaintLayout {
        let bordered = spec_shrink(area, self.margin);
        let inner = spec_shrink(bordered, spec_insets_all(self.border_inset()));
        PaintLayout { bordered_area: bordered, content_area: spec_shrink(inner, self.padding) }
    }

    /// The integer arithmetic of the layout stays within `i32`.
    pub open spec fn paint_in_range(self, area: Rectangle) -> bool {
        let bordered = spec_shrink(area, self.margin);
        let inner = spec_shrink(bordered, spec_insets_all(self.border_inset()));
        &&& shrink_in_range(area, self.margin)
        &&& shrink_in_range(bordered, spec_insets_all(self.border_inset()))
        &&& shrink_in_range(inner, self.padding)
    }

    /// The areas that painting this style onto `area` fills: the bordered
    /// area that takes the background and border, and the content area that
    /// callers draw text and children into.
    pub fn paint_layout(&self, area: Rectangle) -> (r: PaintLayout)
        requires
            self.paint_in_range(area),
        ensures
            r == self.spec_paint_layout(area),
    {
        let bordered_area = shrink(area, &self.margin);
        let border_width: i32 = match &self.border {
            Some(b) => b.width as i32,
            None => 0,
        };
        let inner_area = shrink(bordered_area, &Insets::all(border_width));
        let content_area = shrink(inner_area, &self.padding);
        PaintLayout { bordered_area, content_area }
    }

    /// Whether painting this style on `area` stays within `i32` (see
    /// `paint_in_range`): callers test this before `paint_layout`.
    pub fn paint_fits(&self, area: Rectangle) -> (r: bool)
        ensures
            r == self.paint_in_range(area),
    {
        if !shrink_fits(area, &self.margin) {
            return false;
        }
        let bordered = shrink(area, &self.margin);
        let border_width: i32 = match &self.border {
            Some(b) => b.width as i32,
            None => 0,
        };
        let border_insets = Insets::all(border_width);
        if !shrink_fits(bordered, &border_insets) {
            return false;
        }
        let inner = shrink(bordered, &border_insets);
        shrink_fits(inner, &self.padding)
    }

    /// The anchor of text drawn in `area`: vertically centred, horizontally at
    /// the start, centre or end by the style's alignment.
    pub fn text_anchor(&self, area: Rectangle) -> (p: Point)
        requires
            in_i32(area.top_left.y + half(signed(area.size.height))),
            in_i32(area.top_left.x + half(signed(area.size.width))),
            in_i32(area.top_left.x + signed(area.size.width)),
        ensures
            p == spec_point(
                (area.top_left.x + match self.align {
                    Align::Start => 0,
                    Align::Center => half(signed(area.size.width)),
                    Align::End => signed(area.size.width),
                }) as i32,
                (area.top_left.y + half(signed(area.size.height))) as i32,
            ),
    {
        let topleftx = area.top_left.x;
        // Vertically center the text within the area.
        let anchor_y = area.top_left.y + half_i32(area.size.height as i32);
        let anchor_x = match self.align {
            Align::Start => topleftx,
            Align::Center => topleftx + half_i32(area.size.width as i32),
            Align::End => topleftx + area.size.width as i32,
        };
        Point::new(anchor_x, anchor_y)
    }

    /// Where a bitmap of `img_size` goes in `area`: horizontally by the
    /// style's alignment, vertically centred.
    pub fn bitmap_origin(&self, area: Rectangle, img_size: Size) -> (p: Point)
        requires
            align_in_range(area.top_left.x, area.size.width, img_size.width),
            align_in_range(area.top_left.y, area.size.height, img_size.height),
        ensures
            p == spec_point(
                (area.top_left.x + align_offset(area.size.width, img_size.width, self.align)) as i32,
                (area.top_left.y + align_offset(area.size.height, img_size.height, Align::Center)) as i32,
            ),
    {
        let x = self.align_element_x(area, img_size, self.align);
        let y = self.align_element_y(area, img_size, Align::Center).top_left.y;
        Point::new(x.top_left.x, y)
    }
}

} // verus!
