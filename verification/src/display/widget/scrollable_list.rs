//! Scrolling of a list that shows a window of its rows.
use vstd::prelude::*;
use crate::display::geometry::{BinaryColor, Rectangle};
use crate::display::style::flexbox::{Axis, Flexbox, spec_split, split_in_range};
use crate::display::style::style_type::{Align, Border, Insets, Style, spec_corners_all};

verus! {

/// The index of the first row shown.
#[derive(Debug, Clone, Copy, PartialEq, Eq, Structural)]
pub struct ScrollState {
    pub offset: usize,
}

impl Default for ScrollState {
    fn default() -> (r: Self)
        ensures
            r.offset == 0,
    {
        ScrollState { offset: 0 }
    }
}

/// The styles of a list's rows: plain rows, and the selected row.
#[derive(Debug, Clone, Copy, PartialEq, Eq, Structural)]
pub struct ListStyle {
    pub normal: Style<BinaryColor>,
    pub active: Style<BinaryColor>,
}

/// Plain rows: centred, bottom and left margin 2, padding 2. The selected
/// row: inverted colours on a filled background with radius 4, bottom and
/// left margin 4 and a border of width 2.
pub open spec fn spec_list_style() -> ListStyle {
    let normal = Style {
        margin: Insets { top: 0, right: 0, bottom: 2, left: 2 },
        padding: Insets { top: 2, right: 2, bottom: 2, left: 2 },
        background_color: None,
        foreground_color: BinaryColor::On,
        border: None,
        radius: spec_corners_all(0),
        align: Align::Center,
    };
    ListStyle {
        normal,
        active: Style {
            foreground_color: BinaryColor::Off,
            background_color: Some(BinaryColor::On),
            radius: spec_corners_all(4),
            margin: Insets { top: 0, right: 0, bottom: 4, left: 4 },
            border: Some(Border { width: 2, color: BinaryColor::On }),
            ..normal
        },
    }
}

impl Default for ListStyle {
    fn default() -> (r: Self)
        ensures
            r == spec_list_style(),
    {
        let normal = Style::new(BinaryColor::On)
            .color(BinaryColor::On)
            .margin(Insets::new(0, 0, 2, 2))
            .padding(Insets::all(2))
            .align(Align::Center);

        let active = normal
            .color(BinaryColor::Off)
            .background(BinaryColor::On)
            .radius_all(4)
            .margin(Insets::new(0, 0, 4, 4))
            .border(2, BinaryColor::On);

        Self { normal, active }
    }
}

/// The number of rows of a list of `items` entries, plus one for a trailing
/// entry when there is one.
pub fn list_total(items: usize, has_trailing: bool) -> (r: usize)
    requires
        items + 1 <= usize::MAX,
    ensures
        r == items + (if has_trailing { 1int } else { 0 }),
{
    items + if has_trailing { 1 } else { 0 }
}

/// The offset after scrolling so that row `selected` is in the window: a
/// selection below the window brings it to the window's last row, one above
/// the window snaps the window to the multiple of `window_size` that holds
/// it; the offset never goes past `total - window_size`.
pub open spec fn scrolled_offset(offset: int, total: int, window_size: int, selected: int) -> int {
    let max_offset = if total > window_size { total - window_size } else { 0 };
    let o = if selected >= offset + window_size {
        selected - window_size + 1
    } else if selected < offset {
        (selected / window_size) * window_size
    } else {
        offset
    };
    if o < max_offset { o } else { max_offset }
}

impl ScrollState {
    /// Scrolls a window of `window_size` rows over `total` rows so that
    /// `selected` is visible.
    pub fn update_offset(&mut self, total: usize, window_size: usize, selected: usize)
        requires
            old(self).offset + window_size <= usize::MAX,
            window_size > 0 || (old(self).offset <= selected && selected < usize::MAX),
        ensures
            final(self).offset == scrolled_offset(old(self).offset as int, total as int, window_size as int, selected as int),
            selected < total && window_size > 0 ==> final(self).offset <= selected < final(self).offset + window_size,
    {
        let max_offset = total.saturating_sub(window_size);
        if selected >= self.offset + window_size {
            self.offset = selected - window_size + 1;
        } else if selected < self.offset {
            proof {
                assert((selected / window_size) * window_size <= selected) by (nonlinear_arith)
                    requires
                        window_size > 0,
                ;
                assert(selected < (selected / window_size) * window_size + window_size) by (nonlinear_arith)
                    requires
                        window_size > 0,
                ;
            }
            self.offset = (selected / window_size) * window_size;
        }
        if max_offset < self.offset {
            self.offset = max_offset;
        }
    }
}

/// A list of text rows shown through a window of `window_size` rows, with an
/// optional trailing row after the items.
pub struct ScrollableList {
    pub labels: Vec<String>,
    pub trailing_label: Option<String>,
    pub window_size: usize,
    pub style: ListStyle,
}

/// One row to draw: its area, its text, and whether it is the selected row.
pub struct ListRow {
    pub area: Rectangle,
    pub text: String,
    pub is_selected: bool,
}

/// `n` weights of one.
pub open spec fn unit_weights(n: nat) -> Seq<u32> {
    Seq::new(n, |i: int| 1u32)
}

/// The rows a list shows at `offset`: one per window row, as long as the row
/// index `offset + i` names an item or the trailing entry.
pub open spec fn spec_rows(
    labels: Seq<String>,
    trailing: Option<String>,
    window: Seq<Rectangle>,
    offset: int,
    selected: int,
) -> Seq<ListRow> {
    let total = labels.len() + if trailing is Some { 1int } else { 0 };
    let shown = if total - offset < 0 { 0 } else if total - offset < window.len() { total - offset } else { window.len() as int };
    Seq::new(shown as nat, |i: int| ListRow {
        area: window[i],
        text: if offset + i < labels.len() { labels[offset + i] } else { trailing->0 },
        is_selected: offset + i == selected,
    })
}

impl ScrollableList {
    /// A list of `labels` shown `window_size` rows at a time, with the default
    /// styles and no trailing row.
    pub fn new(labels: Vec<String>, window_size: usize) -> (r: Self)
        ensures
            r.labels@ == labels@,
            r.trailing_label is None,
            r.window_size == window_size,
            r.style == spec_list_style(),
    {
        ScrollableList { labels, trailing_label: None, window_size, style: ListStyle::default() }
    }

    /// The list with a trailing row labelled `label` after the items.
    pub fn with_trailing(self, label: String) -> (r: Self)
        ensures
            r.labels@ == self.labels@,
            r.trailing_label == Some(label),
            r.window_size == self.window_size,
            r.style == self.style,
    {
        let mut s = self;
        s.trailing_label = Some(label);
        s
    }

    /// The list drawn with `style`.
    pub fn with_style(self, style: ListStyle) -> (r: Self)
        ensures
            r.labels@ == self.labels@,
            r.trailing_label == self.trailing_label,
            r.window_size == self.window_size,
            r.style == style,
    {
        let mut s = self;
        s.style = style;
        s
    }

    /// The number of rows: the items, and the trailing row if there is one.
    pub fn total(&self) -> (r: usize)
        requires
            self.labels@.len() < usize::MAX,
        ensures
            r == self.labels@.len() + if self.trailing_label is Some { 1int } else { 0 },
    {
        list_total(self.labels.len(), self.trailing_label.is_some())
    }

    /// Scrolls `scroll` so that row `selected` is in the window.
    pub fn update_offset(&self, scroll: &mut ScrollState, selected: usize)
        requires
            self.labels@.len() < usize::MAX,
            old(scroll).offset + self.window_size <= usize::MAX,
            self.window_size > 0 || (old(scroll).offset <= selected && selected < usize::MAX),
        ensures
            final(scroll).offset == scrolled_offset(
                old(scroll).offset as int,
                self.labels@.len() + if self.trailing_label is Some { 1int } else { 0 },
                self.window_size as int,
                selected as int,
            ),
    {
        let total = self.total();
        scroll.update_offset(total, self.window_size, selected);
    }

    /// Scrolls to `selected` and gives the rows to draw in `area`: the area is
    /// split into `window_size` equal rows two pixels apart, and each row
    /// shows the entry at the new offset plus its index, while there is one.
    pub fn rows(&self, area: Rectangle, scroll: &mut ScrollState, selected: usize) -> (r: Vec<ListRow>)
        requires
            self.labels@.len() < usize::MAX,
            old(scroll).offset + self.window_size <= usize::MAX,
            self.window_size > 0 || (old(scroll).offset <= selected && selected < usize::MAX),
            split_in_range(area, 2, unit_weights(self.window_size as nat), Axis::Vertical),
        ensures
            final(scroll).offset == scrolled_offset(
                old(scroll).offset as int,
                self.labels@.len() + if self.trailing_label is Some { 1int } else { 0 },
                self.window_size as int,
                selected as int,
            ),
            r@ == spec_rows(
                self.labels@,
                self.trailing_label,
                spec_split(area, 2, unit_weights(self.window_size as nat), Axis::Vertical),
                final(scroll).offset as int,
                selected as int,
            ),
    {
        self.update_offset(scroll, selected);
        let offset = scroll.offset;
        let mut weights: Vec<u32> = Vec::new();
        let mut k: usize = 0;
        while k < self.window_size
            invariant
                k <= self.window_size,
                weights@ == unit_weights(k as nat),
            decreases self.window_size - k,
        {
            weights.push(1);
            k = k + 1;
            assert(weights@ =~= unit_weights(k as nat));
        }
        let allocated = Flexbox::new(area, 2).vertical(weights.as_slice());
        let total = self.total();
        let ghost window = allocated@;
        let mut rows: Vec<ListRow> = Vec::new();
        let mut index: usize = 0;
        while index < allocated.len()
            invariant_except_break
                index <= allocated@.len(),
                window == allocated@,
                offset + index <= usize::MAX,
                offset + index <= total || index == 0,
                total == self.labels@.len() + if self.trailing_label is Some { 1int } else { 0 },
                rows@ == spec_rows(self.labels@, self.trailing_label, window, offset as int, selected as int).take(index as int),
            ensures
                rows@ == spec_rows(self.labels@, self.trailing_label, window, offset as int, selected as int),
            decreases allocated@.len() - index,
        {
            if offset >= total || index >= total - offset {
                assert(rows@ =~= spec_rows(self.labels@, self.trailing_label, window, offset as int, selected as int));
                break;
            }
            let absolute_index = index + offset;
            let is_selected = absolute_index == selected;
            let text: String = if absolute_index < self.labels.len() {
                self.labels[absolute_index].clone()
            } else {
                match &self.trailing_label {
                    Some(t) => t.clone(),
                    None => String::new(),
                }
            };
            rows.push(ListRow { area: allocated[index], text, is_selected });
            index = index + 1;
            assert(rows@ =~= spec_rows(self.labels@, self.trailing_label, window, offset as int, selected as int).take(index as int));
        }
        rows
    }
}

} // verus!
