use volumize::display::geometry::{BinaryColor, Point, Rectangle, Size, LAYOUT_LIMIT};
use volumize::display::screen::application_menu::{application_tile, TILE_WIDTH};
use volumize::display::style::bitmap::Bitmap;
use volumize::display::style::flexbox::Flexbox;
use volumize::display::style::style_type::{shrink, Align, Corners, Insets, Style};
use volumize::display::util::rotating::WrappingInt;
use volumize::display::widget::icon::IconWidget;
use volumize::display::widget::mute_indicator::mute_label;
use volumize::display::widget::rounded_rectangle::{card_style, rounded_rectangle_layout};
use volumize::display::widget::scrollable_list::{list_total, ListStyle, ScrollState, ScrollableList};
use volumize::display::widget::vertical_fill_slider::{
    clamp_intersection, subtract_rect, SliderAlign, VerticalSlider,
};

fn rect(x: i32, y: i32, w: u32, h: u32) -> Rectangle {
    Rectangle::new(Point::new(x, y), Size::new(w, h))
}

#[test]
fn vertical_split_distributes_by_weight() {
    let rows = Flexbox::new(rect(0, 0, 128, 64), 3).vertical(&[1, 2, 3, 1, 1]);
    assert_eq!(
        rows,
        vec![
            rect(0, 0, 128, 6),
            rect(0, 9, 128, 13),
            rect(0, 25, 128, 20),
            rect(0, 48, 128, 6),
            rect(0, 57, 128, 7),
        ]
    );
}

#[test]
fn split_slices_fill_the_area_with_gaps() {
    let area = rect(5, 7, 50, 101);
    let rows = Flexbox::new(area, 4).vertical(&[3, 1, 2]);
    let mut cursor = area.top_left.y;
    for r in &rows {
        assert_eq!(r.top_left.y, cursor);
        assert_eq!(r.top_left.x, 5);
        assert_eq!(r.size.width, 50);
        cursor += r.size.height as i32 + 4;
    }
    let used: u32 = rows.iter().map(|r| r.size.height).sum();
    assert_eq!(used, 101 - 2 * 4);
}

#[test]
fn horizontal_split_goes_left_to_right() {
    let cols = Flexbox::new(rect(10, 20, 100, 8), 0).horizontal(&[1, 1, 2]);
    assert_eq!(cols, vec![rect(10, 20, 25, 8), rect(35, 20, 25, 8), rect(60, 20, 50, 8)]);
}

#[test]
fn split_without_weights_is_the_area() {
    let area = rect(1, 2, 3, 4);
    assert_eq!(Flexbox::new(area, 9).vertical(&[]), vec![area]);
}

#[test]
fn split_with_zero_weights_gives_empty_slices() {
    let rows = Flexbox::new(rect(0, 0, 10, 30), 2).vertical(&[0, 0, 0]);
    assert_eq!(rows, vec![rect(0, 0, 10, 0), rect(0, 2, 10, 0), rect(0, 4, 10, 0)]);
}

#[test]
fn shrink_takes_insets_off_each_side() {
    assert_eq!(shrink(rect(0, 0, 10, 10), &Insets::new(2, 3, 4, 5)), rect(5, 2, 2, 4));
    assert_eq!(shrink(rect(0, 0, 4, 4), &Insets::all(3)), rect(3, 3, 0, 0));
    assert_eq!(shrink(rect(1, 1, 4, 4), &Insets::all(-1)), rect(0, 0, 6, 6));
}

#[test]
fn insets_and_corners_constructors() {
    assert_eq!(Insets::new(1, 2, 3, 4), Insets { top: 1, right: 2, bottom: 3, left: 4 });
    assert_eq!(Insets::all(7), Insets { top: 7, right: 7, bottom: 7, left: 7 });
    assert_eq!(Insets::default(), Insets::all(0));
    let c = Corners::new(0, 0, 3, 3);
    assert_eq!(c.bottom_left, Size::new(3, 3));
    assert!(!c.is_zero());
    assert!(Corners::all(0).is_zero());
    assert!(Corners::default().is_zero());
}

#[test]
fn style_builders_set_one_field() {
    let s = Style::new(BinaryColor::On);
    assert_eq!(s.margin, Insets::all(0));
    assert_eq!(s.background_color, None);
    assert_eq!(s.align, Align::Start);
    let s = s.padding_all(1).margin(Insets::new(5, 0, 3, 7)).background(BinaryColor::Off).border(2, BinaryColor::On);
    assert_eq!(s.padding, Insets::all(1));
    assert_eq!(s.margin, Insets::new(5, 0, 3, 7));
    assert_eq!(s.background_color, Some(BinaryColor::Off));
    assert_eq!(s.border.unwrap().width, 2);
    let s = s.radius_all(6).color(BinaryColor::Off).align(Align::End);
    assert_eq!(s.radius, Corners::all(6));
    assert_eq!(s.foreground_color, BinaryColor::Off);
    assert_eq!(s.align, Align::End);
    assert_eq!(Align::default(), Align::Center);
}

#[test]
fn alignment_of_elements() {
    let s = Style::new(BinaryColor::On);
    let parent = rect(10, 20, 100, 30);
    assert_eq!(s.align_element_x(parent, Size::new(20, 5), Align::Start), rect(10, 20, 20, 5));
    assert_eq!(s.align_element_x(parent, Size::new(20, 5), Align::Center), rect(50, 20, 20, 5));
    assert_eq!(s.align_element_x(parent, Size::new(20, 5), Align::End), rect(90, 20, 20, 5));
    assert_eq!(s.align_element_y(parent, Size::new(4, 11), Align::Center), rect(10, 29, 4, 11));
    assert_eq!(s.align_element_y(parent, Size::new(4, 11), Align::End), rect(10, 39, 4, 11));
    // a wider element is centred by halving toward zero
    assert_eq!(s.align_element_x(rect(10, 0, 10, 1), Size::new(15, 1), Align::Center), rect(8, 0, 15, 1));
}

#[test]
fn paint_layout_takes_margin_border_and_padding() {
    let l = card_style().paint_layout(rect(0, 0, 40, 64));
    assert_eq!(l.bordered_area, rect(2, 2, 36, 60));
    assert_eq!(l.content_area, rect(4, 4, 32, 56));
    let plain = Style::new(BinaryColor::On).paint_layout(rect(3, 4, 5, 6));
    assert_eq!(plain.bordered_area, rect(3, 4, 5, 6));
    assert_eq!(plain.content_area, rect(3, 4, 5, 6));
}

#[test]
fn text_and_bitmap_anchors() {
    let area = rect(0, 0, 20, 10);
    let s = Style::new(BinaryColor::On);
    assert_eq!(s.align(Align::Start).text_anchor(area), Point::new(0, 5));
    assert_eq!(s.align(Align::Center).text_anchor(area), Point::new(10, 5));
    assert_eq!(s.align(Align::End).text_anchor(area), Point::new(20, 5));
    let img = rect(0, 0, 20, 20);
    assert_eq!(s.align(Align::Center).bitmap_origin(img, Size::new(16, 16)), Point::new(2, 2));
    assert_eq!(s.align(Align::End).bitmap_origin(img, Size::new(16, 10)), Point::new(4, 5));
}

#[test]
fn bitmap_reads_rows_msb_first() {
    let data = [0b1010_0000u8, 0b0000_0001];
    let b = Bitmap::new(&data, 8, 2);
    assert_eq!(b.size(), Size::new(8, 2));
    assert_eq!(b.bytes_per_row(), 1);
    assert!(b.get(0, 0));
    assert!(!b.get(1, 0));
    assert!(b.get(2, 0));
    assert!(b.get(7, 1));
    assert!(!b.get(0, 1));
    let px = b.pixels();
    assert_eq!(px.len(), 16);
    assert_eq!(px[2], (Point::new(2, 0), true));
    assert_eq!(px[15], (Point::new(7, 1), true));
    assert_eq!(px[8], (Point::new(0, 1), false));
}

#[test]
fn bitmap_rows_are_byte_aligned() {
    let data = [0x00u8, 0x40, 0x80, 0x00];
    let b = Bitmap::new(&data, 10, 2);
    assert_eq!(b.bytes_per_row(), 2);
    assert!(b.get(9, 0));
    assert!(b.get(0, 1));
    assert!(!b.get(8, 0));
}

#[test]
fn icon_draws_in_inverse_colour() {
    let data = [0u8; 2];
    let icon = IconWidget::new(Bitmap::new(&data, 8, 2), BinaryColor::Off);
    assert_eq!(icon.ink(), BinaryColor::On);
    assert_eq!(icon.style.background_color, Some(BinaryColor::Off));
    assert_eq!(icon.style.align, Align::Center);
    assert_eq!(BinaryColor::On.invert(), BinaryColor::Off);
}

#[test]
fn mute_indicator_text() {
    assert_eq!(mute_label(true), "M");
    assert_eq!(mute_label(false), "U");
}

#[test]
fn intersection_of_overlapping_rectangles() {
    assert_eq!(clamp_intersection(rect(0, 0, 10, 10), rect(5, 5, 10, 10)), Some(rect(5, 5, 5, 5)));
    assert_eq!(clamp_intersection(rect(0, 0, 10, 10), rect(2, 3, 4, 5)), Some(rect(2, 3, 4, 5)));
}

#[test]
fn no_intersection_for_disjoint_or_touching() {
    assert_eq!(clamp_intersection(rect(0, 0, 10, 10), rect(20, 0, 5, 5)), None);
    assert_eq!(clamp_intersection(rect(0, 0, 10, 10), rect(10, 0, 5, 5)), None);
    assert_eq!(clamp_intersection(rect(0, 0, 0, 10), rect(0, 0, 5, 5)), None);
}

#[test]
fn subtract_leaves_strips_above_and_below() {
    assert_eq!(
        subtract_rect(rect(0, 0, 10, 10), rect(0, 4, 10, 3)),
        vec![rect(0, 0, 10, 4), rect(0, 7, 10, 3)]
    );
    assert_eq!(subtract_rect(rect(0, 0, 10, 10), rect(0, 5, 10, 20)), vec![rect(0, 0, 10, 5)]);
    assert_eq!(subtract_rect(rect(0, 0, 10, 10), rect(50, 50, 1, 1)), vec![rect(0, 0, 10, 10)]);
    assert_eq!(subtract_rect(rect(0, 0, 10, 10), rect(-5, -5, 30, 30)), Vec::<Rectangle>::new());
}

#[test]
fn slider_default_styles() {
    let s = VerticalSlider::default();
    assert_eq!(s.outer_style.margin, Insets::all(1));
    assert_eq!(s.outer_style.padding, Insets::all(1));
    assert_eq!(s.outer_style.radius, Corners::all(3));
    assert_eq!(s.inner_style_full.radius, Corners::all(3));
    assert_eq!(s.inner_style_partial.radius, Corners::new(0, 0, 3, 3));
    assert_eq!(s.inner_style(true).radius, Corners::all(3));
    assert_eq!(s.inner_style(false).radius, Corners::new(0, 0, 3, 3));
}

#[test]
fn slider_frame_and_fill() {
    let s = VerticalSlider::default();
    let frame = s.frame_layout(rect(0, 0, 10, 40), SliderAlign::Vertical);
    assert_eq!(frame.bordered_area, rect(1, 1, 8, 38));
    assert_eq!(frame.content_area, rect(3, 3, 4, 34));
    assert_eq!(s.fill_area(frame.content_area, 17, SliderAlign::Vertical, false), rect(3, 20, 4, 17));
    let fill = s.fill_layout(frame.content_area, 17, SliderAlign::Vertical, false);
    assert_eq!(fill.bordered_area, rect(3, 20, 4, 17));
    assert_eq!(fill.content_area, rect(5, 22, 0, 13));
    assert_eq!(s.fill_area(rect(0, 0, 50, 6), 20, SliderAlign::Horizontal, true), rect(30, 0, 20, 6));
}

#[test]
fn card_layout_rows() {
    let card = rounded_rectangle_layout(rect(0, 0, 40, 64));
    assert_eq!(card.frame.bordered_area, rect(2, 2, 36, 60));
    assert_eq!(card.frame.content_area, rect(4, 4, 32, 56));
    assert_eq!(card.name, rect(4, 4, 32, 5));
    assert_eq!(card.icon, rect(4, 12, 32, 11));
    assert_eq!(card.slider, rect(15, 26, 10, 17));
    assert_eq!(card.percentage, rect(4, 46, 32, 5));
    assert_eq!(card.mute, rect(4, 54, 32, 6));
}

#[test]
fn application_tiles_go_left_to_right() {
    assert_eq!(application_tile(0, 64), rect(0, 0, TILE_WIDTH, 64));
    assert_eq!(application_tile(3, 64), rect(120, 0, 40, 64));
}

#[test]
fn layout_limit_check() {
    assert!(rect(0, 0, 128, 64).in_layout_limit());
    assert!(rect(-LAYOUT_LIMIT, LAYOUT_LIMIT, LAYOUT_LIMIT as u32, 0).in_layout_limit());
    assert!(!rect(LAYOUT_LIMIT + 1, 0, 1, 1).in_layout_limit());
    assert!(!rect(0, 0, 1, LAYOUT_LIMIT as u32 + 1).in_layout_limit());
}

#[test]
fn scroll_keeps_selection_visible() {
    let mut s = ScrollState::default();
    assert_eq!(s.offset, 0);
    s.update_offset(10, 3, 5);
    assert_eq!(s.offset, 3);
    s.update_offset(10, 3, 1);
    assert_eq!(s.offset, 0);
    s.update_offset(10, 3, 9);
    assert_eq!(s.offset, 7);
    s.update_offset(10, 3, 8);
    assert_eq!(s.offset, 7);
    // the offset never passes total - window
    let mut s = ScrollState { offset: 9 };
    s.update_offset(10, 3, 9);
    assert_eq!(s.offset, 7);
    let mut s = ScrollState { offset: 0 };
    s.update_offset(2, 3, 1);
    assert_eq!(s.offset, 0);
}

#[test]
fn list_counts_trailing_row() {
    assert_eq!(list_total(4, true), 5);
    assert_eq!(list_total(4, false), 4);
    let l = ScrollableList::new(vec!["A".to_string()], 3);
    assert_eq!(l.total(), 1);
    assert_eq!(l.with_trailing("Settings".to_string()).total(), 2);
}

#[test]
fn list_rows_show_window_with_trailing_entry() {
    let labels: Vec<String> = ["A", "B", "C", "D"].iter().map(|s| s.to_string()).collect();
    let list = ScrollableList::new(labels, 3).with_trailing("Settings".to_string());
    let mut scroll = ScrollState::default();
    let rows = list.rows(rect(0, 0, 128, 64), &mut scroll, 4);
    assert_eq!(scroll.offset, 2);
    assert_eq!(rows.len(), 3);
    assert_eq!(rows[0].text, "C");
    assert_eq!(rows[0].area, rect(0, 0, 128, 20));
    assert_eq!(rows[1].text, "D");
    assert_eq!(rows[1].area, rect(0, 22, 128, 20));
    assert_eq!(rows[2].text, "Settings");
    assert_eq!(rows[2].area, rect(0, 44, 128, 20));
    assert!(rows[2].is_selected);
    assert!(!rows[0].is_selected && !rows[1].is_selected);
}

#[test]
fn list_rows_stop_after_last_entry() {
    let labels: Vec<String> = vec!["Only".to_string()];
    let list = ScrollableList::new(labels, 3);
    let mut scroll = ScrollState::default();
    let rows = list.rows(rect(0, 0, 128, 64), &mut scroll, 0);
    assert_eq!(rows.len(), 1);
    assert_eq!(rows[0].text, "Only");
    assert!(rows[0].is_selected);
}

#[test]
fn list_style_defaults() {
    let s = ListStyle::default();
    assert_eq!(s.normal.margin, Insets::new(0, 0, 2, 2));
    assert_eq!(s.normal.padding, Insets::all(2));
    assert_eq!(s.active.margin, Insets::new(0, 0, 4, 4));
    assert_eq!(s.active.foreground_color, BinaryColor::Off);
    assert_eq!(s.active.background_color, Some(BinaryColor::On));
    assert_eq!(s.active.border.unwrap().width, 2);
    assert_eq!(s.active.padding, Insets::all(2));
}

#[test]
fn wrapping_int_cycles() {
    let mut w = WrappingInt::new(0, 3);
    w.next();
    w.next();
    assert_eq!(w.value(), 2);
    w.next();
    assert_eq!(w.value(), 0);
    w.prev();
    assert_eq!(w.value(), 2);
    let mut frozen = WrappingInt::new(5, 0);
    frozen.next();
    frozen.prev();
    assert_eq!(frozen.value(), 5);
    let mut neg = WrappingInt::new(-4, 3);
    neg.next();
    assert_eq!(neg.value(), 0);
}

#[test]
fn wrapping_int_clamped_steps() {
    let mut w = WrappingInt::new(99, 101);
    w.next_clamped();
    assert_eq!(w.value(), 100);
    w.next_clamped();
    assert_eq!(w.value(), 100);
    let mut z = WrappingInt::new(1, 101);
    z.prev_clamped();
    z.prev_clamped();
    assert_eq!(z.value(), 0);
}

#[test]
fn paint_fits_detects_overflow() {
    let s = card_style();
    assert!(s.paint_fits(rect(0, 0, 40, 64)));
    assert!(!s.paint_fits(rect(i32::MAX, 0, 40, 64)));
    assert!(Style::new(BinaryColor::On).margin(Insets::all(i32::MIN)).paint_fits(rect(0, 0, 1, 1)) == false);
}

#[test]
fn bitmap_size_check() {
    let data = [0u8; 32];
    assert!(Bitmap::new(&data, 16, 16).is_well_sized());
    assert!(!Bitmap::new(&data, 16, 17).is_well_sized());
    assert!(!Bitmap::new(&data, u32::MAX, 1).is_well_sized());
}

#[test]
fn wrapping_int_step_checks() {
    assert!(WrappingInt::new(i32::MAX, 0).can_next());
    assert!(!WrappingInt::new(i32::MAX, 5).can_next());
    assert!(WrappingInt::new(0, 5).can_prev());
    assert!(!WrappingInt::new(i32::MIN, 5).can_prev());
}
