use volumize::button_handling::{ButtonEvent, ButtonTracker as GestureTracker};
use volumize::input::button::{ButtonState, ButtonTracker, DOUBLE_CLICK_GAP_MS, LONG_PRESS_MS};
use volumize::input::edge_filter::{EdgeFilter, DEBOUNCE_MS};
use volumize::input::event::InputEvent;
use volumize::input::pulse_counter::{carry_after_limit, rotation_value};
use volumize::input::rotary::{RotaryTracker, RotationEvent};
use volumize::interrupt_handler::rotary::{count_step, RotaryDecoder, RotaryType, DIR_CCW, DIR_CW};

#[test]
fn double_click_is_reported_on_second_release() {
    let mut t = ButtonTracker::default();
    assert_eq!(t.on_edge(true, 100), None);
    assert_eq!(t.on_edge(false, 150), None);
    assert_eq!(t.on_edge(true, 200), None);
    assert_eq!(t.on_edge(false, 250), Some(InputEvent::DoubleClick));
    assert_eq!(t.state, ButtonState::Idle);
}

#[test]
fn long_press_fires_after_threshold() {
    let mut t = ButtonTracker::default();
    t.on_edge(true, 1000);
    assert_eq!(t.check_timeouts(1000 + LONG_PRESS_MS - 1), None);
    assert_eq!(t.state, ButtonState::Pressed { since: 1000 });
    assert_eq!(t.check_timeouts(1000 + LONG_PRESS_MS), Some(InputEvent::LongPress));
    assert_eq!(t.state, ButtonState::Idle);
}

#[test]
fn single_click_needs_quiet_gap() {
    let mut t = ButtonTracker::default();
    t.on_edge(true, 0);
    t.on_edge(false, 50);
    assert_eq!(t.check_timeouts(50 + DOUBLE_CLICK_GAP_MS), None);
    assert_eq!(t.check_timeouts(51 + DOUBLE_CLICK_GAP_MS), Some(InputEvent::SingleClick));
    assert_eq!(t.state, ButtonState::Idle);
}

#[test]
fn idle_tracker_reports_nothing() {
    let mut t = ButtonTracker::default();
    assert_eq!(t.check_timeouts(u64::MAX), None);
    assert_eq!(t.on_edge(false, 5), None);
    assert_eq!(t.state, ButtonState::Idle);
}

#[test]
fn timeout_checked_with_earlier_clock_reports_nothing() {
    let mut t = ButtonTracker::default();
    t.on_edge(true, 5000);
    assert_eq!(t.check_timeouts(10), None);
    assert_eq!(t.state, ButtonState::Pressed { since: 5000 });
}

#[test]
fn gesture_tracker_reports_button_events() {
    let mut t = GestureTracker::new();
    assert_eq!(t.state, ButtonState::Idle);
    t.on_edge(true, 0);
    assert_eq!(t.check_timeouts(LONG_PRESS_MS), Some(ButtonEvent::LongPress));
    t.on_edge(true, 1000);
    t.on_edge(false, 1010);
    assert_eq!(t.check_timeouts(1010 + DOUBLE_CLICK_GAP_MS + 1), Some(ButtonEvent::SingleClick));
    t.on_edge(true, 2000);
    t.on_edge(false, 2010);
    t.on_edge(true, 2020);
    assert_eq!(t.on_edge(false, 2030), Some(ButtonEvent::DoubleClick));
}

#[test]
fn edge_filter_rejects_bounce_and_repeats() {
    let mut f = EdgeFilter::new();
    assert!(!f.accept(true, DEBOUNCE_MS));
    assert!(f.accept(true, DEBOUNCE_MS + 1));
    assert_eq!(f.last_edge_ms, DEBOUNCE_MS + 1);
    assert!(f.last_accepted_level);
    // same level again is no edge
    assert!(!f.accept(true, 500));
    // a release within the bounce window is ignored
    assert!(!f.accept(false, DEBOUNCE_MS + 10));
    assert!(f.accept(false, 500));
    assert!(!f.last_accepted_level);
}

#[test]
fn rotary_tracker_reports_direction() {
    let mut r = RotaryTracker::default();
    assert_eq!(r.poll(0), None);
    assert_eq!(r.poll(1), Some(InputEvent::Rotation(RotationEvent::Next)));
    assert_eq!(r.poll(-3), Some(InputEvent::Rotation(RotationEvent::Previous)));
    assert_eq!(r.last_value, -3);
    assert_eq!(r.poll(-3), None);
}

#[test]
fn rotary_tracker_wraps_the_short_way() {
    let mut r = RotaryTracker { last_value: i16::MAX };
    assert_eq!(r.poll(i16::MIN), Some(InputEvent::Rotation(RotationEvent::Next)));
    assert_eq!(r.poll(i16::MAX), Some(InputEvent::Rotation(RotationEvent::Previous)));
}

#[test]
fn carry_follows_limit_events() {
    assert_eq!(carry_after_limit(0, true, false), 1000);
    assert_eq!(carry_after_limit(0, false, true), -1000);
    assert_eq!(carry_after_limit(7, true, true), 1007);
    assert_eq!(carry_after_limit(42, false, false), 42);
    assert_eq!(carry_after_limit(i32::MAX, true, false), i32::MIN + 999);
}

#[test]
fn rotation_value_divides_toward_zero() {
    assert_eq!(rotation_value(8, 0), 2);
    assert_eq!(rotation_value(7, 0), 1);
    assert_eq!(rotation_value(-7, 0), -1);
    assert_eq!(rotation_value(3, 1000), 250);
    assert_eq!(rotation_value(0, -1000), -250);
    assert_eq!(rotation_value(i16::MAX, 1), i16::MIN / 4);
}

fn feed(d: &mut RotaryDecoder, steps: &[(bool, bool)]) -> Vec<u8> {
    steps.iter().map(|&(dt, clk)| d.update_encoder(dt, clk)).collect()
}

#[test]
fn decoder_reports_clockwise_detent() {
    let mut d = RotaryDecoder::new();
    let out = feed(&mut d, &[(true, false), (false, false), (false, true), (true, true)]);
    assert_eq!(out, vec![0, 0, 0, DIR_CW]);
}

#[test]
fn decoder_reports_counter_clockwise_detent() {
    let mut d = RotaryDecoder::new();
    let out = feed(&mut d, &[(false, true), (false, false), (true, false), (true, true)]);
    assert_eq!(out, vec![0, 0, 0, DIR_CCW]);
}

#[test]
fn decoder_ignores_bounce_back_to_start() {
    let mut d = RotaryDecoder::new();
    let out = feed(&mut d, &[(true, false), (true, true), (true, false), (true, true)]);
    assert_eq!(out, vec![0, 0, 0, 0]);
}

#[test]
fn step_counter_wraps() {
    assert_eq!(count_step(RotaryType(255), DIR_CW), RotaryType(0));
    assert_eq!(count_step(RotaryType(0), DIR_CCW), RotaryType(255));
    assert_eq!(count_step(RotaryType(9), 0), RotaryType(9));
    assert_eq!(RotaryType(250).wrapping_add(10).value(), 4);
    assert_eq!(RotaryType(3).wrapping_sub(5).value(), 254);
}
