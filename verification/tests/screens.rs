use volumize::button_handling::ButtonEvent;
use volumize::digits::{digit_to_str, number_to_vec};
use volumize::display::screen::adjust_volume::{
    handle_volume_adjust, truncate_name, RenderApplication, VolumeAdjustState,
};
use volumize::display::screen::application_menu::{handle_main_menu, render_entries, ApplicationMenuState};
use volumize::display::screen::dispatch::{event_accepted, handle_event, open_application_list, Effect, ScreenData};
use volumize::display::screen::main_menu::{handle_main_menu as handle_fixed_menu, MainMenuState};
use volumize::display::screen::navigation::{Screen, Transition};
use volumize::display::screen::settings::{handle_settings, SettingsState};
use volumize::display::screen::system_menu::{handle_system_menu, SystemMenuOutcome, SystemMenuState};
use volumize::display::screen::ui_state::UIState;
use volumize::display::screen::wait_for_data::{handle_wait_for_data, wait_for_data_request, WaitForDataState};
use volumize::display::util::rotating::WrappingInt;
use volumize::input::event::InputEvent;
use volumize::input::rotary::RotationEvent;
use volumize::navigation::{handle_event as handle_gesture, Screen as GestureScreen, UIState as GestureStack};
use volumize::protocol::{Command, Identifier};
use volumize::screens::adjust_volume::{handle_volume_adjust as step_volume, VolumeAdjustState as PlainVolume};
use volumize::screens::main_menu::{handle_main_menu as move_cursor, MainMenuState as PlainMenu};
use volumize::screens::navigation::{handle_event as handle_plain, Screen as PlainScreen, Transition as PlainTransition};
use volumize::screens::settings::{handle_settings as plain_settings, SettingsState as PlainSettings};
use volumize::screens::ui_state::UIState as PlainStack;
use volumize::vtype::{
    AudioApplication, AudioDevice, AudioVolume, ProcessInfo, SessionDirection, SessionType,
};

const NEXT: InputEvent = InputEvent::Rotation(RotationEvent::Next);
const PREV: InputEvent = InputEvent::Rotation(RotationEvent::Previous);

fn device(id: &str, name: &str, muted: bool) -> AudioDevice {
    AudioDevice {
        id: id.to_string(),
        name: name.to_string(),
        friendly_name: name.to_string(),
        direction: SessionDirection::Render,
        is_default: true,
        volume: AudioVolume { current_bits: 0x3f00_0000, muted },
    }
}

fn app(pid: u32, name: &str) -> AudioApplication {
    AudioApplication {
        process: ProcessInfo { id: pid, name: name.to_string(), path: None },
        session_type: SessionType::Application,
        direction: SessionDirection::Render,
        volume: AudioVolume { current_bits: 0x3e80_0000, muted: false },
        device_id: "speaker".to_string(),
    }
}

fn render_app(pid: u32) -> RenderApplication {
    RenderApplication { id: Identifier::App(pid), name: "player".to_string(), volume_bits: 0, is_muted: false }
}

fn digits(n: usize) -> Vec<u8> {
    number_to_vec(n).iter().copied().collect()
}

#[test]
fn number_to_vec_gives_digits_most_significant_first() {
    assert_eq!(digits(123), vec![1, 2, 3]);
    assert_eq!(digits(0), vec![0]);
    assert_eq!(digits(7), vec![7]);
    assert_eq!(digits(9999), vec![9, 9, 9, 9]);
    assert_eq!(digits(1000), vec![1, 0, 0, 0]);
}

#[test]
fn number_to_vec_keeps_four_lowest_digits() {
    assert_eq!(digits(12345), vec![2, 3, 4, 5]);
    assert_eq!(digits(usize::MAX).len(), 4);
}

#[test]
fn digit_to_str_maps_digits() {
    assert_eq!(digit_to_str(0), "0");
    assert_eq!(digit_to_str(5), "5");
    assert_eq!(digit_to_str(9), "9");
    assert_eq!(digit_to_str(10), "X");
    assert_eq!(digit_to_str(255), "X");
    let text: String = number_to_vec(4096).iter().map(|d| digit_to_str(*d)).collect();
    assert_eq!(text, "4096");
}

#[test]
fn truncate_name_keeps_prefix() {
    assert_eq!(truncate_name("Spotify", 4), "Spot");
    assert_eq!(truncate_name("Tv", 10), "Tv");
    assert_eq!(truncate_name("Discord", 0), "D");
    assert_eq!(truncate_name("", 3), "");
    assert_eq!(truncate_name("héllo", 2), "hé");
}

#[test]
fn render_application_from_device_and_app() {
    let d = device("speaker", "Speaker", true);
    let r = RenderApplication::from(&d);
    assert!(matches!(r.id, Identifier::Device(ref id) if id == "speaker"));
    assert_eq!(r.name, "Speaker");
    assert!(r.is_muted);
    assert_eq!(r.volume_bits, 0x3f00_0000);
    let a = app(42, "Spotify");
    let r = RenderApplication::from(&a);
    assert!(matches!(r.id, Identifier::App(42)));
    assert_eq!(r.name, "Spotify");
    assert_eq!(r.volume_bits, 0x3e80_0000);
}

#[test]
fn volume_screen_starts_at_or_below_zero() {
    let s = VolumeAdjustState::new(5, render_app(1));
    assert_eq!(s.value, WrappingInt::new(0, 101));
    let s = VolumeAdjustState::new(-3, render_app(1));
    assert_eq!(s.value.value(), -3);
}

#[test]
fn volume_steps_send_set_volume() {
    let mut s = VolumeAdjustState::new(0, render_app(9));
    let (t, c) = handle_volume_adjust(&mut s, NEXT);
    assert!(matches!(t, Transition::Stay));
    assert!(matches!(c, Some(Command::SetVolume { id: Identifier::App(9), percent: 1 })));
    let (_, c) = handle_volume_adjust(&mut s, PREV);
    assert!(matches!(c, Some(Command::SetVolume { percent: 0, .. })));
    let (_, c) = handle_volume_adjust(&mut s, PREV);
    assert!(matches!(c, Some(Command::SetVolume { percent: 0, .. })));
    assert_eq!(s.value.value(), 0);
}

#[test]
fn volume_stops_at_one_hundred() {
    let mut s = VolumeAdjustState::new(0, render_app(9));
    s.value = WrappingInt::new(99, 101);
    handle_volume_adjust(&mut s, NEXT);
    let (_, c) = handle_volume_adjust(&mut s, NEXT);
    assert!(matches!(c, Some(Command::SetVolume { percent: 100, .. })));
    assert_eq!(s.value.value(), 100);
}

#[test]
fn double_click_toggles_mute_and_long_press_leaves() {
    let mut s = VolumeAdjustState::new(0, render_app(3));
    let (t, c) = handle_volume_adjust(&mut s, InputEvent::DoubleClick);
    assert!(matches!(t, Transition::Stay));
    assert!(matches!(c, Some(Command::SetMute { mute: true, .. })));
    assert!(s.application.is_muted);
    let (_, c) = handle_volume_adjust(&mut s, InputEvent::DoubleClick);
    assert!(matches!(c, Some(Command::SetMute { mute: false, .. })));
    let (t, c) = handle_volume_adjust(&mut s, InputEvent::LongPress);
    assert!(matches!(t, Transition::Pop) && c.is_none());
    let (t, c) = handle_volume_adjust(&mut s, InputEvent::SingleClick);
    assert!(matches!(t, Transition::Ignored) && c.is_none());
}

#[test]
fn application_list_click_opens_entry_under_cursor() {
    let d = Some(device("speaker", "Speaker", false));
    let apps = vec![app(1, "Spotify"), app(2, "Discord")];
    let mut s = ApplicationMenuState::new(3, Some("speaker".to_string()));
    assert_eq!(s.selected, WrappingInt::new(0, 3));
    let t = handle_main_menu(&mut s, InputEvent::SingleClick, &d, &apps, 2);
    match t {
        Transition::Push(Screen::VolumeAdjust(v)) => {
            assert!(matches!(v.application.id, Identifier::Device(_)));
            assert_eq!(v.value, WrappingInt::new(0, 101));
        },
        _ => panic!("expected the volume screen"),
    }
    handle_main_menu(&mut s, NEXT, &d, &apps, 2);
    handle_main_menu(&mut s, NEXT, &d, &apps, 2);
    let t = handle_main_menu(&mut s, InputEvent::SingleClick, &d, &apps, 2);
    match t {
        Transition::Push(Screen::VolumeAdjust(v)) => assert_eq!(v.application.name, "Discord"),
        _ => panic!("expected the volume screen"),
    }
    handle_main_menu(&mut s, NEXT, &d, &apps, 2);
    assert_eq!(s.selected.value(), 0);
}

#[test]
fn application_list_long_press_opens_system_menu() {
    let apps: Vec<AudioApplication> = Vec::new();
    let mut s = ApplicationMenuState::new(0, None);
    let t = handle_main_menu(&mut s, InputEvent::LongPress, &None, &apps, 4);
    match t {
        Transition::Push(Screen::SystemMenu(m)) => {
            assert_eq!(m.count, 5);
            assert_eq!(m.value, WrappingInt::new(0, 5));
        },
        _ => panic!("expected the system menu"),
    }
    assert!(matches!(handle_main_menu(&mut s, InputEvent::DoubleClick, &None, &apps, 4), Transition::Ignored));
}

#[test]
fn entries_list_device_first() {
    let d = Some(device("speaker", "Speaker", false));
    let apps = vec![app(1, "Spotify"), app(2, "Discord")];
    let names: Vec<String> = render_entries(&d, &apps).into_iter().map(|r| r.name).collect();
    assert_eq!(names, vec!["Speaker", "Spotify", "Discord"]);
    let names: Vec<String> = render_entries(&None, &apps).into_iter().map(|r| r.name).collect();
    assert_eq!(names, vec!["Spotify", "Discord"]);
}

#[test]
fn settings_cursor_wraps_and_long_press_leaves() {
    let mut s = SettingsState::new();
    assert_eq!(s.selected, WrappingInt::new(0, 4));
    assert!(matches!(handle_settings(&mut s, PREV), Transition::Stay));
    assert_eq!(s.selected.value(), 3);
    assert!(matches!(handle_settings(&mut s, NEXT), Transition::Stay));
    assert_eq!(s.selected.value(), 0);
    assert!(matches!(handle_settings(&mut s, InputEvent::LongPress), Transition::Pop));
    assert!(matches!(handle_settings(&mut s, InputEvent::SingleClick), Transition::Ignored));
}

#[test]
fn system_menu_opens_device_or_settings() {
    let devices = vec![device("a", "A", false), device("b", "B", false)];
    let mut s = SystemMenuState::new(2);
    assert_eq!(s.count, 3);
    assert_eq!(s.scroll.offset, 0);
    assert!(matches!(
        handle_system_menu(&mut s, InputEvent::SingleClick, &devices),
        SystemMenuOutcome::OpenDevice(Some(ref id)) if id == "a"
    ));
    handle_system_menu(&mut s, PREV, &devices);
    assert_eq!(s.value.value(), 2);
    assert!(matches!(
        handle_system_menu(&mut s, InputEvent::SingleClick, &devices),
        SystemMenuOutcome::Navigate(Transition::Push(Screen::Settings(_)))
    ));
    assert!(matches!(
        handle_system_menu(&mut s, InputEvent::LongPress, &devices),
        SystemMenuOutcome::Navigate(Transition::Pop)
    ));
}

#[test]
fn system_menu_device_index_past_list_gives_none() {
    let devices = vec![device("a", "A", false)];
    let mut s = SystemMenuState::new(3);
    s.value = WrappingInt::new(2, 4);
    assert!(matches!(handle_system_menu(&mut s, InputEvent::SingleClick, &devices), SystemMenuOutcome::OpenDevice(None)));
}

#[test]
fn fixed_main_menu_cursor_and_click() {
    let mut s = MainMenuState::default();
    handle_fixed_menu(&mut s, PREV);
    assert_eq!(s.selected, 2);
    handle_fixed_menu(&mut s, NEXT);
    assert_eq!(s.selected, 0);
    match handle_fixed_menu(&mut s, InputEvent::SingleClick) {
        Transition::Push(Screen::VolumeAdjust(v)) => {
            assert_eq!(v.value, WrappingInt::new(0, 0));
            assert!(v.application.name.is_empty());
        },
        _ => panic!("expected the volume screen"),
    }
    handle_fixed_menu(&mut s, NEXT);
    assert!(matches!(handle_fixed_menu(&mut s, InputEvent::SingleClick), Transition::Stay));
    assert!(matches!(handle_fixed_menu(&mut s, InputEvent::LongPress), Transition::Ignored));
}

#[test]
fn wait_screen_requests_devices_on_click() {
    assert!(matches!(wait_for_data_request(InputEvent::SingleClick), Some(Command::GetPlaybackDevices)));
    assert!(wait_for_data_request(InputEvent::LongPress).is_none());
    let mut s = WaitForDataState::default();
    assert!(!s.sent);
    assert!(matches!(handle_wait_for_data(&mut s, InputEvent::SingleClick, true, true), Transition::Stay));
    assert!(s.sent);
    assert!(matches!(handle_wait_for_data(&mut s, InputEvent::SingleClick, false, false), Transition::Pop));
    assert!(matches!(handle_wait_for_data(&mut s, NEXT, true, false), Transition::Stay));
}

fn data(devices: Vec<AudioDevice>) -> ScreenData {
    ScreenData { device: None, applications: Vec::new(), devices }
}

#[test]
fn dispatch_pushes_and_pops_screens() {
    let mut ui = UIState::new(Screen::ApplicationList(ApplicationMenuState::new(0, None)));
    let d = data(vec![device("a", "A", false)]);
    assert!(matches!(handle_event(&mut ui, InputEvent::LongPress, &d), Effect::Nothing));
    assert!(matches!(ui.current(), Screen::SystemMenu(_)));
    assert!(matches!(handle_event(&mut ui, InputEvent::LongPress, &d), Effect::Nothing));
    assert!(matches!(ui.current(), Screen::ApplicationList(_)));
    // the root is never left
    let mut apps = ScreenData { device: None, applications: Vec::new(), devices: Vec::new() };
    apps.devices.clear();
    handle_event(&mut ui, InputEvent::DoubleClick, &apps);
    assert!(matches!(ui.current(), Screen::ApplicationList(_)));
}

#[test]
fn dispatch_reports_device_to_open_and_commands() {
    let mut ui = UIState::new(Screen::ApplicationList(ApplicationMenuState::new(0, None)));
    let d = data(vec![device("a", "A", false)]);
    handle_event(&mut ui, InputEvent::LongPress, &d);
    match handle_event(&mut ui, InputEvent::SingleClick, &d) {
        Effect::OpenDevice(Some(id)) => {
            assert_eq!(id, "a");
            open_application_list(&mut ui, Some(id), 2);
        },
        _ => panic!("expected a device to open"),
    }
    match ui.current() {
        Screen::ApplicationList(s) => {
            assert_eq!(s.application_count, 2);
            assert_eq!(s.device_id, Some("a".to_string()));
        },
        _ => panic!("expected the application list"),
    }
    let with_apps = ScreenData { device: None, applications: vec![app(5, "Game")], devices: Vec::new() };
    handle_event(&mut ui, InputEvent::SingleClick, &with_apps);
    match handle_event(&mut ui, NEXT, &with_apps) {
        Effect::Send(Command::SetVolume { id: Identifier::App(5), percent: 1 }) => {},
        _ => panic!("expected a volume command"),
    }
}

#[test]
fn gesture_navigation_between_screens() {
    let mut ui = GestureStack::new();
    handle_gesture(&mut ui, ButtonEvent::LongPress);
    assert_eq!(*ui.current(), GestureScreen::VolumeAdjust { value: 0 });
    handle_gesture(&mut ui, ButtonEvent::SingleClick);
    assert_eq!(*ui.current(), GestureScreen::VolumeAdjust { value: 1 });
    handle_gesture(&mut ui, ButtonEvent::LongPress);
    handle_gesture(&mut ui, ButtonEvent::LongPress);
    assert_eq!(*ui.current(), GestureScreen::MainMenu { selected: 0 });
    handle_gesture(&mut ui, ButtonEvent::DoubleClick);
    assert_eq!(*ui.current(), GestureScreen::Settings { selected: 0 });
    handle_gesture(&mut ui, ButtonEvent::LongPress);
    assert_eq!(*ui.current(), GestureScreen::Settings { selected: 0 });
    ui.pop();
    ui.pop();
    assert_eq!(*ui.current(), GestureScreen::MainMenu { selected: 0 });
}

#[test]
fn plain_screens_route_events() {
    let mut ui = PlainStack::new();
    handle_plain(&mut ui, NEXT);
    assert_eq!(*ui.current(), PlainScreen::MainMenu(PlainMenu { selected: 1 }));
    ui.push(PlainScreen::VolumeAdjust(PlainVolume::default()));
    handle_plain(&mut ui, NEXT);
    assert_eq!(*ui.current(), PlainScreen::VolumeAdjust(PlainVolume { value: 1 }));
    handle_plain(&mut ui, InputEvent::LongPress);
    assert_eq!(*ui.current(), PlainScreen::MainMenu(PlainMenu { selected: 1 }));
    handle_plain(&mut ui, InputEvent::LongPress);
    assert_eq!(*ui.current(), PlainScreen::MainMenu(PlainMenu { selected: 1 }));
    assert_eq!(PlainScreen::default(), PlainScreen::MainMenu(PlainMenu { selected: 0 }));
}

#[test]
fn plain_volume_and_menu_steps() {
    let mut v = PlainVolume { value: 100 };
    assert_eq!(step_volume(&mut v, NEXT), PlainTransition::Stay);
    assert_eq!(v.value, 100);
    let mut v = PlainVolume { value: i32::MIN };
    step_volume(&mut v, PREV);
    assert_eq!(v.value, i32::MIN);
    assert_eq!(step_volume(&mut v, InputEvent::LongPress), PlainTransition::Pop);
    let mut m = PlainMenu { selected: 0 };
    move_cursor(&mut m, PREV);
    assert_eq!(m.selected, 0);
    assert_eq!(move_cursor(&mut m, InputEvent::SingleClick), PlainTransition::Stay);
    assert_eq!(move_cursor(&mut m, InputEvent::DoubleClick), PlainTransition::Ignored);
    let mut s = PlainSettings::default();
    assert_eq!(plain_settings(&mut s, InputEvent::LongPress), PlainTransition::Pop);
    assert_eq!(plain_settings(&mut s, NEXT), PlainTransition::Ignored);
}

#[test]
fn event_acceptance_follows_the_screen() {
    let empty = ScreenData { device: None, applications: Vec::new(), devices: Vec::new() };
    let list = Screen::ApplicationList(ApplicationMenuState::new(0, None));
    assert!(!event_accepted(&list, InputEvent::SingleClick, &empty));
    assert!(event_accepted(&list, InputEvent::LongPress, &empty));
    assert!(event_accepted(&list, NEXT, &empty));
    let with_app = ScreenData { device: None, applications: vec![app(1, "A")], devices: Vec::new() };
    assert!(event_accepted(&list, InputEvent::SingleClick, &with_app));
    let settings = Screen::Settings(SettingsState::new());
    assert!(event_accepted(&settings, PREV, &empty));
}
