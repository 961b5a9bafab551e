use volumize::display::keyed_list::{key_lt_exec, KeyedList};
use volumize::display::registry::DeviceRegistry;
use volumize::protocol::{ChangeType, Command, Envelope, Identifier, Response, UpdateChange};
use volumize::vtype::{
    AudioApplication, AudioDevice, AudioVolume, ProcessInfo, SessionDirection, SessionType,
};

fn volume(bits: u32, muted: bool) -> AudioVolume {
    AudioVolume { current_bits: bits, muted }
}

fn device(id: &str, name: &str) -> AudioDevice {
    AudioDevice {
        id: id.to_string(),
        name: name.to_string(),
        friendly_name: name.to_string(),
        direction: SessionDirection::Render,
        is_default: false,
        volume: volume(0, false),
    }
}

fn app(pid: u32, name: &str, device_id: &str) -> AudioApplication {
    AudioApplication {
        process: ProcessInfo { id: pid, name: name.to_string(), path: None },
        session_type: SessionType::Application,
        direction: SessionDirection::Render,
        volume: volume(0, false),
        device_id: device_id.to_string(),
    }
}

fn list_apps(reg: &mut DeviceRegistry, device_id: &str, ids: Vec<u32>) {
    reg.update_response(Response::ApplicationList { device_id: device_id.to_string(), apps: ids });
}

#[test]
fn keyed_list_keeps_keys_sorted_and_unique() {
    let mut l: KeyedList<u32> = KeyedList::new();
    assert_eq!(l.insert("b".to_string(), 2), None);
    assert_eq!(l.insert("a".to_string(), 1), None);
    assert_eq!(l.insert("c".to_string(), 3), None);
    assert_eq!(l.insert("b".to_string(), 20), Some(2));
    assert_eq!(l.len(), 3);
    assert_eq!(l.key_at(0), "a");
    assert_eq!(l.key_at(1), "b");
    assert_eq!(l.key_at(2), "c");
    assert_eq!(l.get(&"b".to_string()), Some(&20));
    assert_eq!(l.remove(&"a".to_string()), Some(1));
    assert_eq!(l.get(&"a".to_string()), None);
    assert_eq!(l.remove(&"zz".to_string()), None);
    assert_eq!(*l.value_at(0), 20);
}

#[test]
fn keys_compare_by_bytes() {
    assert!(key_lt_exec(&"a".to_string(), &"b".to_string()));
    assert!(key_lt_exec(&"ab".to_string(), &"b".to_string()));
    assert!(key_lt_exec(&"a".to_string(), &"ab".to_string()));
    assert!(!key_lt_exec(&"b".to_string(), &"b".to_string()));
    assert!(key_lt_exec(&"".to_string(), &"a".to_string()));
    assert!(!key_lt_exec(&"Z".to_string(), &"A".to_string()));
}

#[test]
fn new_registry_is_empty() {
    let reg = DeviceRegistry::new();
    assert!(reg.devices().is_empty());
    assert!(reg.applications_of(&"speaker".to_string()).is_none());
    assert_eq!(reg.find_application_device(1), None);
}

#[test]
fn device_list_replaces_devices() {
    let mut reg = DeviceRegistry::new();
    reg.update_response(Response::DeviceList(vec![device("speaker", "Speaker")]));
    reg.update_response(Response::DeviceList(vec![device("a", "A"), device("b", "B")]));
    let ids: Vec<&str> = reg.devices().iter().map(|d| d.id.as_str()).collect();
    assert_eq!(ids, vec!["a", "b"]);
}

#[test]
fn device_volume_updates_matching_device() {
    let mut reg = DeviceRegistry::new();
    reg.update_response(Response::DeviceList(vec![device("a", "A"), device("b", "B")]));
    reg.update_response(Response::Volume {
        id: Identifier::Device("b".to_string()),
        volume: volume(0x3f00_0000, true),
    });
    assert_eq!(reg.devices()[0].volume, volume(0, false));
    assert_eq!(reg.devices()[1].volume, volume(0x3f00_0000, true));
    // an unknown device changes nothing
    reg.update_response(Response::Volume { id: Identifier::Device("x".to_string()), volume: volume(1, false) });
    assert_eq!(reg.devices()[0].volume, volume(0, false));
}

#[test]
fn application_list_is_found_by_application() {
    let mut reg = DeviceRegistry::new();
    list_apps(&mut reg, "speaker", vec![10, 11]);
    list_apps(&mut reg, "headphones", vec![12]);
    assert_eq!(reg.find_application_device(11), Some("speaker".to_string()));
    assert_eq!(reg.find_application_device(12), Some("headphones".to_string()));
    assert_eq!(reg.find_application_device(99), None);
    // a new list for a device replaces its old one
    list_apps(&mut reg, "speaker", vec![13]);
    assert_eq!(reg.find_application_device(10), None);
    assert_eq!(reg.find_application_device(13), Some("speaker".to_string()));
}

#[test]
fn application_listed_twice_goes_to_first_device_id() {
    let mut reg = DeviceRegistry::new();
    list_apps(&mut reg, "zeta", vec![5]);
    list_apps(&mut reg, "alpha", vec![5]);
    assert_eq!(reg.find_application_device(5), Some("alpha".to_string()));
}

#[test]
fn application_record_replaces_older_records() {
    let mut reg = DeviceRegistry::new();
    list_apps(&mut reg, "speaker", vec![1, 2]);
    reg.update_response(Response::Application(app(1, "old", "speaker")));
    reg.update_response(Response::Application(app(2, "two", "speaker")));
    reg.update_response(Response::Application(app(1, "new", "speaker")));
    let apps = reg.applications_of(&"speaker".to_string()).unwrap();
    let names: Vec<&str> = apps.iter().map(|a| a.process.name.as_str()).collect();
    assert_eq!(names, vec!["two", "new"]);
}

#[test]
fn application_of_unlisted_process_is_dropped() {
    let mut reg = DeviceRegistry::new();
    reg.update_response(Response::Application(app(7, "lost", "speaker")));
    assert!(reg.applications_of(&"speaker".to_string()).is_none());
}

#[test]
fn application_volume_and_icon_update_the_record() {
    let mut reg = DeviceRegistry::new();
    list_apps(&mut reg, "speaker", vec![1]);
    reg.update_response(Response::Application(app(1, "player", "speaker")));
    reg.update_response(Response::Volume { id: Identifier::App(1), volume: volume(0x3f80_0000, true) });
    reg.update_response(Response::Icon { app_id: 1, data: "C:/player.exe".to_string() });
    let apps = reg.applications_of(&"speaker".to_string()).unwrap();
    assert_eq!(apps.len(), 1);
    assert_eq!(apps[0].volume, volume(0x3f80_0000, true));
    assert_eq!(apps[0].process.path, Some("C:/player.exe".to_string()));
}

#[test]
fn errors_and_events_change_nothing() {
    let mut reg = DeviceRegistry::new();
    reg.update_response(Response::DeviceList(vec![device("a", "A")]));
    list_apps(&mut reg, "a", vec![3]);
    reg.update_response(Response::Error { message: "boom".to_string(), request: "GetPlaybackDevices".to_string() });
    reg.update_event(UpdateChange { change: ChangeType::NameChange });
    reg.update_information(Envelope::Command(Command::GetPlaybackDevices));
    reg.update_information(Envelope::Event(UpdateChange { change: ChangeType::AudioVolume }));
    assert_eq!(reg.devices().len(), 1);
    assert_eq!(reg.find_application_device(3), Some("a".to_string()));
}

#[test]
fn envelope_response_is_filed() {
    let mut reg = DeviceRegistry::new();
    reg.update_information(Envelope::Response(Response::DeviceList(vec![device("tv", "Samsung Tv")])));
    assert_eq!(reg.devices()[0].friendly_name, "Samsung Tv");
}

#[test]
fn device_by_id_finds_first_match() {
    let mut reg = DeviceRegistry::new();
    reg.update_response(Response::DeviceList(vec![device("a", "A"), device("b", "B"), device("b", "B2")]));
    assert_eq!(reg.device_by_id(&"b".to_string()).map(|d| d.name.as_str()), Some("B"));
    assert!(reg.device_by_id(&"c".to_string()).is_none());
}
