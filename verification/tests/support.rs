use libobs_wrapper::crash_handler::{crash_line, ConsoleCrashHandler, ObsCrashHandler};
use libobs_wrapper::display::{initial_display_position, LockedPosition};
use libobs_wrapper::lib_support::StringEnum;
use libobs_wrapper::registry::{DisplayRegistry, NamedRegistry};
use libobs_wrapper::updater::{ObsDataChange, ObsDataUpdater};

enum Quality {
    High,
    Low,
}

impl StringEnum for Quality {
    fn to_str(&self) -> &str {
        match self {
            Quality::High => "high",
            Quality::Low => "low",
        }
    }
}

#[test]
fn crash_handler_prints_the_message() {
    assert_eq!(crash_line("segfault"), "OBS crashed: segfault");
    ConsoleCrashHandler::new().handle_crash("test crash".to_string());
    ConsoleCrashHandler::default().handle_crash(String::new());
}

#[test]
fn updater_records_settings_in_order() {
    let mut updater = ObsDataUpdater::new().set_string("server", "rtmp://127.0.0.1/live").set_int("bitrate", 6000);
    updater.set_bool_ref("cbr", true);
    updater.set_int_ref("bitrate", 4500);
    let changes = updater.into_changes();
    assert_eq!(changes.len(), 4);
    assert!(matches!(&changes[0], ObsDataChange::String(k, v) if k == "server" && v == "rtmp://127.0.0.1/live"));
    assert!(matches!(&changes[1], ObsDataChange::Int(k, 6000) if k == "bitrate"));
    assert!(matches!(&changes[2], ObsDataChange::Bool(k, true) if k == "cbr"));
    assert!(matches!(&changes[3], ObsDataChange::Int(k, 4500) if k == "bitrate"));
}

#[test]
fn named_registry_finds_the_first_registered() {
    let mut outputs: NamedRegistry<u32> = NamedRegistry::new();
    assert_eq!(outputs.find("main"), None);
    outputs.add("main", 1);
    outputs.add("replay", 2);
    outputs.add("main", 3);
    assert_eq!(outputs.find("main"), Some(&1));
    assert_eq!(outputs.find("replay"), Some(&2));
    assert_eq!(outputs.find("Main"), None);
    assert_eq!(outputs.len(), 3);
}

#[test]
fn display_registry_reads_back_what_was_added() {
    let mut displays: DisplayRegistry<&str> = DisplayRegistry::new();
    displays.add(1, "preview");
    displays.add(2, "projector");
    displays.add(1, "preview-2");
    assert_eq!(displays.get(1), Some(&"preview-2"));
    displays.remove(2);
    assert_eq!(displays.get(2), None);
    displays.remove(7);
    assert_eq!(displays.get(1), Some(&"preview-2"));
}

#[test]
fn string_enums_and_positions() {
    assert_eq!(Quality::High.to_str(), "high");
    assert_eq!(Quality::Low.to_str(), "low");
    let p = LockedPosition { x: -3, y: 4 };
    assert_eq!((p.x, p.y), (-3, 4));
}

#[test]
fn child_window_displays_start_at_the_origin() {
    assert_eq!(initial_display_position(true, true, 12, 34), (0, 0));
    assert_eq!(initial_display_position(true, false, 12, 34), (12, 34));
    assert_eq!(initial_display_position(false, true, 12, 34), (12, 34));
}
