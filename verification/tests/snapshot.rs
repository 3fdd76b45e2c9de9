use libobs_wrapper::capabilities::{FrameRate, FrameRateOption, FrameRateRange, ListFormat, ListType, NumberControl, PathType, TextInfoType, TextType, GroupType};
use libobs_wrapper::error::{check_video_reset, ObsError};
use libobs_wrapper::logging::ObsLogLevel;
use libobs_wrapper::properties::RawListItem;
use libobs_wrapper::property_snapshot::{
    snapshot_property, snapshot_property_kind, ListItem, ListValue, PropertyKind, RawPropertyFields,
};
use libobs_wrapper::runtime_report::{shutdown_messages, startup_complete_message, startup_messages};

fn fields() -> RawPropertyFields {
    RawPropertyFields {
        int_min: 0,
        int_max: 100,
        int_step: 5,
        int_suffix: Some(" %".to_string()),
        int_type: 1,
        float_min: 0.5f64.to_bits(),
        float_max: 2.0f64.to_bits(),
        float_step: 0.25f64.to_bits(),
        float_suffix: None,
        float_type: 9,
        text_type: 1,
        text_monospace: true,
        text_info_type: 2,
        text_word_wrap: false,
        path_type: 2,
        path_filter: None,
        path_default_path: Some("/videos".to_string()),
        list_type: 2,
        list_format: 3,
        list_items: vec![RawListItem {
            name: None,
            disabled: true,
            int_value: 3,
            float_bits: 0,
            string_value: Some("veryfast".to_string()),
            bool_value: false,
        }],
        button_type: 1,
        button_url: Some("https://obsproject.com".to_string()),
        editable_list_type: 1,
        editable_list_filter: Some("*.png".to_string()),
        editable_list_default_path: None,
        frame_rate_options: vec![FrameRateOption { name: Some("60".to_string()), description: None }],
        frame_rate_ranges: vec![FrameRateRange {
            min: FrameRate { numerator: 1, denominator: 1 },
            max: FrameRate { numerator: 120, denominator: 1 },
        }],
        group_type: 2,
        group_properties: vec![],
    }
}

#[test]
fn raw_type_picks_the_kind() {
    assert_eq!(snapshot_property_kind(0, fields()), PropertyKind::Invalid);
    assert_eq!(snapshot_property_kind(1, fields()), PropertyKind::Bool);
    assert_eq!(
        snapshot_property_kind(2, fields()),
        PropertyKind::Integer { min: 0, max: 100, step: 5, suffix: Some(" %".to_string()), control: NumberControl::Slider }
    );
    assert_eq!(
        snapshot_property_kind(3, fields()),
        PropertyKind::Float {
            min: 0.5f64.to_bits(),
            max: 2.0f64.to_bits(),
            step: 0.25f64.to_bits(),
            suffix: None,
            control: NumberControl::Unknown(9)
        }
    );
    assert_eq!(
        snapshot_property_kind(4, fields()),
        PropertyKind::Text { text_type: TextType::Password, monospace: true, info_type: TextInfoType::Error, word_wrap: false }
    );
    assert_eq!(
        snapshot_property_kind(5, fields()),
        PropertyKind::Path { path_type: PathType::Directory, filter: None, default_path: Some("/videos".to_string()) }
    );
    assert_eq!(snapshot_property_kind(7, fields()), PropertyKind::Color);
    assert_eq!(snapshot_property_kind(9, fields()), PropertyKind::Font);
    assert_eq!(snapshot_property_kind(13, fields()), PropertyKind::ColorAlpha);
    assert_eq!(snapshot_property_kind(42, fields()), PropertyKind::Unknown(42));
    assert!(matches!(snapshot_property_kind(11, fields()), PropertyKind::FrameRate { options, ranges } if options.len() == 1 && ranges[0].max.numerator == 120));
    assert_eq!(
        snapshot_property_kind(12, fields()),
        PropertyKind::Group { group_type: GroupType::Checkable, properties: vec![] }
    );
}

#[test]
fn list_kind_keeps_every_entry_in_its_format() {
    assert_eq!(
        snapshot_property_kind(6, fields()),
        PropertyKind::List {
            list_type: ListType::List,
            format: ListFormat::String,
            items: vec![ListItem { name: String::new(), value: ListValue::String("veryfast".to_string()), disabled: true }]
        }
    );
    let mut unknown = fields();
    unknown.list_format = 0;
    assert_eq!(
        snapshot_property_kind(6, unknown),
        PropertyKind::List {
            list_type: ListType::List,
            format: ListFormat::Invalid,
            items: vec![ListItem { name: String::new(), value: ListValue::UnknownFormat(0), disabled: true }]
        }
    );
}

#[test]
fn snapshot_property_defaults_a_missing_name() {
    let p = snapshot_property(None, Some("Quality".to_string()), None, true, false, 1, fields());
    assert_eq!(p.name, "");
    assert_eq!(p.description, Some("Quality".to_string()));
    assert!(p.enabled && !p.visible);
    assert_eq!(p.kind, PropertyKind::Bool);
}

#[test]
fn startup_messages_frame_the_mismatch_warning() {
    let ok = startup_messages("30.1.2", true, 30);
    assert_eq!(ok, vec![(ObsLogLevel::Info, "OBS 30.1.2".to_string()), (ObsLogLevel::Info, "-".repeat(33))]);
    let bad = startup_messages("29.0.0", false, 30);
    assert_eq!(bad.len(), 5);
    assert_eq!(bad[1], (ObsLogLevel::Warning, "!".repeat(33)));
    assert_eq!(
        bad[2].1,
        "OBS major version mismatch: installed version is 29.0.0, but expected major version 30. Expect crashes or bugs!!"
    );
    assert_eq!(bad[3], (ObsLogLevel::Warning, "!".repeat(33)));
    assert_eq!(startup_complete_message(), format!("==== Startup complete {}", "=".repeat(47)));
    let down = shutdown_messages(3);
    assert_eq!(down[0], (ObsLogLevel::Info, "OBS context shutdown.".to_string()));
    assert_eq!(down[1], (ObsLogLevel::Error, "Number of memory leaks: 3".to_string()));
}

#[test]
fn video_reset_is_refused_for_module_changes_and_active_outputs() {
    assert_eq!(check_video_reset(true, true), Err(ObsError::ResetVideoFailureGraphicsModule));
    assert_eq!(check_video_reset(false, true), Err(ObsError::ResetVideoFailureOutputActive));
    assert_eq!(check_video_reset(false, false), Ok(()));
}
