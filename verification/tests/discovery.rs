use libobs_wrapper::capabilities::{EncoderKind, EncoderTypeInfo, ModuleInfo, SourceKind, SourceTypeInfo};
use libobs_wrapper::discovery::{
    best_encoder_id, capability_kind_mismatch, check_descriptor_creation, check_encoder_creation,
    check_filter_creation, check_source_creation, output_protocols, sort_modules,
    sorted_unique_names, visible_encoder_ids,
};
use libobs_wrapper::error::ObsError;
use libobs_wrapper::flags::{ENCODER_HIDE_FLAGS, OBS_ENCODER_CAP_DEPRECATED, OBS_ENCODER_CAP_INTERNAL, OBS_ENCODER_CAP_PASS_TEXTURE};

fn strings(v: &[&str]) -> Vec<String> {
    v.iter().map(|x| x.to_string()).collect()
}

fn module(file: Option<&str>, name: &str) -> ModuleInfo {
    ModuleInfo {
        file_name: file.map(|f| f.to_string()),
        name: Some(name.to_string()),
        author: None,
        description: None,
        binary_path: None,
        data_path: None,
    }
}

fn mismatch(id: &str, expected: &str, actual: &str) -> ObsError {
    ObsError::CapabilityKindMismatch { id: id.to_string(), expected: expected.to_string(), actual: actual.to_string() }
}

#[test]
fn enumerated_names_are_sorted_and_deduplicated() {
    assert_eq!(
        sorted_unique_names(strings(&["rtmp", "RTMPS", "rtmp", "SRT", "RTMPS", "Ä"])),
        strings(&["RTMPS", "SRT", "rtmp", "Ä"])
    );
    assert_eq!(sorted_unique_names(vec![]), Vec::<String>::new());
}

#[test]
fn hidden_and_foreign_encoders_are_not_offered() {
    let rows = vec![
        ("x264".to_string(), 1, 0),
        ("aac".to_string(), 0, 0),
        ("old".to_string(), 1, OBS_ENCODER_CAP_DEPRECATED),
        ("hidden".to_string(), 1, OBS_ENCODER_CAP_INTERNAL | OBS_ENCODER_CAP_PASS_TEXTURE),
        ("nvenc".to_string(), 1, OBS_ENCODER_CAP_PASS_TEXTURE),
        ("amf".to_string(), 1, 0),
        ("amf".to_string(), 1, 0),
    ];
    assert_eq!(ENCODER_HIDE_FLAGS, OBS_ENCODER_CAP_DEPRECATED | OBS_ENCODER_CAP_INTERNAL);
    assert_eq!(visible_encoder_ids(&rows, 1), strings(&["amf", "amf", "nvenc", "x264"]));
    assert_eq!(visible_encoder_ids(&rows, 0), strings(&["aac"]));
    assert_eq!(visible_encoder_ids(&rows, 7), Vec::<String>::new());
}

#[test]
fn best_encoder_is_the_first_offered() {
    assert_eq!(best_encoder_id(strings(&["amf", "x264"])), Ok("amf".to_string()));
    assert_eq!(best_encoder_id(vec![]), Err(ObsError::NoAvailableEncoders));
}

#[test]
fn modules_are_ordered_by_file_name_with_unnamed_first() {
    let mods = vec![
        module(Some("obs-x264"), "a"),
        module(None, "b"),
        module(Some("image-source"), "c"),
        module(None, "d"),
        module(Some("image-source"), "e"),
    ];
    let names: Vec<String> = sort_modules(&mods).into_iter().map(|m| m.name.unwrap()).collect();
    assert_eq!(names, strings(&["b", "d", "c", "e", "a"]));
}

#[test]
fn output_protocols_collect_each_serving_protocol_once() {
    let table = vec![
        ("RTMPS".to_string(), strings(&["rtmp_output", "ffmpeg_mpegts_muxer"])),
        ("RTMP".to_string(), strings(&["rtmp_output"])),
        ("SRT".to_string(), strings(&["ffmpeg_mpegts_muxer"])),
        ("RTMP".to_string(), strings(&["rtmp_output"])),
    ];
    assert_eq!(output_protocols("rtmp_output", &table), strings(&["RTMP", "RTMPS"]));
    assert_eq!(output_protocols("ffmpeg_mpegts_muxer", &table), strings(&["RTMPS", "SRT"]));
    assert_eq!(output_protocols("null_output", &table), Vec::<String>::new());
}

#[test]
fn creation_refuses_descriptors_of_the_wrong_kind() {
    let filter = SourceTypeInfo::new("color_filter_v2".to_string(), None, SourceKind::Filter, 0);
    let input = SourceTypeInfo::new("color_source_v3".to_string(), None, SourceKind::Input, 0);
    assert_eq!(
        check_source_creation(1, 1, &filter, None),
        Err(mismatch("color_filter_v2", "source/input/transition", "filter"))
    );
    assert_eq!(check_source_creation(1, 1, &input, Some(1)), Ok(()));
    assert_eq!(check_source_creation(1, 2, &filter, None), Err(ObsError::RuntimeMismatch));
    assert_eq!(check_source_creation(1, 1, &input, Some(3)), Err(ObsError::RuntimeMismatch));
    assert_eq!(check_filter_creation(1, 1, &input, None), Err(mismatch("color_source_v3", "filter", "Input")));
    assert_eq!(check_filter_creation(1, 1, &filter, None), Ok(()));

    let audio = EncoderTypeInfo::new("ffmpeg_aac".to_string(), None, EncoderKind::Audio, Some("aac".to_string()), 0);
    let odd = EncoderTypeInfo::new("odd".to_string(), None, EncoderKind::Unknown(9), None, 0);
    assert_eq!(
        check_encoder_creation(1, 1, &audio, EncoderKind::Video, None),
        Err(mismatch("ffmpeg_aac", "video encoder", "Audio"))
    );
    assert_eq!(
        check_encoder_creation(1, 1, &odd, EncoderKind::Audio, None),
        Err(mismatch("odd", "audio encoder", "Unknown(9)"))
    );
    assert_eq!(check_encoder_creation(1, 1, &audio, EncoderKind::Audio, None), Ok(()));
    assert_eq!(check_descriptor_creation(1, 1, Some(2)), Err(ObsError::RuntimeMismatch));
    assert_eq!(check_descriptor_creation(1, 1, None), Ok(()));
    assert_eq!(capability_kind_mismatch("a", "b", "c"), mismatch("a", "b", "c"));
}
