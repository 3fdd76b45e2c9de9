use libobs_wrapper::capabilities::{
    classify_source_type, capability_list_supports, CompatibilityIssue, EncoderKind,
    EncoderTypeInfo, ListFormat, NumberControl, ObsCapabilities, OutputCompatibilityRequest,
    OutputRejectionReason, OutputTypeInfo, SourceKind,
};
use libobs_wrapper::flags::{
    OutputCapabilities, OBS_ENCODER_CAP_DEPRECATED, OBS_ENCODER_CAP_PASS_TEXTURE,
    OBS_OUTPUT_AUDIO, OBS_OUTPUT_ENCODED, OBS_OUTPUT_SERVICE, OBS_OUTPUT_VIDEO,
};
use libobs_wrapper::text::split_capability_names;

fn s(v: &str) -> String {
    v.to_string()
}

fn strings(v: &[&str]) -> Vec<String> {
    v.iter().map(|x| x.to_string()).collect()
}

fn encoder(id: &str, kind: EncoderKind, codec: &str, caps: u32) -> EncoderTypeInfo {
    EncoderTypeInfo::new(s(id), None, kind, Some(s(codec)), caps)
}

fn rtmp_flags() -> u32 {
    OBS_OUTPUT_ENCODED | OBS_OUTPUT_VIDEO | OBS_OUTPUT_AUDIO | OBS_OUTPUT_SERVICE
}

fn validation_snapshot() -> ObsCapabilities {
    let outputs = vec![
        OutputTypeInfo::new(s("ffmpeg_muxer"), None, vec![], vec![], vec![], OBS_OUTPUT_ENCODED | OBS_OUTPUT_VIDEO | OBS_OUTPUT_AUDIO),
        OutputTypeInfo::new(s("rtmp_output"), None, strings(&["h264"]), strings(&["aac"]), strings(&["RTMP", "RTMPS"]), rtmp_flags()),
        OutputTypeInfo::new(s("null_output"), None, vec![], vec![], vec![], OBS_OUTPUT_VIDEO | OBS_OUTPUT_AUDIO),
    ];
    let encoders = vec![
        encoder("obs_x264", EncoderKind::Video, "h264", 0),
        encoder("ffmpeg_nvenc", EncoderKind::Video, "h264", OBS_ENCODER_CAP_PASS_TEXTURE),
        encoder("ffmpeg_aac", EncoderKind::Audio, "aac", 0),
        encoder("old_aac", EncoderKind::Audio, "aac", OBS_ENCODER_CAP_DEPRECATED),
    ];
    ObsCapabilities::new(vec![], vec![], vec![], vec![], outputs, encoders, vec![], strings(&["RTMP", "RTMPS"]), vec![])
}

#[test]
fn future_enum_values_are_preserved() {
    assert_eq!(NumberControl::from_raw(99_999), NumberControl::Unknown(99_999));
    assert_eq!(ListFormat::from_raw(-7), ListFormat::Unknown(-7));
}

#[test]
fn capability_string_parser_is_owned_and_tolerant() {
    assert_eq!(split_capability_names("h264, hevc;av1"), vec!["h264", "hevc", "av1"]);
}

#[test]
fn capability_split_drops_empty_names() {
    assert_eq!(split_capability_names(" ,;\t"), Vec::<String>::new());
    assert_eq!(split_capability_names("aac"), vec!["aac"]);
}

#[test]
fn compatibility_planner_selects_complete_runtime_available_graph() {
    let capabilities = validation_snapshot();
    let request = OutputCompatibilityRequest::new()
        .protocol("RTMP")
        .video_codec("h264")
        .audio_codec("aac")
        .prefer_hardware_video(true)
        .require_output_capabilities(
            OutputCapabilities::encoded()
                .union(OutputCapabilities::video())
                .union(OutputCapabilities::audio())
                .union(OutputCapabilities::service()),
        );
    let plan = capabilities
        .best_output_plan(&request)
        .expect("the snapshot has a compatible RTMP graph");
    assert!(plan.output().supports_protocol("RTMP"));
    assert_eq!(plan.output().id(), "rtmp_output");
    assert_eq!(plan.video_encoder().and_then(|encoder| encoder.codec()), Some("h264"));
    assert_eq!(plan.video_encoder().map(|encoder| encoder.id()), Some("ffmpeg_nvenc"));
    assert_eq!(plan.audio_encoder().and_then(|encoder| encoder.codec()), Some("aac"));
    assert_eq!(plan.audio_encoder().map(|encoder| encoder.id()), Some("ffmpeg_aac"));
    assert_eq!(plan.protocol(), Some("RTMP"));

    let impossible = OutputCompatibilityRequest::new()
        .video_codec("libobs-rs-not-a-codec")
        .require_output_capabilities(OutputCapabilities::encoded().union(OutputCapabilities::video()));
    let report = match capabilities.best_output_plan(&impossible) {
        Ok(_) => panic!("impossible codec must produce structured diagnostics"),
        Err(report) => report,
    };
    assert!(report.issues().iter().any(|issue| matches!(issue,
        CompatibilityIssue::NoVideoEncoder { codec } if codec == "libobs-rs-not-a-codec")));
    assert!(!report.summary().is_empty());
}

#[test]
fn plan_takes_first_compatible_output_by_identifier() {
    let capabilities = validation_snapshot();
    let request = OutputCompatibilityRequest::new().protocol("RTMP").video_codec("H264").audio_codec("aac");
    let plan = capabilities.best_output_plan(&request).expect("plan");
    assert_eq!(plan.video_encoder().map(|e| e.id()), Some("ffmpeg_nvenc"));
    assert_eq!(plan.output().id(), "ffmpeg_muxer");
}

#[test]
fn report_summary_counts_issues() {
    let capabilities = validation_snapshot();
    let request = OutputCompatibilityRequest::new().protocol("SRT").video_codec("av1");
    let report = match capabilities.best_output_plan(&request) {
        Ok(_) => panic!("no output serves SRT"),
        Err(report) => report,
    };
    assert_eq!(
        report.summary(),
        "no compatible OBS output graph: 1 encoder requirement(s) unavailable, 1 output type(s) rejected"
    );
    assert_eq!(report.issues()[0], CompatibilityIssue::NoVideoEncoder { codec: s("av1") });
    assert!(report.issues().iter().any(|issue| match issue {
        CompatibilityIssue::OutputRejected { output_id, reasons } => output_id == "rtmp_output"
            && reasons.contains(&OutputRejectionReason::Protocol { required: s("SRT") })
            && reasons.contains(&OutputRejectionReason::VideoCodec { required: s("av1") }),
        _ => false,
    }));
}

#[test]
fn requested_output_id_restricts_the_plan() {
    let capabilities = validation_snapshot();
    let request = OutputCompatibilityRequest::new().output_id("null_output");
    let plan = capabilities.best_output_plan(&request).expect("plan");
    assert_eq!(plan.output().id(), "null_output");
    assert!(plan.video_encoder().is_none());
    assert!(plan.audio_encoder().is_none());
}

#[test]
fn encoder_selector_skips_deprecated_and_ranks_hardware_first() {
    let capabilities = validation_snapshot();
    let audio: Vec<&str> = capabilities.select_audio_encoder().codec("aac").matches().iter().map(|e| e.id()).collect();
    assert_eq!(audio, vec!["ffmpeg_aac"]);
    let with_deprecated: Vec<&str> = capabilities
        .select_audio_encoder()
        .codec("AAC")
        .include_deprecated(true)
        .matches()
        .iter()
        .map(|e| e.id())
        .collect();
    assert_eq!(with_deprecated, vec!["ffmpeg_aac", "old_aac"]);
    let video: Vec<&str> = capabilities.select_video_encoder().matches().iter().map(|e| e.id()).collect();
    assert_eq!(video, vec!["ffmpeg_nvenc", "obs_x264"]);
    let preferred = capabilities.select_video_encoder().prefer_hardware().best_available().map(|e| e.id());
    assert_eq!(preferred, Some("ffmpeg_nvenc"));
}

#[test]
fn output_selector_filters_by_protocol_and_codec() {
    let capabilities = validation_snapshot();
    let ids: Vec<&str> = capabilities.select_output().protocol("rtmps").matches().iter().map(|o| o.id()).collect();
    assert_eq!(ids, vec!["ffmpeg_muxer", "null_output", "rtmp_output"]);
    let h265: Vec<&str> = capabilities.select_output().video_codec("hevc").matches().iter().map(|o| o.id()).collect();
    assert_eq!(h265, vec!["ffmpeg_muxer", "null_output"]);
    assert_eq!(
        capabilities.select_output().require_capabilities(OutputCapabilities::service()).best_available().map(|o| o.id()),
        Some("rtmp_output")
    );
}

#[test]
fn capability_lists_match_without_case_and_empty_lists_accept_all() {
    assert!(capability_list_supports(&strings(&["H264", "hevc"]), "h264"));
    assert!(!capability_list_supports(&strings(&["H264"]), "av1"));
    assert!(capability_list_supports(&[], "anything"));
}

#[test]
fn source_types_are_classified_in_input_filter_transition_order() {
    let inputs = strings(&["color_source_v3", "both"]);
    let filters = strings(&["color_filter_v2", "both"]);
    let transitions = strings(&["fade_transition"]);
    assert_eq!(classify_source_type("both", &inputs, &filters, &transitions), SourceKind::Input);
    assert_eq!(classify_source_type("color_filter_v2", &inputs, &filters, &transitions), SourceKind::Filter);
    assert_eq!(classify_source_type("fade_transition", &inputs, &filters, &transitions), SourceKind::Transition);
    assert_eq!(classify_source_type("scene", &inputs, &filters, &transitions), SourceKind::Other);
}

#[test]
fn encoder_kinds_print_like_debug() {
    assert_eq!(EncoderKind::from_raw(0), EncoderKind::Audio);
    assert_eq!(EncoderKind::from_raw(1), EncoderKind::Video);
    assert_eq!(EncoderKind::from_raw(-3).debug_name(), "Unknown(-3)");
    assert_eq!(EncoderKind::Video.debug_name(), "Video");
    assert_eq!(SourceKind::Transition.debug_name(), "Transition");
}

#[test]
fn hardware_heuristic_uses_flags_and_identifier() {
    assert!(encoder("jim_NVENC", EncoderKind::Video, "h264", 0).is_likely_hardware_accelerated());
    assert!(encoder("x", EncoderKind::Video, "h264", OBS_ENCODER_CAP_PASS_TEXTURE).is_likely_hardware_accelerated());
    assert!(!encoder("obs_x264", EncoderKind::Video, "h264", 0).is_likely_hardware_accelerated());
    assert!(encoder("old", EncoderKind::Audio, "aac", OBS_ENCODER_CAP_DEPRECATED).is_deprecated());
}
