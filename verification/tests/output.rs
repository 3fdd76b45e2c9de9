use libobs_wrapper::capabilities::OutputTypeInfo;
use libobs_wrapper::error::ObsError;
use libobs_wrapper::flags::{OBS_OUTPUT_AUDIO, OBS_OUTPUT_ENCODED, OBS_OUTPUT_SERVICE, OBS_OUTPUT_VIDEO};
use libobs_wrapper::output::{
    check_attach, check_attach_audio, check_attach_service, check_start, check_composition, check_pause_or_stop,
    mixer_update_indices, pause_outcome, start_outcome, validate_audio_mixer,
    validate_output_pipeline, AudioPipelineComponent, ObsOutputComposition, PipelineComponent,
    PipelineFacts,
};

type Composition = ObsOutputComposition<&'static str, &'static str, &'static str>;

fn strings(v: &[&str]) -> Vec<String> {
    v.iter().map(|x| x.to_string()).collect()
}

fn rtmp_output() -> OutputTypeInfo {
    OutputTypeInfo::new(
        "rtmp_output".to_string(),
        None,
        strings(&["h264"]),
        strings(&["aac"]),
        strings(&["RTMP"]),
        OBS_OUTPUT_ENCODED | OBS_OUTPUT_VIDEO | OBS_OUTPUT_AUDIO | OBS_OUTPUT_SERVICE,
    )
}

fn complete_facts() -> PipelineFacts {
    PipelineFacts {
        context_runtime: 1,
        output_runtime: 1,
        settings_runtime: None,
        video_encoder: Some(PipelineComponent { runtime: 1, name: Some("H264".to_string()) }),
        audio_encoders: vec![AudioPipelineComponent { mixer_idx: 0, runtime: 1, codec: Some("aac".to_string()) }],
        service: Some(PipelineComponent { runtime: 1, name: Some("rtmp".to_string()) }),
    }
}

#[test]
fn audio_mixer_indices_are_bounded_before_ffi() {
    assert!(validate_audio_mixer(0).is_ok());
    assert!(validate_audio_mixer(5).is_ok());
    assert!(validate_audio_mixer(6).is_err());
}

#[test]
fn mixer_error_names_the_index_and_the_last_mixer() {
    assert_eq!(
        validate_audio_mixer(17),
        Err(ObsError::InvalidOperation("Audio mixer index 17 is out of bounds (max 5)".to_string()))
    );
}

#[test]
fn composition_builders_replace_components() {
    let c: Composition = ObsOutputComposition::new()
        .with_video_encoder("x264")
        .with_audio_encoder(0, "aac-a")
        .with_audio_encoder(2, "aac-b")
        .with_audio_encoder(0, "aac-c")
        .with_service("rtmp");
    assert_eq!(c.video_encoder(), Some(&"x264"));
    assert_eq!(c.audio_encoders().len(), 2);
    assert_eq!(c.audio_encoders().get(&0), Some(&"aac-c"));
    assert_eq!(c.service(), Some(&"rtmp"));
    let c = c.without_video_encoder().without_audio_encoder(2).without_service();
    assert_eq!(c.video_encoder(), None);
    assert_eq!(c.audio_encoders().len(), 1);
    assert_eq!(c.service(), None);
}

#[test]
fn composition_writes_every_attached_and_desired_mixer_once() {
    let c: Composition = ObsOutputComposition::new().with_audio_encoder(1, "a").with_audio_encoder(3, "b");
    let mut indices = mixer_update_indices(&c, &vec![3, 0, 0]).expect("valid mixers");
    indices.sort();
    assert_eq!(indices, vec![0, 1, 3]);
    let bad: Composition = ObsOutputComposition::new().with_audio_encoder(6, "a");
    assert!(matches!(mixer_update_indices(&bad, &vec![]), Err(ObsError::InvalidOperation(_))));
}

#[test]
fn composition_checks_come_in_order() {
    let c: Composition = ObsOutputComposition::new().with_audio_encoder(9, "a");
    assert_eq!(check_composition(&c, &vec![], true, 1, None, &vec![], None), Err(ObsError::OutputAlreadyActive));
    assert!(matches!(check_composition(&c, &vec![], false, 1, Some(2), &vec![], None), Err(ObsError::InvalidOperation(_))));
    let ok: Composition = ObsOutputComposition::new().with_audio_encoder(1, "a");
    assert_eq!(check_composition(&ok, &vec![], false, 1, Some(2), &vec![1], None), Err(ObsError::RuntimeMismatch));
    assert_eq!(check_composition(&ok, &vec![], false, 1, Some(1), &vec![1, 3], None), Err(ObsError::RuntimeMismatch));
    assert_eq!(check_composition(&ok, &vec![], false, 1, None, &vec![1], Some(4)), Err(ObsError::RuntimeMismatch));
    assert_eq!(check_composition(&ok, &vec![1], false, 1, Some(1), &vec![1], Some(1)), Ok(vec![1]));
}

#[test]
fn attaching_checks_mixer_then_activity_then_runtime() {
    assert_eq!(check_attach(true, 1, 2), Err(ObsError::OutputAlreadyActive));
    assert_eq!(check_attach(false, 1, 2), Err(ObsError::RuntimeMismatch));
    assert_eq!(check_attach(false, 1, 1), Ok(()));
    assert!(matches!(check_attach_audio(6, true, 1, 2), Err(ObsError::InvalidOperation(_))));
    assert_eq!(check_attach_audio(5, true, 1, 2), Err(ObsError::OutputAlreadyActive));
    assert_eq!(check_attach_audio(5, false, 1, 2), Err(ObsError::RuntimeMismatch));
    assert_eq!(check_attach_audio(5, false, 1, 1), Ok(()));
}

#[test]
fn start_pause_and_stop_answers() {
    assert_eq!(start_outcome(true, None), Ok(()));
    assert_eq!(start_outcome(false, None), Err(ObsError::OutputStartFailure(Some("Unknown error".to_string()))));
    assert_eq!(
        start_outcome(false, Some("no encoder".to_string())),
        Err(ObsError::OutputStartFailure(Some("no encoder".to_string())))
    );
    assert_eq!(check_pause_or_stop(true, true, true), Err(ObsError::RuntimeReentrantBlocking));
    assert_eq!(
        check_pause_or_stop(false, false, true),
        Err(ObsError::OutputPauseFailure(Some("Output is not active.".to_string())))
    );
    assert_eq!(
        check_pause_or_stop(false, false, false),
        Err(ObsError::OutputStopFailure(Some("Output is not active.".to_string())))
    );
    assert_eq!(check_pause_or_stop(false, true, false), Ok(()));
    assert_eq!(pause_outcome(false, None), Err(ObsError::OutputPauseFailure(None)));
    assert_eq!(pause_outcome(true, Some("x".to_string())), Ok(()));
}

#[test]
fn complete_pipeline_is_accepted() {
    assert_eq!(validate_output_pipeline(&rtmp_output(), &complete_facts()), Ok(()));
}

#[test]
fn pipeline_faults_are_reported_in_checking_order() {
    let output = rtmp_output();
    let mut facts = complete_facts();
    facts.output_runtime = 2;
    assert_eq!(validate_output_pipeline(&output, &facts), Err(ObsError::RuntimeMismatch));

    let mut facts = complete_facts();
    facts.video_encoder = None;
    facts.service = None;
    assert_eq!(
        validate_output_pipeline(&output, &facts),
        Err(ObsError::OutputPipelineMissingComponent {
            output_id: "rtmp_output".to_string(),
            component: "a video encoder".to_string()
        })
    );

    let mut facts = complete_facts();
    facts.audio_encoders = vec![];
    assert_eq!(
        validate_output_pipeline(&output, &facts),
        Err(ObsError::OutputPipelineMissingComponent {
            output_id: "rtmp_output".to_string(),
            component: "at least one audio encoder".to_string()
        })
    );

    let mut facts = complete_facts();
    facts.audio_encoders.push(AudioPipelineComponent { mixer_idx: 6, runtime: 1, codec: None });
    assert_eq!(
        validate_output_pipeline(&output, &facts),
        Err(ObsError::AudioMixerIndexOutOfBounds { index: 6, max: 5 })
    );

    let mut facts = complete_facts();
    facts.video_encoder = Some(PipelineComponent { runtime: 1, name: Some("hevc".to_string()) });
    assert_eq!(
        validate_output_pipeline(&output, &facts),
        Err(ObsError::OutputPipelineUnsupportedCodec {
            output_id: "rtmp_output".to_string(),
            media: "video".to_string(),
            codec: "hevc".to_string()
        })
    );

    let mut facts = complete_facts();
    facts.service = Some(PipelineComponent { runtime: 1, name: Some("SRT".to_string()) });
    assert_eq!(
        validate_output_pipeline(&output, &facts),
        Err(ObsError::OutputPipelineUnsupportedProtocol {
            output_id: "rtmp_output".to_string(),
            protocol: "SRT".to_string()
        })
    );

    let recording = OutputTypeInfo::new("ffmpeg_muxer".to_string(), None, vec![], vec![], vec![], OBS_OUTPUT_ENCODED | OBS_OUTPUT_VIDEO | OBS_OUTPUT_AUDIO);
    assert_eq!(
        validate_output_pipeline(&recording, &complete_facts()),
        Err(ObsError::OutputPipelineUnexpectedComponent {
            output_id: "ffmpeg_muxer".to_string(),
            component: "a service".to_string()
        })
    );
}

#[test]
fn services_attach_only_to_outputs_that_take_one() {
    let null_output = OutputTypeInfo::new("null_output".to_string(), None, vec![], vec![], vec![], OBS_OUTPUT_ENCODED | OBS_OUTPUT_VIDEO | OBS_OUTPUT_AUDIO);
    assert_eq!(
        check_attach_service(&null_output, false, 1, 1),
        Err(ObsError::OutputPipelineUnexpectedComponent {
            output_id: "null_output".to_string(),
            component: "a service".to_string()
        })
    );
    assert_eq!(check_attach_service(&null_output, true, 1, 1), Err(ObsError::OutputAlreadyActive));
    assert_eq!(check_attach_service(&rtmp_output(), false, 1, 2), Err(ObsError::RuntimeMismatch));
    assert_eq!(check_attach_service(&rtmp_output(), false, 1, 1), Ok(()));
}

#[test]
fn active_outputs_are_not_started_again() {
    assert_eq!(check_start(true), Err(ObsError::OutputAlreadyActive));
    assert_eq!(check_start(false), Ok(()));
}
