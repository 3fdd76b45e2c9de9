use libobs_wrapper::error::{reset_video_outcome, ObsError, ObsResetVideoStatus};
use libobs_wrapper::logging::{log_line, ObsLogLevel};
use libobs_wrapper::runtime_report::{
    blocking_call_outcome, leak_report, queued_outcome, startup_banner, version_mismatch_warning, QueueSend,
    RUNTIME_QUEUE_CAPACITY,
};
use libobs_wrapper::runtime_slot::{
    activate_runtime_slot, begin_runtime_shutdown, cancel_runtime_start, release_runtime_slot,
    reserve_runtime_slot, ObsRuntimeState, ReserveStep,
};
use libobs_wrapper::version::{parse_u64_decimal, version_is_compatible};

#[test]
fn runtime_slot_admits_one_runtime_through_its_lifecycle() {
    let mut state: ObsRuntimeState<u32> = ObsRuntimeState::Idle;
    assert_eq!(reserve_runtime_slot(&mut state), Ok(ReserveStep::Reserved));
    assert_eq!(state, ObsRuntimeState::Starting);
    assert_eq!(reserve_runtime_slot(&mut state), Err(ObsError::ThreadFailure));
    assert_eq!(activate_runtime_slot(&mut state, 7), Ok(()));
    assert_eq!(state, ObsRuntimeState::Active(7));
    assert_eq!(reserve_runtime_slot(&mut state), Err(ObsError::ThreadFailure));
    begin_runtime_shutdown(&mut state, false);
    assert_eq!(state, ObsRuntimeState::ShuttingDown);
    assert_eq!(reserve_runtime_slot(&mut state), Ok(ReserveStep::WaitForShutdown));
    assert_eq!(release_runtime_slot(&mut state, false), Ok(()));
    assert_eq!(state, ObsRuntimeState::Idle);
    assert_eq!(reserve_runtime_slot(&mut state), Ok(ReserveStep::Reserved));
}

#[test]
fn cancelled_start_frees_the_slot() {
    let mut state: ObsRuntimeState<u32> = ObsRuntimeState::Idle;
    assert!(!cancel_runtime_start(&mut state));
    assert_eq!(reserve_runtime_slot(&mut state), Ok(ReserveStep::Reserved));
    assert!(cancel_runtime_start(&mut state));
    assert_eq!(state, ObsRuntimeState::Idle);
    assert_eq!(activate_runtime_slot(&mut state, 1), Err(ObsError::ThreadFailure));
    assert_eq!(state, ObsRuntimeState::Idle);
}

#[test]
fn poisoned_shutdown_marks_the_slot() {
    let mut state: ObsRuntimeState<u32> = ObsRuntimeState::Idle;
    begin_runtime_shutdown(&mut state, false);
    assert_eq!(state, ObsRuntimeState::Idle);
    begin_runtime_shutdown(&mut state, true);
    assert_eq!(state, ObsRuntimeState::ShuttingDown);
}

#[test]
fn reset_codes_map_to_statuses() {
    assert_eq!(reset_video_outcome(0), Ok(()));
    assert_eq!(reset_video_outcome(-4), Err(ObsError::ResetVideoFailure(ObsResetVideoStatus::ModuleNotFound)));
    assert_eq!(reset_video_outcome(-99), Err(ObsError::ResetVideoFailure(ObsResetVideoStatus::Failure)));
    assert_eq!(ObsResetVideoStatus::from_i32(3), None);
    assert_eq!(ObsResetVideoStatus::from_i32(-1), Some(ObsResetVideoStatus::NotSupported));
}

#[test]
fn queue_outcomes_map_to_errors() {
    assert_eq!(queued_outcome(QueueSend::Sent), Ok(()));
    assert_eq!(queued_outcome(QueueSend::Full), Err(ObsError::RuntimeQueueFull { capacity: 128 }));
    assert_eq!(RUNTIME_QUEUE_CAPACITY, 128);
    assert_eq!(
        queued_outcome(QueueSend::Disconnected),
        Err(ObsError::RuntimeChannelError("OBS actor is no longer running".to_string()))
    );
}

#[test]
fn startup_and_shutdown_messages() {
    assert_eq!(startup_banner("30.2.3"), "OBS 30.2.3");
    assert_eq!(
        version_mismatch_warning("29.1.0", 30),
        "OBS major version mismatch: installed version is 29.1.0, but expected major version 30. Expect crashes or bugs!!"
    );
    let (level, message) = leak_report(1);
    assert_eq!(level, ObsLogLevel::Info);
    assert_eq!(message, "Number of memory leaks: 1 (this is an issue in the OBS source code that cannot be fixed)");
    let (level, message) = leak_report(12);
    assert_eq!(level, ObsLogLevel::Error);
    assert_eq!(message, "Number of memory leaks: 12");
}

#[test]
fn log_levels_convert_and_format() {
    assert_eq!(ObsLogLevel::from_i32(200), Some(ObsLogLevel::Warning));
    assert_eq!(ObsLogLevel::from_i32(250), None);
    assert_eq!(ObsLogLevel::Debug.to_i32(), 400);
    assert_eq!(log_line(ObsLogLevel::Error, "boom"), "[Error] boom");
}

#[test]
fn version_strings_are_checked_by_major_number() {
    assert!(version_is_compatible(Some("30.2.3"), 30));
    assert!(version_is_compatible(Some("+30.0.0"), 30));
    assert!(!version_is_compatible(Some("31.0.0"), 30));
    assert!(!version_is_compatible(Some("30.2"), 30));
    assert!(!version_is_compatible(Some("30.2.3.4"), 30));
    assert!(!version_is_compatible(Some("x.2.3"), 30));
    assert!(!version_is_compatible(Some(".2.3"), 30));
    assert!(!version_is_compatible(None, 30));
}

#[test]
fn decimal_parsing_matches_u64_from_str() {
    for text in ["0", "007", "+12", "18446744073709551615", "18446744073709551616", "", "+", "-1", "1a", " 1"] {
        assert_eq!(parse_u64_decimal(text), text.parse::<u64>().ok(), "{text}");
    }
}

#[test]
fn blocking_calls_report_a_missing_runtime() {
    assert_eq!(blocking_call_outcome(true, Some(5)), Ok(5));
    assert_eq!(
        blocking_call_outcome::<u8>(false, None),
        Err(ObsError::RuntimeChannelError("OBS actor is no longer running".to_string()))
    );
    assert_eq!(
        blocking_call_outcome::<u8>(true, None),
        Err(ObsError::RuntimeChannelError("OBS actor dropped a command result".to_string()))
    );
}

#[test]
fn poisoned_release_leaves_the_slot_as_it_was() {
    let mut state: ObsRuntimeState<u32> = ObsRuntimeState::ShuttingDown;
    assert_eq!(release_runtime_slot(&mut state, true), Err(ObsError::MutexFailure));
    assert_eq!(state, ObsRuntimeState::ShuttingDown);
    assert_eq!(release_runtime_slot(&mut state, false), Ok(()));
    assert_eq!(state, ObsRuntimeState::Idle);
}
