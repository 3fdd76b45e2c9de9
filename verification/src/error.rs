//! The error type shared by every operation of the library.
use vstd::prelude::*;

verus! {

/// Result of resetting the libobs video pipeline.
#[derive(Clone, Copy, Debug, PartialEq, Eq, Structural)]
pub enum ObsResetVideoStatus {
    Success,
    NotSupported,
    InvalidParameter,
    CurrentlyActive,
    ModuleNotFound,
    Failure,
}

impl ObsResetVideoStatus {
    /// The status for a raw libobs code (`OBS_VIDEO_*`), if the code is one libobs defines.
    pub fn from_i32(raw: i32) -> (r: Option<ObsResetVideoStatus>)
        ensures
            raw == 0 ==> r == Some(ObsResetVideoStatus::Success),
            raw == -1 ==> r == Some(ObsResetVideoStatus::NotSupported),
            raw == -2 ==> r == Some(ObsResetVideoStatus::InvalidParameter),
            raw == -3 ==> r == Some(ObsResetVideoStatus::CurrentlyActive),
            raw == -4 ==> r == Some(ObsResetVideoStatus::ModuleNotFound),
            raw == -5 ==> r == Some(ObsResetVideoStatus::Failure),
            (raw > 0 || raw < -5) ==> r is None,
    {
        if raw == 0 {
            Some(ObsResetVideoStatus::Success)
        } else if raw == -1 {
            Some(ObsResetVideoStatus::NotSupported)
        } else if raw == -2 {
            Some(ObsResetVideoStatus::InvalidParameter)
        } else if raw == -3 {
            Some(ObsResetVideoStatus::CurrentlyActive)
        } else if raw == -4 {
            Some(ObsResetVideoStatus::ModuleNotFound)
        } else if raw == -5 {
            Some(ObsResetVideoStatus::Failure)
        } else {
            None
        }
    }
}

/// The status a raw reset code stands for: a code libobs does not define counts as a failure.
pub open spec fn reset_status_of(raw: i32) -> ObsResetVideoStatus {
    if raw == 0 {
        ObsResetVideoStatus::Success
    } else if raw == -1 {
        ObsResetVideoStatus::NotSupported
    } else if raw == -2 {
        ObsResetVideoStatus::InvalidParameter
    } else if raw == -3 {
        ObsResetVideoStatus::CurrentlyActive
    } else if raw == -4 {
        ObsResetVideoStatus::ModuleNotFound
    } else {
        ObsResetVideoStatus::Failure
    }
}

/// Interprets the code that `obs_reset_video` returned.
pub fn reset_video_outcome(raw: i32) -> (r: Result<(), ObsError>)
    ensures
        reset_status_of(raw) == ObsResetVideoStatus::Success ==> r is Ok,
        reset_status_of(raw) != ObsResetVideoStatus::Success ==> r == Err::<(), ObsError>(
            ObsError::ResetVideoFailure(reset_status_of(raw)),
        ),
{
    let status = match ObsResetVideoStatus::from_i32(raw) {
        Some(s) => s,
        None => ObsResetVideoStatus::Failure,
    };
    match status {
        ObsResetVideoStatus::Success => Ok(()),
        _ => Err(ObsError::ResetVideoFailure(status)),
    }
}

/// The checks made before the video pipeline is reset: the graphics module cannot change
/// without restarting OBS, and no output may be active.
pub fn check_video_reset(graphics_module_changed: bool, any_output_active: bool) -> (r: Result<(), ObsError>)
    ensures
        graphics_module_changed ==> r == Err::<(), ObsError>(ObsError::ResetVideoFailureGraphicsModule),
        !graphics_module_changed && any_output_active ==> r == Err::<(), ObsError>(
            ObsError::ResetVideoFailureOutputActive,
        ),
        r is Ok <==> !graphics_module_changed && !any_output_active,
{
    if graphics_module_changed {
        return Err(ObsError::ResetVideoFailureGraphicsModule);
    }
    if any_output_active {
        return Err(ObsError::ResetVideoFailureOutputActive);
    }
    Ok(())
}

/// Everything that can go wrong while talking to libobs.
#[derive(Clone, Debug, PartialEq, Eq)]
pub enum ObsError {
    /// The libobs library could not be found or has no version.
    InvalidDll,
    /// A native call reported a failure without detail.
    Failure,
    /// A mutex guarding process-global state was poisoned.
    MutexFailure,
    /// The OBS runtime thread could not be started, or a runtime is already running.
    ThreadFailure,
    /// The video pipeline could not be reset.
    ResetVideoFailure(ObsResetVideoStatus),
    /// The graphics module cannot change without restarting OBS.
    ResetVideoFailureGraphicsModule,
    /// The video pipeline cannot be reset while an output is active.
    ResetVideoFailureOutputActive,
    /// libobs returned a null pointer.
    NullPointer(Option<String>),
    /// A lock could not be taken.
    LockError(String),
    /// No output with the requested name is registered.
    OutputNotFound,
    /// A display could not be created.
    DisplayCreationError(String),
    /// A descriptor of one kind was used where another kind is required.
    CapabilityKindMismatch { id: String, expected: String, actual: String },
    /// The requested operation is not valid in the current state.
    InvalidOperation(String),
    /// An audio mixer index beyond the mixers that libobs provides.
    AudioMixerIndexOutOfBounds { index: usize, max: usize },
    /// An output pipeline lacks a component its output type requires.
    OutputPipelineMissingComponent { output_id: String, component: String },
    /// An output pipeline holds a component its output type does not take.
    OutputPipelineUnexpectedComponent { output_id: String, component: String },
    /// An encoder's codec is not one the output type accepts.
    OutputPipelineUnsupportedCodec { output_id: String, media: String, codec: String },
    /// A service's protocol is not one the output type accepts.
    OutputPipelineUnsupportedProtocol { output_id: String, protocol: String },
    /// Two objects that belong to different OBS runtimes were combined.
    RuntimeMismatch,
    /// The output is active and cannot be reconfigured.
    OutputAlreadyActive,
    /// The output failed to start.
    OutputStartFailure(Option<String>),
    /// The output failed to pause or unpause.
    OutputPauseFailure(Option<String>),
    /// The output failed to stop.
    OutputStopFailure(Option<String>),
    /// A signal channel closed before it delivered.
    NoSenderError,
    /// The replay buffer could not be saved.
    OutputSaveBufferFailure(String),
    /// The encoder is active and cannot be reconfigured.
    EncoderActive,
    /// No encoder of the requested kind is available.
    NoAvailableEncoders,
    /// OBS data could not be read from or written as JSON.
    JsonParseError,
    /// A native string was not valid UTF-8.
    StringConversionError,
    /// A native number is not a value of the expected enumeration.
    EnumConversionError(String),
    /// A property was read as the wrong type.
    InvocationError(String),
    /// A file could not be written.
    IoError(String),
    /// The runtime's bounded work queue is full.
    RuntimeQueueFull { capacity: usize },
    /// The runtime's work queue is closed.
    RuntimeChannelError(String),
    /// A local runtime was used from a thread other than its own.
    RuntimeOutsideThread,
    /// A blocking call was made from the runtime's own thread.
    RuntimeReentrantBlocking,
}

} // verus!
