//! What the OBS runtime answers and reports around its work queue and its lifecycle: the
//! error for work that cannot be queued, and the log messages written at startup and at
//! shutdown.
use vstd::prelude::*;
use crate::error::ObsError;
use crate::logging::ObsLogLevel;
use crate::text::{decimal, push_decimal};

verus! {

/// How many commands the runtime's work queue holds before callers are refused.
pub const RUNTIME_QUEUE_CAPACITY: usize = 128;

/// How handing a command to the runtime's work queue went.
#[derive(Clone, Copy, Debug, PartialEq, Eq, Structural)]
pub enum QueueSend {
    Sent,
    Full,
    Disconnected,
}

/// What queueing work without waiting answers: success once the work is queued, the full
/// queue's error with its capacity, or the error for a runtime that is no longer running.
pub fn queued_outcome(sent: QueueSend) -> (r: Result<(), ObsError>)
    ensures
        sent == QueueSend::Sent ==> r is Ok,
        sent == QueueSend::Full ==> r == Err::<(), ObsError>(
            ObsError::RuntimeQueueFull { capacity: RUNTIME_QUEUE_CAPACITY },
        ),
        sent == QueueSend::Disconnected ==> (r matches Err(ObsError::RuntimeChannelError(m)) && m@
            == "OBS actor is no longer running"@),
{
    match sent {
        QueueSend::Sent => Ok(()),
        QueueSend::Full => Err(ObsError::RuntimeQueueFull { capacity: RUNTIME_QUEUE_CAPACITY }),
        QueueSend::Disconnected => Err(
            ObsError::RuntimeChannelError(String::from_str("OBS actor is no longer running")),
        ),
    }
}

/// The message logged at startup with the libobs version.
pub fn startup_banner(version: &str) -> (r: String)
    ensures
        r@ == "OBS "@ + version@,
{
    let mut m = String::from_str("OBS ");
    m.append(version);
    m
}

/// The warning logged at startup when the libobs version's major number is not the one
/// this crate was built for.
pub open spec fn mismatch_warning_text(version: Seq<char>, expected_major: u64) -> Seq<char> {
    "OBS major version mismatch: installed version is "@ + version
        + ", but expected major version "@ + decimal(expected_major as nat)
        + ". Expect crashes or bugs!!"@
}

/// Formats the version mismatch warning.
pub fn version_mismatch_warning(version: &str, expected_major: u64) -> (r: String)
    ensures
        r@ == mismatch_warning_text(version@, expected_major),
{
    let mut m = String::from_str("OBS major version mismatch: installed version is ");
    m.append(version);
    m.append(", but expected major version ");
    push_decimal(&mut m, expected_major);
    m.append(". Expect crashes or bugs!!");
    m
}

/// The note added to the leak report when only the one allocation that libobs itself
/// never frees is left.
pub open spec fn known_leak_note() -> Seq<char> {
    " (this is an issue in the OBS source code that cannot be fixed)"@
}

/// The level and message of the leak report logged at shutdown: more than one allocation
/// left is an error; otherwise the report is informational and notes the known leak.
pub fn leak_report(allocs: u64) -> (r: (ObsLogLevel, String))
    ensures
        allocs > 1 ==> r.0 == ObsLogLevel::Error && r.1@ == "Number of memory leaks: "@ + decimal(
            allocs as nat,
        ),
        allocs <= 1 ==> r.0 == ObsLogLevel::Info && r.1@ == "Number of memory leaks: "@ + decimal(
            allocs as nat,
        ) + known_leak_note(),
{
    let mut m = String::from_str("Number of memory leaks: ");
    push_decimal(&mut m, allocs);
    if allocs > 1 {
        (ObsLogLevel::Error, m)
    } else {
        m.append(" (this is an issue in the OBS source code that cannot be fixed)");
        (ObsLogLevel::Info, m)
    }
}


/// The line of exclamation marks that frames the version mismatch warning.
pub open spec fn warning_frame() -> Seq<char> {
    "!!!!!!!!!!!!!!!!!!!!!!!!!!!!!!!!!"@
}

/// The line that ends the startup banner.
pub open spec fn banner_rule() -> Seq<char> {
    "---------------------------------"@
}

/// The messages logged once libobs has started: the version, then, when the version is
/// not compatible, the mismatch warning between two frame lines, then a rule.
pub fn startup_messages(version: &str, compatible: bool, expected_major: u64) -> (r: Vec<(ObsLogLevel, String)>)
    ensures
        compatible ==> r@.len() == 2,
        !compatible ==> r@.len() == 5,
        r@[0].0 == ObsLogLevel::Info && r@[0].1@ == "OBS "@ + version@,
        !compatible ==> r@[1].0 == ObsLogLevel::Warning && r@[1].1@ == warning_frame()
            && r@[2].0 == ObsLogLevel::Warning && r@[2].1@ == mismatch_warning_text(version@, expected_major)
            && r@[3].0 == ObsLogLevel::Warning && r@[3].1@ == warning_frame(),
        r@.last().0 == ObsLogLevel::Info && r@.last().1@ == banner_rule(),
{
    let mut messages: Vec<(ObsLogLevel, String)> = Vec::new();
    messages.push((ObsLogLevel::Info, startup_banner(version)));
    if !compatible {
        messages.push((ObsLogLevel::Warning, String::from_str("!!!!!!!!!!!!!!!!!!!!!!!!!!!!!!!!!")));
        messages.push((ObsLogLevel::Warning, version_mismatch_warning(version, expected_major)));
        messages.push((ObsLogLevel::Warning, String::from_str("!!!!!!!!!!!!!!!!!!!!!!!!!!!!!!!!!")));
    }
    messages.push((ObsLogLevel::Info, String::from_str("---------------------------------")));
    messages
}

/// The message logged once libobs has loaded its modules.
pub fn startup_complete_message() -> (r: String)
    ensures
        r@ == "==== Startup complete ==============================================="@,
{
    String::from_str("==== Startup complete ===============================================")
}

/// The messages logged when the runtime shuts down: a notice, then the leak report.
pub fn shutdown_messages(allocs: u64) -> (r: Vec<(ObsLogLevel, String)>)
    ensures
        r@.len() == 2,
        r@[0].0 == ObsLogLevel::Info && r@[0].1@ == "OBS context shutdown."@,
        allocs > 1 ==> r@[1].0 == ObsLogLevel::Error && r@[1].1@ == "Number of memory leaks: "@
            + decimal(allocs as nat),
        allocs <= 1 ==> r@[1].0 == ObsLogLevel::Info && r@[1].1@ == "Number of memory leaks: "@
            + decimal(allocs as nat) + known_leak_note(),
{
    let mut messages: Vec<(ObsLogLevel, String)> = Vec::new();
    messages.push((ObsLogLevel::Info, String::from_str("OBS context shutdown.")));
    messages.push(leak_report(allocs));
    messages
}


/// `e` is the runtime channel error with message `m`.
pub open spec fn is_channel_error(e: ObsError, m: Seq<char>) -> bool {
    e matches ObsError::RuntimeChannelError(t) && t@ == m
}

/// What running work on the runtime thread and waiting for its result answers: the
/// channel error when the work could not be queued because the runtime is gone, the channel
/// error when the runtime dropped the work without replying, and the reply otherwise.
pub fn blocking_call_outcome<T>(queued: bool, reply: Option<T>) -> (r: Result<T, ObsError>)
    ensures
        !queued ==> r is Err && is_channel_error(r->Err_0, "OBS actor is no longer running"@),
        queued && reply is None ==> r is Err && is_channel_error(
            r->Err_0,
            "OBS actor dropped a command result"@,
        ),
        queued && reply is Some ==> r is Ok && r->Ok_0 == reply->0,
{
    if !queued {
        return Err(ObsError::RuntimeChannelError(String::from_str("OBS actor is no longer running")));
    }
    match reply {
        Some(v) => Ok(v),
        None => Err(ObsError::RuntimeChannelError(String::from_str("OBS actor dropped a command result"))),
    }
}

} // verus!
