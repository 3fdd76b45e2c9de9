//! What happens when libobs reports a fatal error: a crash handler receives the message.
//! The default handler prints it to the standard error stream.
use std::io::Write;
use vstd::prelude::*;

verus! {

/// Handles a fatal libobs error. `handle_crash` runs while libobs is crashing, so it should
/// do as little work as it can.
pub trait ObsCrashHandler: Send {
    fn handle_crash(&self, message: String);
}

/// The line the console crash handler prints for a crash message.
pub open spec fn crash_line_text(message: Seq<char>) -> Seq<char> {
    "OBS crashed: "@ + message
}

/// Formats the line the console crash handler prints for a crash message.
pub fn crash_line(message: &str) -> (r: String)
    ensures
        r@ == crash_line_text(message@),
{
    let mut line = String::from_str("OBS crashed: ");
    line.append(message);
    line
}

/// Writes `line` and a line break to the standard error stream, through
/// `std::io::Write::write_fmt` on `std::io::stderr()`. A failed write is ignored; nothing is
/// stated of the stream.
#[verifier::external_body]
fn write_stderr_line(line: &str) {
    let _ = writeln!(std::io::stderr(), "{}", line);
}

/// The default crash handler: prints the crash message to the standard error stream.
pub struct ConsoleCrashHandler {
    _private: (),
}

impl ConsoleCrashHandler {
    /// The handler that `new` makes; the handler holds no state.
    pub closed spec fn spec_new() -> Self {
        ConsoleCrashHandler { _private: () }
    }

    pub fn new() -> (r: Self)
        ensures
            r == Self::spec_new(),
    {
        ConsoleCrashHandler { _private: () }
    }
}

impl Default for ConsoleCrashHandler {
    fn default() -> (r: Self)
        ensures
            r == Self::spec_new(),
    {
        ConsoleCrashHandler::new()
    }
}

impl ObsCrashHandler for ConsoleCrashHandler {
    fn handle_crash(&self, message: String) {
        let line = crash_line(message.as_str());
        write_stderr_line(line.as_str());
    }
}

} // verus!
