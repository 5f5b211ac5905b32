//! What the outside toolchain reports back, and what the session makes of it.
use vstd::prelude::*;
use crate::text::{crlf, crlf_of, trim_text, trimmed};

verus! {

/// Where the generated program is written.
pub const SOURCE_PATH: &'static str = "file.rs";

/// Where the compiler leaves the executable.
pub const BINARY_PATH: &'static str = "./file";

/// Where session events are appended.
pub const LOG_PATH: &'static str = "logs.txt";

/// The compiler that is run on the source file.
pub const COMPILER: &'static str = "rustc";

/// How one evaluation cycle ended.
#[derive(PartialEq, Eq, Structural, Clone, Copy, Debug)]
pub enum Outcome {
    /// The program compiled cleanly and ran to a successful exit.
    Ran,
    /// The source file could not be written.
    WriteFailed,
    /// The compiler could not be started.
    CompilerUnavailable,
    /// The compiler's diagnostic stream could not be taken.
    DiagnosticsUnavailable,
    /// The compiler's diagnostic stream could not be read to its end.
    DiagnosticsUnreadable,
    /// The compiler emitted diagnostics.
    CompileFailed,
    /// The executable could not be started.
    RunUnavailable,
    /// Waiting for the executable to end failed.
    RunLost,
    /// The executable ended with a failure status.
    RunFailed,
}

/// The line shown to the user for an outcome; a successful run shows none.
pub open spec fn message_of(o: Outcome) -> Option<Seq<char>> {
    match o {
        Outcome::Ran => None,
        Outcome::WriteFailed => Some("Access denied."@),
        Outcome::CompilerUnavailable => Some("Failed to compile."@),
        Outcome::DiagnosticsUnavailable => Some("Failed to fetch stderr."@),
        Outcome::DiagnosticsUnreadable => Some("Failed to fetch errors."@),
        Outcome::CompileFailed => Some("Compilation failed."@),
        Outcome::RunUnavailable => Some("Failed to execute."@),
        Outcome::RunLost => Some("Failed to end execution."@),
        Outcome::RunFailed => Some("Execution failed"@),
    }
}

impl Outcome {
    /// The line shown to the user for this outcome, if any.
    pub fn message(&self) -> (r: Option<String>)
        ensures
            r is None <==> message_of(*self) is None,
            r is Some ==> r->0@ == message_of(*self)->0,
    {
        match self {
            Outcome::Ran => None,
            Outcome::WriteFailed => Some(String::from_str("Access denied.")),
            Outcome::CompilerUnavailable => Some(String::from_str("Failed to compile.")),
            Outcome::DiagnosticsUnavailable => Some(String::from_str("Failed to fetch stderr.")),
            Outcome::DiagnosticsUnreadable => Some(String::from_str("Failed to fetch errors.")),
            Outcome::CompileFailed => Some(String::from_str("Compilation failed.")),
            Outcome::RunUnavailable => Some(String::from_str("Failed to execute.")),
            Outcome::RunLost => Some(String::from_str("Failed to end execution.")),
            Outcome::RunFailed => Some(String::from_str("Execution failed")),
        }
    }
}

/// The compiler's diagnostics as shown on the terminal: line feeds become
/// carriage return and line feed, and surrounding whitespace is dropped.
pub open spec fn shown_diagnostics(errors: Seq<char>) -> Seq<char> {
    trimmed(crlf_of(errors))
}

/// Judges the compiler's diagnostic stream. A compile is clean exactly when
/// nothing but whitespace was emitted; otherwise the text to show is given.
pub fn diagnostics_verdict(errors: &str) -> (r: Option<String>)
    ensures
        r is None <==> shown_diagnostics(errors@).len() == 0,
        r is Some ==> r->0@ == shown_diagnostics(errors@),
{
    let fixed = crlf(errors);
    let shown = trim_text(fixed.as_str());
    if shown.is_empty() {
        None
    } else {
        Some(String::from_str(shown))
    }
}

} // verus!
