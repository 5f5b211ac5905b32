//! The control commands of a session.
use vstd::prelude::*;
use crate::text::same_text;

verus! {

/// What a trimmed input line asks for.
#[derive(PartialEq, Eq, Structural, Clone, Copy, Debug)]
pub enum Command {
    /// Reset the statements and delete the artifacts.
    Clear,
    /// Clean up and end the session.
    Exit,
    /// Anything else: code.
    Code,
}

/// The command that a trimmed line stands for.
pub open spec fn command_of(t: Seq<char>) -> Command {
    if t == "clear"@ || t == "c"@ {
        Command::Clear
    } else if t == "exit"@ || t == "e"@ {
        Command::Exit
    } else {
        Command::Code
    }
}

/// Classifies a trimmed line; the match is exact and case-sensitive.
pub fn classify(t: &str) -> (r: Command)
    ensures
        r == command_of(t@),
{
    if same_text(t, "clear") || same_text(t, "c") {
        Command::Clear
    } else if same_text(t, "exit") || same_text(t, "e") {
        Command::Exit
    } else {
        Command::Code
    }
}

} // verus!
