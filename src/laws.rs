//! Properties that relate several operations of a session.
use vstd::prelude::*;
use crate::accumulator::{continued, merged};
use crate::command::{command_of, Command};
use crate::program::program_text;
use crate::session::{finished, reply, settled, sound, submitted, ActionView, SessionView};
use crate::toolchain::Outcome;

verus! {

/// Every reachable state is sound: a sound idle state stays sound after any
/// line, and after any outcome of the evaluation that the line starts; so
/// whenever no evaluation is outstanding, the statements held would run.
pub proof fn statements_stay_runnable(v: SessionView, t: Seq<char>, o: Outcome)
    requires
        sound(v),
        !v.evaluating,
    ensures
        settled(v.statements, v.passed),
        sound(submitted(v, t)),
        sound(finished(submitted(v, t), o)),
        !finished(submitted(v, t), o).evaluating,
        settled(finished(submitted(v, t), o).statements, finished(submitted(v, t), o).passed),
{
    let w = submitted(v, t);
    if w.evaluating {
        assert(w.statements.drop_last() =~= v.statements);
    }
}

/// A statement whose evaluation fails leaves the statements exactly as they
/// were before it was submitted.
pub proof fn failure_rolls_back(v: SessionView, t: Seq<char>, o: Outcome)
    requires
        sound(v),
        !v.evaluating,
        !v.exited,
        command_of(t) == Command::Code,
        !continued(t),
        o != Outcome::Ran,
    ensures
        submitted(v, t).statements == v.statements.push(merged(v.pending, t)),
        finished(submitted(v, t), o).statements == v.statements,
        finished(submitted(v, t), o).pending is None,
{
    assert(v.statements.push(merged(v.pending, t)).drop_last() =~= v.statements);
}

/// A continued line followed by a plain one makes a single statement: the
/// terminator, the first line without its continuation mark, then the second.
pub proof fn continuation_joins_lines(a: Seq<char>, b: Seq<char>)
    requires
        continued(a),
        !continued(b),
    ensures
        merged(Some(merged(None, a)), b) == seq![';'] + a.drop_last() + b,
{
}

/// Generating a program depends on the statements alone: equal statements
/// give the same text.
pub proof fn generation_is_deterministic(a: Seq<Seq<char>>, b: Seq<Seq<char>>)
    requires
        a == b,
    ensures
        program_text(a) == program_text(b),
{
}

/// A line that is exactly `clear` or `exit` is a command and never code, even
/// while a statement is in progress: the statement in progress and the
/// statements held are dropped, and no evaluation starts.
pub proof fn commands_are_not_code(v: SessionView, t: Seq<char>)
    requires
        sound(v),
        !v.evaluating,
        t == "clear"@ || t == "exit"@,
    ensures
        command_of(t) != Command::Code,
        submitted(v, t).pending is None,
        submitted(v, t).statements.len() == 0,
        !submitted(v, t).evaluating,
        t == "clear"@ && !v.exited ==> reply(v, t) == ActionView::Reset,
        t == "exit"@ ==> reply(v, t) == ActionView::Quit && submitted(v, t).exited,
{
    reveal_strlit("clear");
    reveal_strlit("exit");
    reveal_strlit("c");
    reveal_strlit("e");
}

} // verus!
