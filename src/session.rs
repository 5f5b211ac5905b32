//! The decisions of the evaluation loop, as a state machine: a submitted line
//! gives an action, and the outcome of an evaluation commits or rolls back.
use vstd::prelude::*;
use crate::accumulator::{continued, merged, Accumulator};
use crate::buffer::StatementBuffer;
use crate::command::{classify, command_of, Command};
use crate::program::program_text;
use crate::text::{trim_text, trimmed};
use crate::toolchain::{message_of, Outcome};

verus! {

/// The state of a session, as a value.
pub struct SessionView {
    /// The statements held, the last one tentative while evaluating.
    pub statements: Seq<Seq<char>>,
    /// The statement being assembled from continued lines, if any.
    pub pending: Option<Seq<char>>,
    /// Whether an evaluation is outstanding.
    pub evaluating: bool,
    /// Whether the session has ended.
    pub exited: bool,
    /// The programs that the toolchain has compiled and run successfully.
    pub passed: Set<Seq<char>>,
}

/// What the surrounding loop is asked to do after a line.
pub enum Action {
    /// Delete the artifacts; the statements are already gone.
    Reset,
    /// Clean up and end the session.
    Quit,
    /// Read the next line: the statement goes on.
    Wait,
    /// Write this program, compile and run it, and report the outcome.
    Evaluate(String),
}

/// An action, as a value.
pub enum ActionView {
    Reset,
    Quit,
    Wait,
    Evaluate(Seq<char>),
}

impl View for Action {
    type V = ActionView;

    open spec fn view(&self) -> ActionView {
        match self {
            Action::Reset => ActionView::Reset,
            Action::Quit => ActionView::Quit,
            Action::Wait => ActionView::Wait,
            Action::Evaluate(p) => ActionView::Evaluate(p@),
        }
    }
}

/// The statements would run: there are none, or their program ran.
pub open spec fn settled(stmts: Seq<Seq<char>>, passed: Set<Seq<char>>) -> bool {
    stmts.len() == 0 || passed.contains(program_text(stmts))
}

/// What every reachable state satisfies. Outside an evaluation the
/// statements held would run; during one, all but the tentative last would.
pub open spec fn sound(v: SessionView) -> bool {
    &&& !v.evaluating ==> settled(v.statements, v.passed)
    &&& v.evaluating ==> v.statements.len() > 0 && settled(v.statements.drop_last(), v.passed)
        && v.pending is None && !v.exited
    &&& v.exited ==> v.statements.len() == 0 && v.pending is None
}

/// The state after the trimmed line `t`.
pub open spec fn submitted(v: SessionView, t: Seq<char>) -> SessionView {
    if v.exited {
        v
    } else {
        match command_of(t) {
            Command::Clear => SessionView {
                statements: Seq::empty(),
                pending: None,
                evaluating: false,
                exited: false,
                passed: v.passed,
            },
            Command::Exit => SessionView {
                statements: Seq::empty(),
                pending: None,
                evaluating: false,
                exited: true,
                passed: v.passed,
            },
            Command::Code => if continued(t) {
                SessionView {
                    statements: v.statements,
                    pending: Some(merged(v.pending, t)),
                    evaluating: false,
                    exited: false,
                    passed: v.passed,
                }
            } else {
                SessionView {
                    statements: v.statements.push(merged(v.pending, t)),
                    pending: None,
                    evaluating: true,
                    exited: false,
                    passed: v.passed,
                }
            },
        }
    }
}

/// The action asked for after the trimmed line `t`.
pub open spec fn reply(v: SessionView, t: Seq<char>) -> ActionView {
    if v.exited {
        ActionView::Quit
    } else {
        match command_of(t) {
            Command::Clear => ActionView::Reset,
            Command::Exit => ActionView::Quit,
            Command::Code => if continued(t) {
                ActionView::Wait
            } else {
                ActionView::Evaluate(program_text(v.statements.push(merged(v.pending, t))))
            },
        }
    }
}

/// The state after an evaluation ended with `o`: a run keeps the tentative
/// statement, any failure removes it.
pub open spec fn finished(v: SessionView, o: Outcome) -> SessionView {
    if !v.evaluating {
        v
    } else if o == Outcome::Ran {
        SessionView {
            statements: v.statements,
            pending: v.pending,
            evaluating: false,
            exited: v.exited,
            passed: v.passed.insert(program_text(v.statements)),
        }
    } else {
        SessionView {
            statements: v.statements.drop_last(),
            pending: v.pending,
            evaluating: false,
            exited: v.exited,
            passed: v.passed,
        }
    }
}

/// An interactive session: the statements, the statement in progress, and
/// whether an evaluation is outstanding.
pub struct Session {
    stmts: StatementBuffer,
    acc: Accumulator,
    evaluating: bool,
    exited: bool,
    passed: Ghost<Set<Seq<char>>>,
}

impl View for Session {
    type V = SessionView;

    closed spec fn view(&self) -> SessionView {
        SessionView {
            statements: self.stmts@,
            pending: self.acc@,
            evaluating: self.evaluating,
            exited: self.exited,
            passed: self.passed@,
        }
    }
}

impl Session {
    /// A session with no statements.
    pub fn new() -> (r: Session)
        ensures
            r@.statements == Seq::<Seq<char>>::empty(),
            r@.pending is None,
            !r@.evaluating,
            !r@.exited,
            r@.passed == Set::<Seq<char>>::empty(),
            sound(r@),
    {
        Session {
            stmts: StatementBuffer::new(),
            acc: Accumulator::new(),
            evaluating: false,
            exited: false,
            passed: Ghost(Set::empty()),
        }
    }

    /// Whether an evaluation is outstanding.
    pub fn is_evaluating(&self) -> (r: bool)
        ensures
            r == self@.evaluating,
    {
        self.evaluating
    }

    /// Whether the session has ended.
    pub fn is_exited(&self) -> (r: bool)
        ensures
            r == self@.exited,
    {
        self.exited
    }

    /// The number of statements held.
    pub fn len(&self) -> (r: usize)
        ensures
            r == self@.statements.len(),
    {
        self.stmts.len()
    }

    /// A copy of the statements held, in order.
    pub fn statements(&self) -> (r: Vec<String>)
        ensures
            crate::program::texts(r@) == self@.statements,
    {
        self.stmts.snapshot()
    }

    /// The program generated from the statements held.
    pub fn program(&self) -> (r: String)
        ensures
            r@ == program_text(self@.statements),
    {
        self.stmts.program()
    }

    /// Takes one raw input line; it is trimmed before it is read.
    pub fn submit(&mut self, raw: &str) -> (r: Action)
        requires
            sound(old(self)@),
            !old(self)@.evaluating,
        ensures
            final(self)@ == submitted(old(self)@, trimmed(raw@)),
            r@ == reply(old(self)@, trimmed(raw@)),
            sound(final(self)@),
    {
        let t = trim_text(raw);
        self.submit_trimmed(t)
    }

    /// Takes one trimmed input line.
    pub fn submit_trimmed(&mut self, t: &str) -> (r: Action)
        requires
            sound(old(self)@),
            !old(self)@.evaluating,
        ensures
            final(self)@ == submitted(old(self)@, t@),
            r@ == reply(old(self)@, t@),
            sound(final(self)@),
    {
        if self.exited {
            return Action::Quit;
        }
        match classify(t) {
            Command::Clear => {
                self.stmts.clear();
                self.acc.discard();
                Action::Reset
            },
            Command::Exit => {
                self.stmts.clear();
                self.acc.discard();
                self.exited = true;
                Action::Quit
            },
            Command::Code => {
                match self.acc.accept(t) {
                    None => Action::Wait,
                    Some(stmt) => {
                        self.stmts.append(stmt);
                        self.evaluating = true;
                        proof {
                            assert(self@.statements.drop_last() =~= old(self)@.statements);
                        }
                        Action::Evaluate(self.stmts.program())
                    },
                }
            },
        }
    }

    /// Reports how the outstanding evaluation ended and gives the line to
    /// show, if any. Without an outstanding evaluation nothing changes.
    pub fn finish(&mut self, o: Outcome) -> (r: Option<String>)
        requires
            sound(old(self)@),
        ensures
            final(self)@ == finished(old(self)@, o),
            r is None <==> message_of(o) is None,
            r is Some ==> r->0@ == message_of(o)->0,
            sound(final(self)@),
    {
        if self.evaluating {
            if o == Outcome::Ran {
                self.passed = Ghost(self.passed@.insert(program_text(self.stmts@)));
            } else {
                self.stmts.pop_last();
            }
            self.evaluating = false;
        }
        o.message()
    }
}

} // verus!
