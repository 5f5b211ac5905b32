//! Merging of continued input lines into one logical statement.
use vstd::prelude::*;

verus! {

/// The character that, at the end of a line, marks it as continued.
pub const CONTINUATION_MARK: char = '\\';

/// Whether a line ends with the continuation mark.
pub open spec fn continued(line: Seq<char>) -> bool {
    line.len() > 0 && line.last() == CONTINUATION_MARK
}

/// The statement text gathered so far once `line` is added to `pending`:
/// a fresh statement starts with a terminator, and the continuation mark
/// of a continued line is left out.
pub open spec fn merged(pending: Option<Seq<char>>, line: Seq<char>) -> Seq<char> {
    let start = match pending {
        Some(p) => p,
        None => seq![';'],
    };
    if continued(line) {
        start + line.drop_last()
    } else {
        start + line
    }
}

/// Assembles statements from lines, some of which continue on the next.
pub struct Accumulator {
    pending: Option<String>,
}

impl View for Accumulator {
    type V = Option<Seq<char>>;

    closed spec fn view(&self) -> Option<Seq<char>> {
        match self.pending {
            Some(p) => Some(p@),
            None => None,
        }
    }
}

impl Accumulator {
    /// An accumulator with no statement in progress.
    pub fn new() -> (r: Accumulator)
        ensures
            r@ is None,
    {
        Accumulator { pending: None }
    }

    /// Whether a statement is in progress.
    pub fn is_pending(&self) -> (r: bool)
        ensures
            r == (self@ is Some),
    {
        self.pending.is_some()
    }

    /// Drops the statement in progress, if any.
    pub fn discard(&mut self)
        ensures
            final(self)@ is None,
    {
        self.pending = None;
    }

    /// Adds one line. A continued line keeps the statement in progress and
    /// gives nothing; any other line completes the statement and gives it.
    pub fn accept(&mut self, line: &str) -> (r: Option<String>)
        ensures
            continued(line@) ==> r is None && final(self)@ == Some(merged(old(self)@, line@)),
            !continued(line@) ==> r is Some && r->0@ == merged(old(self)@, line@)
                && final(self)@ is None,
    {
        let mut text = match self.pending.take() {
            Some(p) => p,
            None => String::from_str(";"),
        };
        proof {
            reveal_strlit(";");
        }
        let n = line.unicode_len();
        if n > 0 && line.get_char(n - 1) == CONTINUATION_MARK {
            text.append(line.substring_char(0, n - 1));
            proof {
                assert(line@.subrange(0, n - 1) =~= line@.drop_last());
            }
            self.pending = Some(text);
            None
        } else {
            text.append(line);
            Some(text)
        }
    }
}

} // verus!
