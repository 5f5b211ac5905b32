//! The ordered statements that the session currently holds.
use vstd::prelude::*;
use crate::program::{code, program_text, texts};

verus! {

/// Accepted statements in the order they were submitted.
pub struct StatementBuffer {
    stmts: Vec<String>,
}

impl View for StatementBuffer {
    type V = Seq<Seq<char>>;

    closed spec fn view(&self) -> Seq<Seq<char>> {
        texts(self.stmts@)
    }
}

impl StatementBuffer {
    /// An empty buffer.
    pub fn new() -> (r: StatementBuffer)
        ensures
            r@ == Seq::<Seq<char>>::empty(),
    {
        let r = StatementBuffer { stmts: Vec::new() };
        assert(r@ =~= Seq::<Seq<char>>::empty());
        r
    }

    /// The number of statements held.
    pub fn len(&self) -> (r: usize)
        ensures
            r == self@.len(),
    {
        self.stmts.len()
    }

    /// Adds a statement after the others.
    pub fn append(&mut self, stmt: String)
        ensures
            final(self)@ == old(self)@.push(stmt@),
    {
        self.stmts.push(stmt);
        assert(self@ =~= old(self)@.push(stmt@));
    }

    /// Removes and gives back the most recent statement.
    pub fn pop_last(&mut self) -> (r: Option<String>)
        ensures
            old(self)@.len() == 0 ==> r is None && final(self)@ == old(self)@,
            old(self)@.len() > 0 ==> r is Some && r->0@ == old(self)@.last()
                && final(self)@ == old(self)@.drop_last(),
    {
        let r = self.stmts.pop();
        proof {
            if old(self)@.len() > 0 {
                assert(self@ =~= old(self)@.drop_last());
            }
        }
        r
    }

    /// Removes every statement.
    pub fn clear(&mut self)
        ensures
            final(self)@ == Seq::<Seq<char>>::empty(),
    {
        self.stmts.clear();
        assert(self@ =~= Seq::<Seq<char>>::empty());
    }

    /// A copy of the statements, in order.
    pub fn snapshot(&self) -> (r: Vec<String>)
        ensures
            texts(r@) == self@,
    {
        let mut r: Vec<String> = Vec::new();
        let mut i: usize = 0;
        while i < self.stmts.len()
            invariant
                i <= self.stmts@.len(),
                r@.len() == i,
                texts(r@) =~= self@.take(i as int),
            decreases self.stmts@.len() - i,
        {
            let s = self.stmts[i].clone();
            let ghost before = r@;
            r.push(s);
            assert(r@ == before.push(self.stmts@[i as int]));
            assert(texts(r@) =~= self@.take(i as int + 1));
            i = i + 1;
        }
        assert(self@.take(self.stmts@.len() as int) =~= self@);
        r
    }

    /// The program that holds the statements in order.
    pub fn program(&self) -> (r: String)
        ensures
            r@ == program_text(self@),
    {
        code(&self.stmts)
    }
}

} // verus!
