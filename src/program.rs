//! Generation of the complete program text from the accepted statements.
use vstd::prelude::*;

verus! {

/// Everything that precedes the statements: a header that silences
/// unused-code lints, the entry point, and the opening of the value block.
pub const PROGRAM_HEAD: &'static str = "\n#![allow(unused)]\n\nfn main() {\nlet x = {\n";

/// Everything that follows the statements: the block is closed and its value
/// is printed with its debug representation.
pub const PROGRAM_TAIL: &'static str = "\n};\nprintln!(\"{x:?}\");\n}\n";

/// The texts of a sequence of strings.
pub open spec fn texts(lines: Seq<String>) -> Seq<Seq<char>> {
    lines.map_values(|s: String| s@)
}

/// The statements, in order, each followed by a line break.
pub open spec fn joined(stmts: Seq<Seq<char>>) -> Seq<char>
    decreases stmts.len(),
{
    if stmts.len() == 0 {
        Seq::empty()
    } else {
        joined(stmts.drop_last()) + stmts.last() + seq!['\n']
    }
}

/// The program generated from a sequence of statements.
pub open spec fn program_text(stmts: Seq<Seq<char>>) -> Seq<char> {
    PROGRAM_HEAD@ + joined(stmts) + PROGRAM_TAIL@
}

/// Builds the complete program whose block holds `lines` in order.
pub fn code(lines: &Vec<String>) -> (r: String)
    ensures
        r@ == program_text(texts(lines@)),
{
    let mut body = String::new();
    let mut i: usize = 0;
    while i < lines.len()
        invariant
            i <= lines@.len(),
            body@ == joined(texts(lines@).take(i as int)),
        decreases lines@.len() - i,
    {
        body.append(lines[i].as_str());
        body.append("\n");
        proof {
            reveal_strlit("\n");
            let s = texts(lines@);
            assert(s.take(i as int + 1).drop_last() =~= s.take(i as int));
        }
        i = i + 1;
    }
    assert(texts(lines@).take(lines@.len() as int) =~= texts(lines@));
    let mut r = String::from_str(PROGRAM_HEAD);
    r.append(body.as_str());
    r.append(PROGRAM_TAIL);
    r
}

} // verus!
