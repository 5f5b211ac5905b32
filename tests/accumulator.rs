use rusti::accumulator::Accumulator;
use rusti::command::{classify, Command};
use rusti::text::same_text;

#[test]
fn continued_lines_make_one_statement() {
    let mut a = Accumulator::new();
    assert_eq!(a.accept("let x = 1 \\"), None);
    assert!(a.is_pending());
    assert_eq!(a.accept("+ 2"), Some(";let x = 1 + 2".to_string()));
    assert!(!a.is_pending());
}

#[test]
fn a_fresh_statement_starts_with_a_terminator() {
    let mut a = Accumulator::new();
    assert_eq!(a.accept("let y = 3;"), Some(";let y = 3;".to_string()));
    assert_eq!(a.accept(""), Some(";".to_string()));
}

#[test]
fn three_continued_lines() {
    let mut a = Accumulator::new();
    assert_eq!(a.accept("1\\"), None);
    assert_eq!(a.accept("+ 2\\"), None);
    assert_eq!(a.accept("\\"), None);
    assert_eq!(a.accept("+ 3"), Some(";1+ 2+ 3".to_string()));
}

#[test]
fn discard_drops_the_statement_in_progress() {
    let mut a = Accumulator::new();
    assert_eq!(a.accept("let z = \\"), None);
    a.discard();
    assert!(!a.is_pending());
    assert_eq!(a.accept("4"), Some(";4".to_string()));
}

#[test]
fn commands_are_exact_and_case_sensitive() {
    assert_eq!(classify("clear"), Command::Clear);
    assert_eq!(classify("c"), Command::Clear);
    assert_eq!(classify("exit"), Command::Exit);
    assert_eq!(classify("e"), Command::Exit);
    assert_eq!(classify("Clear"), Command::Code);
    assert_eq!(classify("EXIT"), Command::Code);
    assert_eq!(classify("clear;"), Command::Code);
    assert_eq!(classify("ex"), Command::Code);
    assert_eq!(classify(""), Command::Code);
}

#[test]
fn texts_compare_by_characters() {
    assert!(same_text("abc", "abc"));
    assert!(same_text("", ""));
    assert!(!same_text("abc", "abd"));
    assert!(!same_text("abc", "ab"));
    assert!(same_text("é", "é"));
}
