use rusti::buffer::StatementBuffer;
use rusti::program::{code, PROGRAM_HEAD, PROGRAM_TAIL};

fn strings(items: &[&str]) -> Vec<String> {
    items.iter().map(|s| s.to_string()).collect()
}

#[test]
fn generation_twice_is_byte_identical() {
    let lines = strings(&["let a = 1;", "a + 1"]);
    let first = code(&lines);
    let second = code(&lines);
    assert_eq!(first.as_bytes(), second.as_bytes());
}

#[test]
fn empty_program_has_an_empty_block() {
    let text = code(&Vec::new());
    assert_eq!(
        text,
        "\n#![allow(unused)]\n\nfn main() {\nlet x = {\n\n};\nprintln!(\"{x:?}\");\n}\n"
    );
}

#[test]
fn statements_stand_in_order_one_per_line() {
    let text = code(&strings(&[";let a = 1;", ";a + 1"]));
    assert_eq!(
        text,
        "\n#![allow(unused)]\n\nfn main() {\nlet x = {\n;let a = 1;\n;a + 1\n\n};\nprintln!(\"{x:?}\");\n}\n"
    );
}

#[test]
fn program_is_head_body_tail() {
    let text = code(&strings(&["x"]));
    assert_eq!(text, format!("{}x\n{}", PROGRAM_HEAD, PROGRAM_TAIL));
}

#[test]
fn buffer_append_pop_and_clear() {
    let mut b = StatementBuffer::new();
    assert_eq!(b.len(), 0);
    assert_eq!(b.pop_last(), None);
    b.append("s1".to_string());
    b.append("s2".to_string());
    b.append("s2".to_string());
    assert_eq!(b.snapshot(), strings(&["s1", "s2", "s2"]));
    assert_eq!(b.pop_last(), Some("s2".to_string()));
    assert_eq!(b.snapshot(), strings(&["s1", "s2"]));
    assert_eq!(b.program(), code(&strings(&["s1", "s2"])));
    b.clear();
    assert_eq!(b.len(), 0);
    assert_eq!(b.snapshot(), Vec::<String>::new());
}
