use serdeio::{join_lines, split_lines};

fn owned(lines: &[&str]) -> Vec<Vec<u8>> {
    lines.iter().map(|l| l.as_bytes().to_vec()).collect()
}

#[test]
fn split_on_newlines() {
    assert_eq!(split_lines(b"a\nbc\n"), owned(&["a", "bc"]));
    assert_eq!(split_lines(b"a\nbc"), owned(&["a", "bc"]));
}

#[test]
fn split_drops_carriage_return_before_newline() {
    assert_eq!(split_lines(b"a\r\nb\r\n"), owned(&["a", "b"]));
    assert_eq!(split_lines(b"a\r\r\n"), owned(&["a\r"]));
    assert_eq!(split_lines(b"tail\r"), owned(&["tail\r"]));
}

#[test]
fn split_keeps_empty_lines_but_not_an_empty_tail() {
    assert_eq!(split_lines(b"a\n\nb\n"), owned(&["a", "", "b"]));
    assert_eq!(split_lines(b"\n"), owned(&[""]));
    assert_eq!(split_lines(b""), owned(&[]));
}

#[test]
fn join_ends_every_line() {
    assert_eq!(join_lines(&owned(&["a", "bc"])), b"a\nbc\n".to_vec());
    assert_eq!(join_lines(&owned(&["", "x"])), b"\nx\n".to_vec());
    assert_eq!(join_lines(&Vec::new()), Vec::<u8>::new());
}

#[test]
fn join_then_split_gives_the_lines() {
    let lines = owned(&["{\"id\":1}", "", "[1,2]", "\"x\""]);
    assert_eq!(split_lines(&join_lines(&lines)), lines);
}
