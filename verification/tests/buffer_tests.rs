use viewport_core::buffer::Buffer;

fn lines_of(b: &Buffer) -> Vec<String> {
    b.lines.clone()
}

#[test]
fn from_string_splits_on_newlines() {
    let b = Buffer::from_string(String::from("ab\ncdef"));
    assert_eq!(lines_of(&b), vec![String::from("ab"), String::from("cdef")]);
}

#[test]
fn from_string_trailing_terminator_adds_no_line() {
    let b = Buffer::from_string(String::from("ab\n"));
    assert_eq!(lines_of(&b), vec![String::from("ab")]);
}

#[test]
fn from_string_crlf_is_one_boundary() {
    let b = Buffer::from_string(String::from("ab\r\ncd"));
    assert_eq!(lines_of(&b), vec![String::from("ab"), String::from("cd")]);
}

#[test]
fn from_string_lone_newline_is_one_empty_line() {
    let b = Buffer::from_string(String::from("\n"));
    assert_eq!(lines_of(&b), vec![String::new()]);
}

#[test]
fn from_string_keeps_carriage_return_without_newline() {
    let b = Buffer::from_string(String::from("a\r"));
    assert_eq!(lines_of(&b), vec![String::from("a\r")]);
}

#[test]
fn from_string_empty_input_gives_empty_buffer() {
    let b = Buffer::from_string(String::new());
    assert_eq!(b.line_count(), 0);
}

#[test]
fn from_string_inner_empty_lines_kept() {
    let b = Buffer::from_string(String::from("a\n\nb"));
    assert_eq!(
        lines_of(&b),
        vec![String::from("a"), String::new(), String::from("b")]
    );
}

#[test]
fn from_string_splits_multi_byte_text_by_characters() {
    let b = Buffer::from_string(String::from("h\u{e9}llo\nw\u{f6}rld"));
    assert_eq!(
        lines_of(&b),
        vec![String::from("h\u{e9}llo"), String::from("w\u{f6}rld")]
    );
}

#[test]
fn default_buffer_holds_placeholder() {
    let b = Buffer::default();
    assert_eq!(lines_of(&b), vec![String::from("Hello world")]);
}

#[test]
fn line_text_in_and_out_of_range() {
    let b = Buffer::from_string(String::from("ab\ncd"));
    assert_eq!(b.line_count(), 2);
    assert_eq!(b.line_text(0), Some(&String::from("ab")));
    assert_eq!(b.line_text(1), Some(&String::from("cd")));
    assert_eq!(b.line_text(2), None);
}
