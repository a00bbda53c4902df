use dagster_designer_desktop::text::{
    decimal_text, has_prefix, same_text, split_lines, text_from_bytes,
};

#[test]
fn prefixes_are_found() {
    assert!(has_prefix("project:new", "project:"));
    assert!(has_prefix("view:", "view:"));
    assert!(has_prefix("anything", ""));
    assert!(has_prefix("", ""));
    assert!(!has_prefix("view", "view:"));
    assert!(!has_prefix("preview:x", "view:"));
    assert!(has_prefix("…x", "…"));
}

#[test]
fn texts_are_compared_whole() {
    assert!(same_text("quit", "quit"));
    assert!(same_text("", ""));
    assert!(!same_text("quit", "quit "));
    assert!(!same_text("qui", "quit"));
    assert!(!same_text("Quit", "quit"));
}

#[test]
fn numbers_are_written_in_decimal() {
    assert_eq!(decimal_text(0), "0");
    assert_eq!(decimal_text(9), "9");
    assert_eq!(decimal_text(10), "10");
    assert_eq!(decimal_text(8000), "8000");
    assert_eq!(decimal_text(12345), "12345");
    assert_eq!(decimal_text(65535), "65535");
}

#[test]
fn lines_end_in_line_feeds() {
    assert_eq!(split_lines(""), Vec::<String>::new());
    assert_eq!(split_lines("a"), vec!["a"]);
    assert_eq!(split_lines("a\n"), vec!["a"]);
    assert_eq!(split_lines("a\n\nb\n"), vec!["a", "", "b"]);
    assert_eq!(split_lines("\n"), vec![""]);
}

#[test]
fn carriage_returns_go_only_before_line_feeds() {
    assert_eq!(split_lines("a\r\nb\r\n"), vec!["a", "b"]);
    assert_eq!(split_lines("\r\n"), vec![""]);
    assert_eq!(split_lines("a\rb\n"), vec!["a\rb"]);
    assert_eq!(split_lines("a\r"), vec!["a\r"]);
    assert_eq!(split_lines("a\r\r\n"), vec!["a\r"]);
}

#[test]
fn lines_agree_with_the_standard_library() {
    let samples = ["", "x", "\n\n", "a\nb", "a\r\nb\r", "\r\n\r\n", "é\n…\r\n\u{1F600}"];
    for sample in samples {
        let expected: Vec<String> = sample.lines().map(String::from).collect();
        assert_eq!(split_lines(sample), expected);
    }
}

#[test]
fn valid_bytes_are_read_as_they_stand() {
    assert_eq!(text_from_bytes(b"123\n"), "123\n");
    assert_eq!(text_from_bytes("é…".as_bytes()), "é…");
    assert_eq!(text_from_bytes(b""), "");
}

#[test]
fn invalid_bytes_are_replaced() {
    assert_eq!(text_from_bytes(b"a\xffb"), "a\u{FFFD}b");
}
