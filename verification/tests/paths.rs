use dagster_designer_desktop::paths::FsPath;

fn bytes(path: FsPath) -> Vec<u8> {
    path.bytes
}

#[test]
fn parts_are_joined_with_one_separator() {
    assert_eq!(bytes(FsPath::from_text("/a").join("b")), b"/a/b");
    assert_eq!(bytes(FsPath::from_text("/a/").join("b")), b"/a/b");
    assert_eq!(bytes(FsPath::from_text("/").join("b")), b"/b");
    assert_eq!(bytes(FsPath::from_text("/a//").join("b")), b"/a//b");
}

#[test]
fn an_empty_directory_adds_nothing() {
    assert_eq!(bytes(FsPath::from_text("").join("b")), b"b");
}

#[test]
fn an_empty_part_leaves_the_directory_opened() {
    assert_eq!(bytes(FsPath::from_text("/a").join("")), b"/a/");
}

#[test]
fn an_absolute_part_stands_for_itself() {
    assert_eq!(bytes(FsPath::from_text("/a").join("/b/c")), b"/b/c");
}

#[test]
fn parents_are_kept_as_written() {
    assert_eq!(bytes(FsPath::from_text("/repo/shell").join("../backend")), b"/repo/shell/../backend");
}

#[test]
fn joining_agrees_with_the_standard_library() {
    for dir in ["", "/", "/a", "/a/", "a", "a/b//", "/é"] {
        for part in ["", "b", "b/c", "/x", "../y", "ü"] {
            let expected = std::path::Path::new(dir).join(part);
            assert_eq!(
                bytes(FsPath::from_text(dir).join(part)),
                expected.to_str().unwrap().as_bytes()
            );
        }
    }
}

#[test]
fn text_survives_as_a_path() {
    for text in ["", "/Users/é/Projects", "…"] {
        assert_eq!(FsPath::from_text(text).to_text(), text);
    }
}

#[test]
fn a_path_that_is_no_text_is_shown_with_replacements() {
    let path = FsPath { bytes: vec![47, 97, 255] };
    assert_eq!(path.to_text(), "/a\u{FFFD}");
}

#[test]
fn bytes_that_are_no_text_survive_joining() {
    let path = FsPath { bytes: vec![47, 255] };
    assert_eq!(path.duplicate(), path);
    assert_eq!(bytes(path.join("data")), b"/\xff/data");
}

#[test]
fn only_valid_paths_have_a_text() {
    assert_eq!(FsPath::from_text("/é").to_str(), Some("/é".to_string()));
    assert_eq!(FsPath::from_text("").to_str(), Some(String::new()));
    assert_eq!(FsPath { bytes: vec![47, 255] }.to_str(), None);
    assert_eq!(FsPath { bytes: vec![0xC0, 0x80] }.to_str(), None);
    // The replacement character itself is a valid text.
    assert_eq!(FsPath::from_text("\u{FFFD}").to_str(), Some("\u{FFFD}".to_string()));
}

#[test]
fn a_path_is_shown_quoted_and_escaped() {
    assert_eq!(FsPath::from_text("/a \"b\"\n").shown("x"), "\"/a \\\"b\\\"\\n\"");
    assert_eq!(FsPath { bytes: vec![47, 255] }.shown("\"/\\xFF\""), "\"/\\xFF\"");
}
