use dagster_designer_desktop::paths::FsPath;
use dagster_designer_desktop::preferences::{
    load_preferences, preferences_json, written_preferences, Preferences, PreferencesFile,
};

fn choosing(dir: &str) -> Preferences {
    Preferences { projects_dir: Some(FsPath::from_text(dir)) }
}

fn nothing() -> Preferences {
    Preferences { projects_dir: None }
}

fn file(text: &str, parsed: Option<Preferences>) -> Option<PreferencesFile> {
    Some(PreferencesFile { text: text.to_string(), parsed })
}

fn json(prefs: &Preferences) -> String {
    preferences_json(prefs).unwrap()
}

#[test]
fn nothing_is_chosen_by_default() {
    assert_eq!(Preferences::default(), nothing());
}

#[test]
fn a_missing_file_counts_as_saying_nothing() {
    assert_eq!(load_preferences(None), nothing());
}

#[test]
fn a_file_that_cannot_be_understood_counts_as_saying_nothing() {
    assert_eq!(load_preferences(file("{", None)), nothing());
    assert_eq!(load_preferences(file("", None)), nothing());
}

#[test]
fn a_file_from_elsewhere_is_gone_by_as_it_was_read() {
    let text = "{\"theme\":1,\"projects_dir\":\"/p\"}";
    assert_eq!(load_preferences(file(text, Some(choosing("/p")))), choosing("/p"));
    assert_eq!(load_preferences(file("{}", Some(nothing()))), nothing());
}

#[test]
fn a_chosen_folder_is_written() {
    assert_eq!(
        json(&choosing("/Users/me/Projects")),
        "{\n  \"projects_dir\": \"/Users/me/Projects\"\n}"
    );
    assert_eq!(json(&choosing("")), "{\n  \"projects_dir\": \"\"\n}");
}

#[test]
fn no_folder_is_written_as_null() {
    assert_eq!(json(&nothing()), "{\n  \"projects_dir\": null\n}");
}

#[test]
fn special_characters_are_escaped() {
    assert_eq!(
        json(&choosing("\"\\/\u{8}\t\n\u{c}\r")),
        "{\n  \"projects_dir\": \"\\\"\\\\/\\b\\t\\n\\f\\r\"\n}"
    );
    assert_eq!(
        json(&choosing("\u{0}\u{b}\u{1f}\u{7f}é…")),
        "{\n  \"projects_dir\": \"\\u0000\\u000b\\u001f\u{7f}é…\"\n}"
    );
}

#[test]
fn a_folder_that_is_no_text_cannot_be_written() {
    let prefs = Preferences { projects_dir: Some(FsPath { bytes: vec![47, 255] }) };
    assert_eq!(
        preferences_json(&prefs),
        Err("path contains invalid UTF-8 characters".to_string())
    );
}

#[test]
fn different_preferences_are_written_differently() {
    let samples = [None, Some(""), Some("null"), Some("\""), Some("\\\""), Some("\n"), Some("\\n")];
    for (i, a) in samples.iter().enumerate() {
        for (j, b) in samples.iter().enumerate() {
            let first = Preferences { projects_dir: a.map(FsPath::from_text) };
            let second = Preferences { projects_dir: b.map(FsPath::from_text) };
            assert_eq!(json(&first) == json(&second), i == j);
        }
    }
}

#[test]
fn what_is_written_reads_back() {
    for dir in [None, Some("/p"), Some("a \"quoted\" \\ é\u{1}\u{7f}\n"), Some(""), Some("null")] {
        let prefs = Preferences { projects_dir: dir.map(FsPath::from_text) };
        let text = json(&prefs);
        assert_eq!(written_preferences(&text), Some(Preferences {
            projects_dir: dir.map(FsPath::from_text),
        }));
        assert_eq!(load_preferences(file(&text, None)), prefs);
    }
}

#[test]
fn only_what_is_written_counts_as_written() {
    assert_eq!(written_preferences("{\"projects_dir\":\"/p\"}"), None);
    assert_eq!(written_preferences("{\n  \"projects_dir\": \"/p\"\n}\n"), None);
    assert_eq!(written_preferences("{\n  \"other\": \"/p\"\n}"), None);
    assert_eq!(written_preferences("{\n  \"projects_dir\": 1\n}"), None);
    assert_eq!(
        written_preferences("{\n  \"projects_dir\": \"a\",\n  \"projects_dir\": \"b\"\n}"),
        None
    );
    assert_eq!(written_preferences("[\"/p\"]"), None);
    assert_eq!(written_preferences("{}"), None);
    assert_eq!(written_preferences(""), None);
}
