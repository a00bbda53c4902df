use dagster_designer_desktop::paths::FsPath;
use dagster_designer_desktop::preferences::Preferences;
use dagster_designer_desktop::save::{save_preferences, PreferencesSave, SaveRequest};

fn path(text: &str) -> FsPath {
    FsPath::from_text(text)
}

fn begin() -> PreferencesSave {
    save_preferences(path("/data"), Preferences { projects_dir: Some(path("/mine")) })
}

fn begin_unsaveable() -> PreferencesSave {
    let dir = FsPath { bytes: vec![47, 255] };
    save_preferences(path("/data"), Preferences { projects_dir: Some(dir) })
}

fn answer(result: Result<(), &str>) -> SaveRequest {
    SaveRequest::Answer { result: result.map_err(String::from) }
}

#[test]
fn preferences_are_saved_in_the_data_directory() {
    let save = begin();
    assert_eq!(save.request(), SaveRequest::CreateDir { path: path("/data") });
    let save = save.reply(Ok(()));
    assert_eq!(
        save.request(),
        SaveRequest::WriteFile {
            path: path("/data/preferences.json"),
            text: "{\n  \"projects_dir\": \"/mine\"\n}".to_string(),
        }
    );
    assert_eq!(save.reply(Ok(())).request(), answer(Ok(())));
}

#[test]
fn saving_stops_at_the_first_failure() {
    let save = begin().reply(Err("read-only".to_string()));
    assert_eq!(save.request(), answer(Err("read-only")));
    let save = begin().reply(Ok(())).reply(Err("disk full".to_string()));
    assert_eq!(save.request(), answer(Err("disk full")));
    assert_eq!(save.reply(Ok(())).request(), answer(Err("disk full")));
}

#[test]
fn a_folder_that_is_no_text_leaves_the_file_alone() {
    let save = begin_unsaveable();
    assert_eq!(save.request(), SaveRequest::CreateDir { path: path("/data") });
    let save = save.reply(Ok(()));
    assert_eq!(save.request(), answer(Err("path contains invalid UTF-8 characters")));
    let save = begin_unsaveable().reply(Err("read-only".to_string()));
    assert_eq!(save.request(), answer(Err("read-only")));
}
