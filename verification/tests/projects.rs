use dagster_designer_desktop::paths::FsPath;
use dagster_designer_desktop::preferences::Preferences;
use dagster_designer_desktop::projects::{
    backend_dir, get_projects_dir, preferences_path, resolve_projects_dir, uv_path, Installation,
    ProjectsDirSearch,
};

fn path(text: &str) -> FsPath {
    FsPath::from_text(text)
}

fn development() -> Installation {
    Installation::Development { manifest_dir: path("/repo/desktop") }
}

fn packaged() -> Installation {
    Installation::Packaged { resource_dir: path("/App/Resources") }
}

#[test]
fn the_backend_lives_beside_the_shell_or_in_the_bundle() {
    assert_eq!(backend_dir(&development()), path("/repo/desktop/../backend"));
    assert_eq!(backend_dir(&packaged()), path("/App/Resources/backend"));
}

#[test]
fn uv_is_on_the_search_path_or_in_the_bundle() {
    assert_eq!(uv_path(&development()), path("uv"));
    assert_eq!(uv_path(&packaged()), path("/App/Resources/bin/uv"));
}

#[test]
fn preferences_live_in_the_data_directory() {
    assert_eq!(preferences_path(&path("/data")), path("/data/preferences.json"));
}

#[test]
fn a_chosen_folder_wins() {
    let prefs = Preferences { projects_dir: Some(path("/mine")) };
    let search = resolve_projects_dir(prefs, path("/data"));
    assert_eq!(search, ProjectsDirSearch::Found { dir: path("/mine") });
    let search = search.told_document_dir(Some(path("/docs"))).told_is_dir(true);
    assert_eq!(search, ProjectsDirSearch::Found { dir: path("/mine") });
}

#[test]
fn existing_projects_stay_among_the_documents() {
    let search = resolve_projects_dir(Preferences::default(), path("/data"));
    assert_eq!(search, ProjectsDirSearch::AskDocumentDir { app_data_dir: path("/data") });
    let search = search.told_document_dir(Some(path("/docs")));
    assert_eq!(
        search,
        ProjectsDirSearch::AskIsDir {
            old_default: path("/docs/Dagster Designer"),
            app_data_dir: path("/data"),
        }
    );
    assert_eq!(
        search.told_is_dir(true),
        ProjectsDirSearch::Found { dir: path("/docs/Dagster Designer") }
    );
}

#[test]
fn a_fresh_install_uses_the_data_directory() {
    let search = resolve_projects_dir(Preferences::default(), path("/data"));
    let search = search.told_document_dir(Some(path("/docs"))).told_is_dir(false);
    assert_eq!(search, ProjectsDirSearch::Found { dir: path("/data/Projects") });
}

#[test]
fn without_documents_the_data_directory_is_used() {
    let search = resolve_projects_dir(Preferences::default(), path("/data"));
    assert_eq!(
        search.told_document_dir(None),
        ProjectsDirSearch::Found { dir: path("/data/Projects") }
    );
}

#[test]
fn a_search_ignores_what_it_did_not_ask() {
    let search = resolve_projects_dir(Preferences::default(), path("/data"));
    assert_eq!(
        search.told_is_dir(true),
        ProjectsDirSearch::AskDocumentDir { app_data_dir: path("/data") }
    );
}

#[test]
fn the_settings_show_the_folder_as_text() {
    assert_eq!(get_projects_dir(&path("/Users/é/Projects")), "/Users/é/Projects");
    assert_eq!(get_projects_dir(&FsPath { bytes: vec![47, 254, 47] }), "/\u{FFFD}/");
}

#[test]
fn a_chosen_folder_reads_back() {
    let prefs = Preferences { projects_dir: Some(path("/Users/é/…")) };
    match resolve_projects_dir(prefs, path("/data")) {
        ProjectsDirSearch::Found { dir } => assert_eq!(get_projects_dir(&dir), "/Users/é/…"),
        other => panic!("still searching: {other:?}"),
    }
}
