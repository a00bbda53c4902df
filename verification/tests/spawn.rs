use dagster_designer_desktop::backend::backend_command;
use dagster_designer_desktop::paths::FsPath;
use dagster_designer_desktop::preferences::{preferences_json, Preferences, PreferencesFile};
use dagster_designer_desktop::projects::Installation;
use dagster_designer_desktop::spawn::{spawn_backend, Spawn, SpawnReply, SpawnRequest};
use dagster_designer_desktop::stale::StaleStep;

fn path(text: &str) -> FsPath {
    FsPath::from_text(text)
}

fn installation() -> Installation {
    Installation::Packaged { resource_dir: path("/App/Resources") }
}

/// A start whose port is clear and whose data directory was made.
fn ready_for_preferences() -> Spawn {
    spawn_backend()
        .reply(SpawnReply::Listed { output: None })
        .reply(SpawnReply::Done)
        .reply(SpawnReply::Installation { installation: installation() })
        .reply(SpawnReply::AppDataDir { app_data_dir: path("/data") })
        .reply(SpawnReply::Done)
}

fn start_for(dir: &str) -> Option<SpawnRequest> {
    Some(SpawnRequest::Start {
        command: backend_command(&installation(), &path("/data"), &path(dir)),
    })
}

#[test]
fn a_whole_start() {
    let spawn = spawn_backend();
    assert_eq!(
        spawn.request(),
        Some(SpawnRequest::ListPort {
            args: vec!["-ti".to_string(), ":8000".to_string(), "-sTCP:LISTEN".to_string()],
        })
    );
    let spawn = spawn.reply(SpawnReply::Listed { output: Some(b"9\n".to_vec()) });
    assert_eq!(
        spawn.request(),
        Some(SpawnRequest::ClearPort {
            steps: vec![
                StaleStep::Report {
                    line: "Killing stale process on port 8000: pid 9".to_string(),
                },
                StaleStep::Kill { args: vec!["-9".to_string(), "9".to_string()] },
                StaleStep::Settle { millis: 500 },
            ],
        })
    );
    let spawn = spawn.reply(SpawnReply::Done);
    assert_eq!(spawn.request(), Some(SpawnRequest::LookUpInstallation));
    let spawn = spawn.reply(SpawnReply::Installation { installation: installation() });
    assert_eq!(spawn.request(), Some(SpawnRequest::LookUpAppDataDir));
    let spawn = spawn.reply(SpawnReply::AppDataDir { app_data_dir: path("/data") });
    assert_eq!(
        spawn.request(),
        Some(SpawnRequest::CreateDir { path: path("/data") })
    );
    let spawn = spawn.reply(SpawnReply::Done);
    assert_eq!(
        spawn.request(),
        Some(SpawnRequest::ReadPreferences { path: path("/data/preferences.json") })
    );
    let spawn = spawn.reply(SpawnReply::Preferences { file: None });
    assert_eq!(spawn.request(), Some(SpawnRequest::LookUpDocumentDir));
    let spawn = spawn.reply(SpawnReply::DocumentDir { dir: Some(path("/docs")) });
    assert_eq!(
        spawn.request(),
        Some(SpawnRequest::ProbeDir { path: path("/docs/Dagster Designer") })
    );
    let spawn = spawn.reply(SpawnReply::Probed { is_dir: false });
    assert_eq!(
        spawn.request(),
        Some(SpawnRequest::CreateDir { path: path("/data/Projects") })
    );
    let spawn = spawn.reply(SpawnReply::Done);
    assert_eq!(
        spawn.request(),
        Some(SpawnRequest::CreateLog { path: path("/data/backend.log") })
    );
    let spawn = spawn.reply(SpawnReply::Done);
    assert_eq!(spawn.request(), Some(SpawnRequest::ShareLog));
    let spawn = spawn.reply(SpawnReply::Done);
    assert_eq!(spawn.request(), start_for("/data/Projects"));
    let spawn = spawn.reply(SpawnReply::Done);
    assert_eq!(spawn, Spawn::Started);
    assert_eq!(spawn.request(), None);
}

#[test]
fn a_port_that_cannot_be_listed_is_left_alone() {
    let spawn = spawn_backend().reply(SpawnReply::Listed { output: None });
    assert_eq!(spawn.request(), Some(SpawnRequest::ClearPort { steps: vec![] }));
}

#[test]
fn a_chosen_folder_is_not_searched_for() {
    let prefs = Preferences { projects_dir: Some(path("/mine")) };
    let file = PreferencesFile { text: preferences_json(&prefs).unwrap(), parsed: Some(prefs) };
    let spawn = ready_for_preferences().reply(SpawnReply::Preferences { file: Some(file) });
    assert_eq!(
        spawn.request(),
        Some(SpawnRequest::CreateDir { path: path("/mine") })
    );
    let spawn =
        spawn.reply(SpawnReply::Done).reply(SpawnReply::Done).reply(SpawnReply::Done);
    assert_eq!(spawn.request(), start_for("/mine"));
}

#[test]
fn an_earlier_folder_is_kept() {
    let spawn = ready_for_preferences()
        .reply(SpawnReply::Preferences { file: None })
        .reply(SpawnReply::DocumentDir { dir: Some(path("/docs")) })
        .reply(SpawnReply::Probed { is_dir: true })
        .reply(SpawnReply::Done)
        .reply(SpawnReply::Done)
        .reply(SpawnReply::Done);
    assert_eq!(spawn.request(), start_for("/docs/Dagster Designer"));
}

#[test]
fn an_unknown_documents_directory_is_not_probed() {
    let spawn = ready_for_preferences()
        .reply(SpawnReply::Preferences { file: None })
        .reply(SpawnReply::DocumentDir { dir: None });
    assert_eq!(
        spawn.request(),
        Some(SpawnRequest::CreateDir { path: path("/data/Projects") })
    );
}

#[test]
fn a_reply_that_does_not_fit_changes_nothing() {
    let spawn = spawn_backend().reply(SpawnReply::Done);
    assert_eq!(spawn, Spawn::ListPort);
    let spawn = ready_for_preferences().reply(SpawnReply::Done);
    assert_eq!(spawn, ready_for_preferences());
    assert_eq!(Spawn::Started.reply(SpawnReply::Done), Spawn::Started);
}

fn failed(reason: &str) -> SpawnReply {
    SpawnReply::Failed { reason: reason.to_string() }
}

fn abort(message: &str) -> Option<SpawnRequest> {
    Some(SpawnRequest::Abort { message: message.to_string() })
}

/// A start whose projects folder is about to be created.
fn ready_for_projects_dir() -> Spawn {
    ready_for_preferences()
        .reply(SpawnReply::Preferences { file: None })
        .reply(SpawnReply::DocumentDir { dir: None })
}

#[test]
fn places_that_cannot_be_looked_up_end_the_start() {
    let cleared =
        || spawn_backend().reply(SpawnReply::Listed { output: None }).reply(SpawnReply::Done);
    let spawn = cleared().reply(failed("UnknownPath"));
    assert_eq!(spawn.request(), abort("could not resolve resource dir: UnknownPath"));
    let spawn = cleared()
        .reply(SpawnReply::Installation { installation: installation() })
        .reply(failed("UnknownPath"));
    assert_eq!(spawn.request(), abort("could not resolve app data dir: UnknownPath"));
}

#[test]
fn directories_that_cannot_be_created_end_the_start() {
    let spawn = spawn_backend()
        .reply(SpawnReply::Listed { output: None })
        .reply(SpawnReply::Done)
        .reply(SpawnReply::Installation { installation: installation() })
        .reply(SpawnReply::AppDataDir { app_data_dir: path("/data") })
        .reply(failed("denied"));
    assert_eq!(spawn.request(), abort("could not create app data dir: denied"));
    let spawn = ready_for_projects_dir().reply(failed("denied"));
    assert_eq!(spawn.request(), abort("could not create projects dir: denied"));
}

#[test]
fn a_log_that_cannot_be_had_ends_the_start() {
    let creating = || ready_for_projects_dir().reply(SpawnReply::Done);
    let spawn = creating().reply(SpawnReply::LogFailed {
        shown_path: "elsewhere".to_string(),
        reason: "denied".to_string(),
    });
    assert_eq!(
        spawn.request(),
        abort("could not create backend log at \"/data/backend.log\": denied")
    );
    let spawn = creating().reply(SpawnReply::Done).reply(failed("denied"));
    assert_eq!(spawn.request(), abort("could not clone backend log handle: denied"));
}

#[test]
fn a_process_that_cannot_be_started_ends_the_start() {
    let spawn = ready_for_projects_dir()
        .reply(SpawnReply::Done)
        .reply(SpawnReply::Done)
        .reply(SpawnReply::Done)
        .reply(SpawnReply::StartFailed {
            shown_program: "elsewhere".to_string(),
            shown_dir: "elsewhere".to_string(),
            reason: "not found".to_string(),
        });
    let expected = abort(
        "failed to start the Dagster Designer backend via `\"/App/Resources/bin/uv\" run` in \
         \"/App/Resources/backend\": not found\nIn a dev build, make sure `uv` is installed and on PATH \
         (https://docs.astral.sh/uv/).",
    );
    assert_eq!(spawn.request(), expected);
    assert_eq!(spawn.reply(SpawnReply::Done).request(), expected);
}

#[test]
fn a_failure_that_does_not_fit_changes_nothing() {
    assert_eq!(spawn_backend().reply(failed("no")), Spawn::ListPort);
    let spawn = ready_for_preferences().reply(SpawnReply::LogFailed {
        shown_path: String::new(),
        reason: String::new(),
    });
    assert_eq!(spawn, ready_for_preferences());
}

#[test]
fn paths_that_are_no_text_are_shown_as_they_were_said_to_be() {
    let spawn = spawn_backend()
        .reply(SpawnReply::Listed { output: None })
        .reply(SpawnReply::Done)
        .reply(SpawnReply::Installation {
            installation: Installation::Packaged { resource_dir: FsPath { bytes: vec![47, 255] } },
        })
        .reply(SpawnReply::AppDataDir { app_data_dir: FsPath { bytes: vec![47, 254] } })
        .reply(SpawnReply::Done)
        .reply(SpawnReply::Preferences { file: None })
        .reply(SpawnReply::DocumentDir { dir: None })
        .reply(SpawnReply::Done);
    let started = spawn_backend()
        .reply(SpawnReply::Listed { output: None })
        .reply(SpawnReply::Done)
        .reply(SpawnReply::Installation {
            installation: Installation::Packaged { resource_dir: FsPath { bytes: vec![47, 255] } },
        })
        .reply(SpawnReply::AppDataDir { app_data_dir: path("/data") })
        .reply(SpawnReply::Done)
        .reply(SpawnReply::Preferences { file: None })
        .reply(SpawnReply::DocumentDir { dir: None })
        .reply(SpawnReply::Done)
        .reply(SpawnReply::Done)
        .reply(SpawnReply::Done)
        .reply(SpawnReply::StartFailed {
            shown_program: "\"/\\xFF/bin/uv\"".to_string(),
            shown_dir: "\"/\\xFF/backend\"".to_string(),
            reason: "no".to_string(),
        });
    assert_eq!(
        spawn
            .reply(SpawnReply::LogFailed {
                shown_path: "\"/\\xFE/backend.log\"".to_string(),
                reason: "no".to_string(),
            })
            .request(),
        abort("could not create backend log at \"/\\xFE/backend.log\": no")
    );
    assert_eq!(
        started.request(),
        abort(
            "failed to start the Dagster Designer backend via `\"/\\xFF/bin/uv\" run` in \
             \"/\\xFF/backend\": no\nIn a dev build, make sure `uv` is installed and on PATH \
             (https://docs.astral.sh/uv/)."
        )
    );
}
