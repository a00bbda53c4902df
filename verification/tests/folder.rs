use dagster_designer_desktop::folder::{
    create_error, set_projects_dir, ChangeReply, ChangeRequest, FolderChange,
};
use dagster_designer_desktop::paths::FsPath;

fn path(text: &str) -> FsPath {
    FsPath::from_text(text)
}

fn done() -> ChangeReply {
    ChangeReply::Done { result: Ok(()) }
}

fn failed(reason: &str) -> ChangeReply {
    ChangeReply::Done { result: Err(reason.to_string()) }
}

fn begin(folder: &str) -> FolderChange {
    set_projects_dir(folder.to_string())
}

fn refused(reason: &str) -> ChangeRequest {
    ChangeRequest::Answer { result: Err(reason.to_string()) }
}

#[test]
fn a_whole_change() {
    let change = begin("/mine");
    assert_eq!(change.request(), ChangeRequest::CreateDir { path: path("/mine") });
    let change = change.reply(done());
    assert_eq!(change.request(), ChangeRequest::LookUpAppDataDir);
    let change = change.reply(ChangeReply::AppDataDir { dir: path("/data") });
    assert_eq!(change.request(), ChangeRequest::CreateDir { path: path("/data") });
    let change = change.reply(done());
    assert_eq!(
        change.request(),
        ChangeRequest::WriteFile {
            path: path("/data/preferences.json"),
            text: "{\n  \"projects_dir\": \"/mine\"\n}".to_string(),
        }
    );
    let change = change.reply(done());
    assert_eq!(change.request(), ChangeRequest::KillBackend);
    let change = change.reply(done());
    assert_eq!(change.request(), ChangeRequest::SpawnBackend);
    let change = change.reply(done());
    assert_eq!(change.request(), ChangeRequest::AwaitBackend);
    let change = change.reply(done());
    assert_eq!(change.request(), ChangeRequest::Answer { result: Ok(()) });
}

#[test]
fn a_folder_that_cannot_be_created_is_refused() {
    let change = begin("/mine").reply(failed("Permission denied (os error 13)"));
    assert_eq!(
        change.request(),
        refused("could not create \"/mine\": Permission denied (os error 13)")
    );
}

#[test]
fn the_refused_path_is_shown_escaped() {
    let change = begin("/a\"b\n").reply(failed("no"));
    assert_eq!(change.request(), refused("could not create \"/a\\\"b\\n\": no"));
}

#[test]
fn the_error_names_the_path_and_the_reason() {
    assert_eq!(create_error("\"/x\"", "why"), "could not create \"/x\": why");
}

#[test]
fn a_preferences_directory_that_cannot_be_created_is_reported() {
    let change = begin("/mine")
        .reply(done())
        .reply(ChangeReply::AppDataDir { dir: path("/data") })
        .reply(failed("read-only"));
    assert_eq!(change.request(), refused("read-only"));
}

#[test]
fn preferences_that_cannot_be_written_are_reported() {
    let change = begin("/mine")
        .reply(done())
        .reply(ChangeReply::AppDataDir { dir: path("/data") })
        .reply(done())
        .reply(failed("disk full"));
    assert_eq!(change.request(), refused("disk full"));
}

#[test]
fn an_answer_is_final() {
    let change = begin("/mine").reply(failed("no")).reply(done()).reply(done());
    assert_eq!(change.request(), refused("could not create \"/mine\": no"));
}

#[test]
fn a_reply_that_does_not_fit_leaves_the_change_as_it_is() {
    let change = begin("/mine").reply(ChangeReply::AppDataDir { dir: path("/data") });
    assert_eq!(change, begin("/mine"));
    let change = begin("/mine").reply(done()).reply(done());
    assert_eq!(change.request(), ChangeRequest::LookUpAppDataDir);
}
