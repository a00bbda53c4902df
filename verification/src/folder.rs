//! Changing the folder that holds the user's projects.

use crate::backend;
use crate::paths;
use crate::paths::{debug_path, FsPath};
use crate::preferences;
use crate::preferences::{FileView, Preferences};
use crate::projects;
use crate::save;
use crate::save::{
    save_preferences, PreferencesSave, SaveRequest, SaveRequestView, SaveView,
};
use crate::spawn::{PlacesView, PreparationView, ReplyView, RequestView, SpawnView};
use crate::text;
use vstd::prelude::*;
use vstd::string::*;

verus! {

/// The error for a folder that could not be created, given how its path is shown.
pub open spec fn create_error_of(shown_path: Seq<char>, reason: Seq<char>) -> Seq<char> {
    "could not create "@ + shown_path + ": "@ + reason
}

/// Words the error for a folder that could not be created, given how its path is shown.
pub fn create_error(shown_path: &str, reason: &str) -> (res: String)
    ensures
        res@ == create_error_of(shown_path@, reason@),
{
    "could not create ".to_owned().concat(shown_path).concat(": ").concat(reason)
}

/// What is to be done next in changing the folder.
#[derive(Debug, PartialEq, Eq)]
pub enum ChangeRequest {
    /// Create a directory and its parents.
    CreateDir { path: FsPath },
    /// Look up the application's data directory.
    LookUpAppDataDir,
    /// Write a file.
    WriteFile { path: FsPath, text: String },
    /// Stop the backend and clear its port.
    KillBackend,
    /// Start the backend.
    SpawnBackend,
    /// Wait for the backend.
    AwaitBackend,
    /// Answer whoever asked for the change.
    Answer { result: Result<(), String> },
}

/// What came of a request.
#[derive(Debug, PartialEq, Eq)]
pub enum ChangeReply {
    /// It was done, or it failed for a reason.
    Done { result: Result<(), String> },
    /// The application's data directory.
    AppDataDir { dir: FsPath },
}

/// How far a change of the folder has come.
#[derive(Debug, PartialEq, Eq)]
pub enum FolderChange {
    CreateFolder { folder: String },
    LookUpAppDataDir { folder: String },
    Save { save: PreferencesSave },
    KillBackend,
    SpawnBackend,
    AwaitBackend,
    Finished { result: Result<(), String> },
}

/// What a [`ChangeRequest`] says.
pub enum ChangeRequestView {
    CreateDir { path: Seq<u8> },
    LookUpAppDataDir,
    WriteFile { path: Seq<u8>, text: Seq<char> },
    KillBackend,
    SpawnBackend,
    AwaitBackend,
    Answer { result: Result<(), Seq<char>> },
}

/// What a [`ChangeReply`] says.
pub enum ChangeReplyView {
    Done { result: Result<(), Seq<char>> },
    AppDataDir { dir: Seq<u8> },
}

/// What a [`FolderChange`] says.
pub enum ChangeView {
    CreateFolder { folder: Seq<char> },
    LookUpAppDataDir { folder: Seq<char> },
    Save { save: SaveView },
    KillBackend,
    SpawnBackend,
    AwaitBackend,
    Finished { result: Result<(), Seq<char>> },
}

impl View for ChangeRequest {
    type V = ChangeRequestView;

    open spec fn view(&self) -> ChangeRequestView {
        match *self {
            ChangeRequest::CreateDir { path } => ChangeRequestView::CreateDir { path: path@ },
            ChangeRequest::LookUpAppDataDir => ChangeRequestView::LookUpAppDataDir,
            ChangeRequest::WriteFile { path, text } => ChangeRequestView::WriteFile {
                path: path@,
                text: text@,
            },
            ChangeRequest::KillBackend => ChangeRequestView::KillBackend,
            ChangeRequest::SpawnBackend => ChangeRequestView::SpawnBackend,
            ChangeRequest::AwaitBackend => ChangeRequestView::AwaitBackend,
            ChangeRequest::Answer { result } => ChangeRequestView::Answer {
                result: save::result_view(result),
            },
        }
    }
}

impl View for ChangeReply {
    type V = ChangeReplyView;

    open spec fn view(&self) -> ChangeReplyView {
        match *self {
            ChangeReply::Done { result } => ChangeReplyView::Done { result: save::result_view(result) },
            ChangeReply::AppDataDir { dir } => ChangeReplyView::AppDataDir { dir: dir@ },
        }
    }
}

impl View for FolderChange {
    type V = ChangeView;

    open spec fn view(&self) -> ChangeView {
        match *self {
            FolderChange::CreateFolder { folder } => ChangeView::CreateFolder { folder: folder@ },
            FolderChange::LookUpAppDataDir { folder } => ChangeView::LookUpAppDataDir {
                folder: folder@,
            },
            FolderChange::Save { save } => ChangeView::Save { save: save@ },
            FolderChange::KillBackend => ChangeView::KillBackend,
            FolderChange::SpawnBackend => ChangeView::SpawnBackend,
            FolderChange::AwaitBackend => ChangeView::AwaitBackend,
            FolderChange::Finished { result } => ChangeView::Finished {
                result: save::result_view(result),
            },
        }
    }
}

/// A step of saving the preferences as a step of changing the folder.
pub open spec fn save_step(request: SaveRequestView) -> ChangeRequestView {
    match request {
        SaveRequestView::CreateDir { path } => ChangeRequestView::CreateDir { path },
        SaveRequestView::WriteFile { path, text } => ChangeRequestView::WriteFile { path, text },
        SaveRequestView::Answer { result } => ChangeRequestView::Answer { result },
    }
}

/// What follows a step of saving the preferences: once they are saved, the backend is restarted;
/// where they could not be saved, the change ends.
pub open spec fn after_save_of(save: SaveView) -> ChangeView {
    match save {
        SaveView::Finished { result } => match result {
            Ok(()) => ChangeView::KillBackend,
            Err(reason) => ChangeView::Finished { result: Err(reason) },
        },
        _ => ChangeView::Save { save },
    }
}

impl ChangeView {
    /// What is to be done next.
    pub open spec fn request(self) -> ChangeRequestView {
        match self {
            ChangeView::CreateFolder { folder } => ChangeRequestView::CreateDir {
                path: paths::bytes_of(folder),
            },
            ChangeView::LookUpAppDataDir { folder } => ChangeRequestView::LookUpAppDataDir,
            ChangeView::Save { save } => save_step(save.request()),
            ChangeView::KillBackend => ChangeRequestView::KillBackend,
            ChangeView::SpawnBackend => ChangeRequestView::SpawnBackend,
            ChangeView::AwaitBackend => ChangeRequestView::AwaitBackend,
            ChangeView::Finished { result } => ChangeRequestView::Answer { result },
        }
    }

    /// What follows when a request was done or failed. A folder that cannot be created and
    /// preferences that cannot be saved end the change with an error, while the backend's restart
    /// goes on regardless.
    pub open spec fn done(self, result: Result<(), Seq<char>>) -> ChangeView {
        match self {
            ChangeView::CreateFolder { folder } => match result {
                Ok(()) => ChangeView::LookUpAppDataDir { folder },
                Err(reason) => ChangeView::Finished {
                    result: Err(create_error_of(paths::path_debug(folder), reason)),
                },
            },
            ChangeView::LookUpAppDataDir { folder } => self,
            ChangeView::Save { save } => after_save_of(save.replied(result)),
            ChangeView::KillBackend => ChangeView::SpawnBackend,
            ChangeView::SpawnBackend => ChangeView::AwaitBackend,
            ChangeView::AwaitBackend => ChangeView::Finished { result: Ok(()) },
            ChangeView::Finished { result: answer } => self,
        }
    }

    /// The change after a reply. A reply that does not fit the request changes nothing.
    pub open spec fn replied(self, reply: ChangeReplyView) -> ChangeView {
        match reply {
            ChangeReplyView::Done { result } => self.done(result),
            ChangeReplyView::AppDataDir { dir } => match self {
                ChangeView::LookUpAppDataDir { folder } => ChangeView::Save {
                    save: SaveView::CreateDir {
                        app_data_dir: dir,
                        prefs: Some(paths::bytes_of(folder)),
                    },
                },
                _ => self,
            },
        }
    }
}

/// Begins to change the folder that holds the user's projects.
pub fn set_projects_dir(folder: String) -> (res: FolderChange)
    ensures
        res@ == (ChangeView::CreateFolder { folder: folder@ }),
{
    FolderChange::CreateFolder { folder }
}

fn folder_error(folder: &str, reason: &str) -> (res: String)
    ensures
        res@ == create_error_of(paths::path_debug(folder@), reason@),
{
    create_error(debug_path(folder).as_str(), reason)
}

fn save_request(save: &PreferencesSave) -> (res: ChangeRequest)
    ensures
        res@ == save_step(save@.request()),
{
    match save.request() {
        SaveRequest::CreateDir { path } => ChangeRequest::CreateDir { path },
        SaveRequest::WriteFile { path, text } => ChangeRequest::WriteFile { path, text },
        SaveRequest::Answer { result } => ChangeRequest::Answer { result },
    }
}

fn after_save(save: PreferencesSave) -> (res: FolderChange)
    ensures
        res@ == after_save_of(save@),
{
    match save {
        PreferencesSave::Finished { result } => match result {
            Ok(()) => FolderChange::KillBackend,
            Err(reason) => FolderChange::Finished { result: Err(reason) },
        },
        other => FolderChange::Save { save: other },
    }
}

impl FolderChange {
    /// Says what is to be done next.
    pub fn request(&self) -> (res: ChangeRequest)
        ensures
            res@ == self@.request(),
    {
        match self {
            FolderChange::CreateFolder { folder } => ChangeRequest::CreateDir {
                path: FsPath::from_text(folder.as_str()),
            },
            FolderChange::LookUpAppDataDir { folder: _ } => ChangeRequest::LookUpAppDataDir,
            FolderChange::Save { save } => save_request(save),
            FolderChange::KillBackend => ChangeRequest::KillBackend,
            FolderChange::SpawnBackend => ChangeRequest::SpawnBackend,
            FolderChange::AwaitBackend => ChangeRequest::AwaitBackend,
            FolderChange::Finished { result } => ChangeRequest::Answer {
                result: match result {
                    Ok(()) => Ok(()),
                    Err(reason) => Err(reason.clone()),
                },
            },
        }
    }

    /// Takes note of what came of the request.
    pub fn reply(self, reply: ChangeReply) -> (res: FolderChange)
        ensures
            res@ == self@.replied(reply@),
    {
        match (self, reply) {
            (FolderChange::CreateFolder { folder }, ChangeReply::Done { result }) =>
                match result {
                    Ok(()) => FolderChange::LookUpAppDataDir { folder },
                    Err(reason) => FolderChange::Finished {
                        result: Err(folder_error(folder.as_str(), reason.as_str())),
                    },
                },
            (FolderChange::LookUpAppDataDir { folder }, ChangeReply::AppDataDir { dir }) => {
                let prefs = Preferences {
                    projects_dir: Some(FsPath::from_text(folder.as_str())),
                };
                FolderChange::Save { save: save_preferences(dir, prefs) }
            },
            (FolderChange::Save { save }, ChangeReply::Done { result }) => after_save(
                save.reply(result),
            ),
            (FolderChange::KillBackend, ChangeReply::Done { result: _ }) =>
                FolderChange::SpawnBackend,
            (FolderChange::SpawnBackend, ChangeReply::Done { result: _ }) =>
                FolderChange::AwaitBackend,
            (FolderChange::AwaitBackend, ChangeReply::Done { result: _ }) =>
                FolderChange::Finished { result: Ok(()) },
            (other, _) => other,
        }
    }
}

/// A change after a row of replies.
pub open spec fn change_run(begun: ChangeView, replies: Seq<ChangeReplyView>) -> ChangeView
    decreases replies.len(),
{
    if replies.len() == 0 {
        begun
    } else {
        change_run(begun, replies.drop_last()).replied(replies.last())
    }
}

/// Whether a change has gone past writing the preferences.
pub open spec fn is_saved(change: ChangeView) -> bool {
    ||| change is KillBackend
    ||| change is SpawnBackend
    ||| change is AwaitBackend
    ||| change matches ChangeView::Finished { result } && result is Ok
}

/// Whether the reply at `i` says that the preferences for a folder were written.
pub open spec fn saves(folder: Seq<char>, replies: Seq<ChangeReplyView>, i: int) -> bool {
    let before = change_run(ChangeView::CreateFolder { folder }, replies.take(i));
    &&& 0 <= i < replies.len()
    &&& replies[i] matches ChangeReplyView::Done { result }
    &&& result is Ok
    &&& before matches ChangeView::Save { save: SaveView::WriteFile { app_data_dir: dir, text } }
    &&& before.request() == (ChangeRequestView::WriteFile {
        path: paths::child(dir, "preferences.json"),
        text: preferences::preferences_text(Some(paths::bytes_of(folder))),
    })
}

/// Whether a change is still before the end of writing the preferences, and for which folder.
spec fn is_pending(change: ChangeView, folder: Seq<char>) -> bool {
    match change {
        ChangeView::CreateFolder { folder: f } => f == folder,
        ChangeView::LookUpAppDataDir { folder: f } => f == folder,
        ChangeView::Save { save } => match save {
            SaveView::CreateDir { app_data_dir, prefs } => prefs == Some(
                paths::bytes_of(folder),
            ),
            SaveView::WriteFile { app_data_dir, text } => text == preferences::preferences_text(
                Some(paths::bytes_of(folder)),
            ),
            SaveView::Finished { result } => false,
        },
        ChangeView::Finished { result } => result is Err,
        _ => false,
    }
}

proof fn lemma_saved_or_pending(folder: Seq<char>, replies: Seq<ChangeReplyView>)
    ensures
        ({
            let now = change_run(ChangeView::CreateFolder { folder }, replies);
            ||| is_pending(now, folder)
            ||| is_saved(now) && exists|i: int| saves(folder, replies, i)
        }),
    decreases replies.len(),
{
    if replies.len() > 0 {
        let rest = replies.drop_last();
        let last = replies.len() - 1;
        let before = change_run(ChangeView::CreateFolder { folder }, rest);
        lemma_saved_or_pending(folder, rest);
        assert(replies.take(last) =~= rest);
        if is_pending(before, folder) {
            if before is Save && is_saved(before.replied(replies.last())) {
                assert(saves(folder, replies, last));
            }
        } else {
            let i = choose|i: int| saves(folder, rest, i);
            assert(replies.take(i) =~= rest.take(i));
            assert(saves(folder, replies, i));
        }
    }
}

/// Whatever the replies, the backend is neither stopped nor restarted, and success is not
/// answered, unless the new folder was written to the preferences before.
pub proof fn law_restart_only_when_saved(folder: Seq<char>, replies: Seq<ChangeReplyView>)
    requires
        is_saved(change_run(ChangeView::CreateFolder { folder }, replies)),
    ensures
        exists|i: int| saves(folder, replies, i),
{
    lemma_saved_or_pending(folder, replies);
}

/// A folder that cannot be created is refused at once: nothing is saved, and the backend is left
/// alone.
pub proof fn law_refused_change_has_no_effect(folder: Seq<char>, reason: Seq<char>)
    ensures
        ({
            let begun = ChangeView::CreateFolder { folder };
            let refused = begun.replied(ChangeReplyView::Done { result: Err(reason) });
            &&& begun.request() == (ChangeRequestView::CreateDir {
                path: paths::bytes_of(folder),
            })
            &&& refused.request() == (ChangeRequestView::Answer {
                result: Err(create_error_of(paths::path_debug(folder), reason)),
            })
        }),
{
}

/// A change that cannot be saved is answered with the reason, and the backend is left alone.
pub proof fn law_unsaved_change_keeps_backend(
    save: SaveView,
    result: Result<(), Seq<char>>,
    reason: Seq<char>,
)
    requires
        save.replied(result) == (SaveView::Finished { result: Err(reason) }),
    ensures
        (ChangeView::Save { save }).replied(ChangeReplyView::Done { result }).request() == (
        ChangeRequestView::Answer { result: Err(reason) }),
{
}

/// An answer is final.
pub proof fn law_answer_is_final(result: Result<(), Seq<char>>, reply: ChangeReplyView)
    ensures
        (ChangeView::Finished { result }).replied(reply) == (ChangeView::Finished { result }),
{
}

/// A whole change: the folder is created, the preferences are saved, and then the backend is
/// stopped, started and awaited, in this order.
pub proof fn law_whole_change(folder: Seq<char>, app_data_dir: Seq<u8>)
    ensures
        ({
            let done = ChangeReplyView::Done { result: Ok(()) };
            let s0 = ChangeView::CreateFolder { folder };
            let s1 = s0.replied(done);
            let s2 = s1.replied(ChangeReplyView::AppDataDir { dir: app_data_dir });
            let s3 = s2.replied(done);
            let s4 = s3.replied(done);
            let s5 = s4.replied(done);
            let s6 = s5.replied(done);
            let s7 = s6.replied(done);
            &&& s0.request() == (ChangeRequestView::CreateDir { path: paths::bytes_of(folder) })
            &&& s1.request() is LookUpAppDataDir
            &&& s2.request() == (ChangeRequestView::CreateDir { path: app_data_dir })
            &&& s3.request() == (ChangeRequestView::WriteFile {
                path: paths::child(app_data_dir, "preferences.json"),
                text: preferences::preferences_text(Some(paths::bytes_of(folder))),
            })
            &&& s4.request() is KillBackend
            &&& s5.request() is SpawnBackend
            &&& s6.request() is AwaitBackend
            &&& s7.request() == (ChangeRequestView::Answer { result: Ok(()) })
        }),
{
    preferences::law_chosen_text_is_saveable(folder);
}

/// A change takes effect at once: what it writes is what the next start reads, and that start asks
/// for the folder that was chosen, wherever projects were before, whatever else was made of the
/// file. The settings show that folder as it was asked for.
pub proof fn law_change_takes_effect(
    folder: Seq<char>,
    places: PlacesView,
    parsed: Option<Option<Seq<u8>>>,
    document_dir: Option<Seq<u8>>,
    old_default_is_dir: bool,
)
    ensures
        ({
            let data = places.app_data_dir;
            let chosen = paths::bytes_of(folder);
            let asked = ChangeView::LookUpAppDataDir { folder };
            let writing = asked.replied(ChangeReplyView::AppDataDir { dir: data }).replied(
                ChangeReplyView::Done { result: Ok(()) },
            );
            let reading = SpawnView::Prepare {
                places,
                preparation: PreparationView::ReadPreferences,
            };
            let dir = projects::projects_dir(
                Some(chosen),
                document_dir,
                old_default_is_dir,
                data,
            );
            &&& writing.request() matches ChangeRequestView::WriteFile { path, text }
            &&& reading.request() == Some(RequestView::ReadPreferences { path })
            &&& reading.replied(
                ReplyView::Preferences { file: Some(FileView { text, parsed }) },
            ).request() == Some(RequestView::CreateDir { path: chosen })
            &&& backend::command_of(places.installation, data, dir).env[1] == (
                "PROJECTS_DIR"@,
                chosen,
            )
            &&& text::spelled(dir) == folder
        }),
{
    preferences::law_chosen_text_is_saveable(folder);
    preferences::law_saved_preferences_are_loaded(Some(paths::bytes_of(folder)), parsed);
    projects::law_chosen_folder_reads_back(
        folder,
        document_dir,
        old_default_is_dir,
        places.app_data_dir,
    );
}

/// Once the preferences are saved, the backend is stopped, started and awaited whatever comes of
/// each, and the change succeeds.
pub proof fn law_restart_goes_through(
    stopped: Result<(), Seq<char>>,
    started: Result<(), Seq<char>>,
    awaited: Result<(), Seq<char>>,
)
    ensures
        ({
            let s0 = ChangeView::KillBackend;
            let s1 = s0.replied(ChangeReplyView::Done { result: stopped });
            let s2 = s1.replied(ChangeReplyView::Done { result: started });
            let s3 = s2.replied(ChangeReplyView::Done { result: awaited });
            &&& s0.request() is KillBackend
            &&& s1.request() is SpawnBackend
            &&& s2.request() is AwaitBackend
            &&& s3.request() == (ChangeRequestView::Answer { result: Ok(()) })
        }),
{
}

/// The error for a refused folder shows the folder and the reason.
pub proof fn law_refusal_shows_folder_and_reason(
    folder: Seq<char>,
    shown: Seq<char>,
    reason: Seq<char>,
)
    ensures
        create_error_of(shown, reason) == "could not create "@ + shown + ": "@ + reason,
        (ChangeView::CreateFolder { folder }).replied(
            ChangeReplyView::Done { result: Err(reason) },
        ).request() == (ChangeRequestView::Answer {
            result: Err(
                "could not create "@ + paths::path_debug(folder) + ": "@ + reason,
            ),
        }),
{
}

/// The folder is created, and written to the preferences, as it was asked for, behind the
/// application's data directory; where one of these steps fails, the change is answered with the
/// reason alone.
pub proof fn law_folder_is_saved_as_asked(folder: Seq<char>, data: Seq<u8>, reason: Seq<char>)
    ensures
        ({
            let done = ChangeReplyView::Done { result: Ok(()) };
            let failed = ChangeReplyView::Done { result: Err(reason) };
            let refused = ChangeRequestView::Answer { result: Err(reason) };
            let begun = ChangeView::CreateFolder { folder };
            let made = begun.replied(done).replied(ChangeReplyView::AppDataDir { dir: data });
            let writing = made.replied(done);
            &&& begun.request() == (ChangeRequestView::CreateDir {
                path: vstd::utf8::encode_utf8(folder),
            })
            &&& begun.replied(done).request() is LookUpAppDataDir
            &&& made.request() == (ChangeRequestView::CreateDir { path: data })
            &&& made.replied(failed).request() == refused
            &&& writing.request() == (ChangeRequestView::WriteFile {
                path: data + vstd::utf8::encode_utf8(
                    if data.len() == 0 || data.last() == 47 {
                        "preferences.json"@
                    } else {
                        "/preferences.json"@
                    },
                ),
                text: "{\n  \"projects_dir\": \""@ + preferences::json_chars(folder) + "\"\n}"@,
            })
            &&& writing.replied(failed).request() == refused
            &&& writing.replied(done).request() is KillBackend
        }),
{
    preferences::law_chosen_text_is_saveable(folder);
    preferences::law_preferences_are_one_field(folder);
    save::law_file_is_named_preferences(
        data,
        preferences::preferences_text(Some(vstd::utf8::encode_utf8(folder))),
    );
}

/// A reply that does not fit the request leaves the change where it is.
pub proof fn law_change_waits_for_its_reply(
    folder: Seq<char>,
    save: SaveView,
    dir: Seq<u8>,
    result: Result<(), Seq<char>>,
)
    ensures
        (ChangeView::CreateFolder { folder }).replied(ChangeReplyView::AppDataDir { dir }) == (
        ChangeView::CreateFolder { folder }),
        (ChangeView::LookUpAppDataDir { folder }).replied(ChangeReplyView::Done { result }) == (
        ChangeView::LookUpAppDataDir { folder }),
        (ChangeView::Save { save }).replied(ChangeReplyView::AppDataDir { dir }) == (
        ChangeView::Save { save }),
        ChangeView::KillBackend.replied(ChangeReplyView::AppDataDir { dir }) is KillBackend,
        ChangeView::SpawnBackend.replied(ChangeReplyView::AppDataDir { dir }) is SpawnBackend,
        ChangeView::AwaitBackend.replied(ChangeReplyView::AppDataDir { dir }) is AwaitBackend,
{
}

} // verus!
