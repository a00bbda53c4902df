//! Saving the preferences, one step at a time: the directory is made, the text is made up, and only
//! then is the file touched.

use crate::paths;
use crate::paths::FsPath;
use crate::preferences;
use crate::preferences::{preferences_json, Preferences};
use crate::projects::preferences_path;
use vstd::prelude::*;
use vstd::string::*;

verus! {

/// The view of a result.
pub open spec fn result_view(result: Result<(), String>) -> Result<(), Seq<char>> {
    match result {
        Ok(()) => Ok(()),
        Err(reason) => Err(reason@),
    }
}

/// What is to be done next in saving the preferences.
#[derive(Debug, PartialEq, Eq)]
pub enum SaveRequest {
    /// Create a directory and its parents.
    CreateDir { path: FsPath },
    /// Write a file.
    WriteFile { path: FsPath, text: String },
    /// Answer whoever asked for it.
    Answer { result: Result<(), String> },
}

/// How far saving the preferences has come.
#[derive(Debug, PartialEq, Eq)]
pub enum PreferencesSave {
    CreateDir { app_data_dir: FsPath, prefs: Preferences },
    WriteFile { app_data_dir: FsPath, text: String },
    Finished { result: Result<(), String> },
}

/// What a [`SaveRequest`] says.
pub enum SaveRequestView {
    CreateDir { path: Seq<u8> },
    WriteFile { path: Seq<u8>, text: Seq<char> },
    Answer { result: Result<(), Seq<char>> },
}

/// What a [`PreferencesSave`] says.
pub enum SaveView {
    CreateDir { app_data_dir: Seq<u8>, prefs: Option<Seq<u8>> },
    WriteFile { app_data_dir: Seq<u8>, text: Seq<char> },
    Finished { result: Result<(), Seq<char>> },
}

impl View for SaveRequest {
    type V = SaveRequestView;

    open spec fn view(&self) -> SaveRequestView {
        match *self {
            SaveRequest::CreateDir { path } => SaveRequestView::CreateDir { path: path@ },
            SaveRequest::WriteFile { path, text } => SaveRequestView::WriteFile {
                path: path@,
                text: text@,
            },
            SaveRequest::Answer { result } => SaveRequestView::Answer {
                result: result_view(result),
            },
        }
    }
}

impl View for PreferencesSave {
    type V = SaveView;

    open spec fn view(&self) -> SaveView {
        match *self {
            PreferencesSave::CreateDir { app_data_dir, prefs } => SaveView::CreateDir {
                app_data_dir: app_data_dir@,
                prefs: prefs@,
            },
            PreferencesSave::WriteFile { app_data_dir, text } => SaveView::WriteFile {
                app_data_dir: app_data_dir@,
                text: text@,
            },
            PreferencesSave::Finished { result } => SaveView::Finished {
                result: result_view(result),
            },
        }
    }
}

impl SaveView {
    /// What is to be done next.
    pub open spec fn request(self) -> SaveRequestView {
        match self {
            SaveView::CreateDir { app_data_dir, prefs } => SaveRequestView::CreateDir {
                path: app_data_dir,
            },
            SaveView::WriteFile { app_data_dir, text } => SaveRequestView::WriteFile {
                path: paths::child(app_data_dir, "preferences.json"),
                text,
            },
            SaveView::Finished { result } => SaveRequestView::Answer { result },
        }
    }

    /// The save after a request was done or failed. A failure ends it, and so do preferences that
    /// have no text.
    pub open spec fn replied(self, result: Result<(), Seq<char>>) -> SaveView {
        match self {
            SaveView::CreateDir { app_data_dir, prefs } => match result {
                Ok(()) => if preferences::saveable(prefs) {
                    SaveView::WriteFile {
                        app_data_dir,
                        text: preferences::preferences_text(prefs),
                    }
                } else {
                    SaveView::Finished { result: Err(preferences::unsaveable_error()) }
                },
                Err(reason) => SaveView::Finished { result: Err(reason) },
            },
            SaveView::WriteFile { app_data_dir, text } => SaveView::Finished { result },
            SaveView::Finished { result: answer } => self,
        }
    }
}

/// Begins to save preferences.
pub fn save_preferences(app_data_dir: FsPath, prefs: Preferences) -> (res: PreferencesSave)
    ensures
        res@ == (SaveView::CreateDir { app_data_dir: app_data_dir@, prefs: prefs@ }),
{
    PreferencesSave::CreateDir { app_data_dir, prefs }
}

impl PreferencesSave {
    /// Says what is to be done next.
    pub fn request(&self) -> (res: SaveRequest)
        ensures
            res@ == self@.request(),
    {
        match self {
            PreferencesSave::CreateDir { app_data_dir, prefs: _ } => SaveRequest::CreateDir {
                path: app_data_dir.duplicate(),
            },
            PreferencesSave::WriteFile { app_data_dir, text } => SaveRequest::WriteFile {
                path: preferences_path(app_data_dir),
                text: text.clone(),
            },
            PreferencesSave::Finished { result } => SaveRequest::Answer {
                result: match result {
                    Ok(()) => Ok(()),
                    Err(reason) => Err(reason.clone()),
                },
            },
        }
    }

    /// Takes note of what came of the request.
    pub fn reply(self, result: Result<(), String>) -> (res: PreferencesSave)
        ensures
            res@ == self@.replied(result_view(result)),
    {
        match self {
            PreferencesSave::CreateDir { app_data_dir, prefs } => match result {
                Ok(()) => match preferences_json(&prefs) {
                    Ok(text) => PreferencesSave::WriteFile { app_data_dir, text },
                    Err(reason) => PreferencesSave::Finished { result: Err(reason) },
                },
                Err(reason) => PreferencesSave::Finished { result: Err(reason) },
            },
            PreferencesSave::WriteFile { app_data_dir: _, text: _ } => PreferencesSave::Finished {
                result,
            },
            PreferencesSave::Finished { result: answer } => PreferencesSave::Finished {
                result: answer,
            },
        }
    }
}

/// A save after a row of outcomes.
pub open spec fn save_run(begun: SaveView, outcomes: Seq<Result<(), Seq<char>>>) -> SaveView
    decreases outcomes.len(),
{
    if outcomes.len() == 0 {
        begun
    } else {
        save_run(begun, outcomes.drop_last()).replied(outcomes.last())
    }
}

/// Preferences that have no text leave the file alone: whatever comes of the requests, the file is
/// never written, and the save is answered with an error. That is the one on the path, unless the
/// directory could not be created.
pub proof fn law_unsaveable_leaves_file_alone(
    app_data_dir: Seq<u8>,
    prefs: Option<Seq<u8>>,
    outcomes: Seq<Result<(), Seq<char>>>,
)
    requires
        !preferences::saveable(prefs),
    ensures
        ({
            let now = save_run(SaveView::CreateDir { app_data_dir, prefs }, outcomes);
            &&& now.request() !is WriteFile
            &&& outcomes.len() > 0 ==> now.request() == (SaveRequestView::Answer {
                result: match outcomes[0] {
                    Ok(()) => Err(preferences::unsaveable_error()),
                    Err(reason) => Err(reason),
                },
            })
        }),
    decreases outcomes.len(),
{
    if outcomes.len() > 0 {
        law_unsaveable_leaves_file_alone(app_data_dir, prefs, outcomes.drop_last());
    }
}

/// Preferences that have a text are saved: the directory is created, the text is written to the
/// file in it, and the save is answered with what came of that.
pub proof fn law_saveable_is_written(
    app_data_dir: Seq<u8>,
    prefs: Option<Seq<u8>>,
    outcome: Result<(), Seq<char>>,
)
    requires
        preferences::saveable(prefs),
    ensures
        ({
            let begun = SaveView::CreateDir { app_data_dir, prefs };
            let writing = begun.replied(Ok(()));
            &&& begun.request() == (SaveRequestView::CreateDir { path: app_data_dir })
            &&& writing.request() == (SaveRequestView::WriteFile {
                path: paths::child(app_data_dir, "preferences.json"),
                text: preferences::preferences_text(prefs),
            })
            &&& writing.replied(outcome).request() == (SaveRequestView::Answer {
                result: outcome,
            })
        }),
{
}

/// The file is saved inside the directory that is created for it.
pub proof fn law_saved_inside_created_dir(app_data_dir: Seq<u8>)
    ensures
        paths::inside(paths::child(app_data_dir, "preferences.json"), app_data_dir),
{
    reveal_strlit("preferences.json");
    paths::law_child_stays_inside(app_data_dir, "preferences.json");
}

/// A directory that cannot be created ends the save with the reason, whatever the preferences; and
/// a save that has ended stays so.
pub proof fn law_failure_ends_the_save(
    app_data_dir: Seq<u8>,
    prefs: Option<Seq<u8>>,
    reason: Seq<char>,
    answer: Result<(), Seq<char>>,
    later: Result<(), Seq<char>>,
)
    ensures
        (SaveView::CreateDir { app_data_dir, prefs }).request() == (SaveRequestView::CreateDir {
            path: app_data_dir,
        }),
        (SaveView::CreateDir { app_data_dir, prefs }).replied(Err(reason)).request() == (
        SaveRequestView::Answer { result: Err(reason) }),
        (SaveView::Finished { result: answer }).replied(later).request() == (
        SaveRequestView::Answer { result: answer }),
{
}

/// The file stands behind the directory under the name `preferences.json`, and gets the very text
/// that was made up.
pub proof fn law_file_is_named_preferences(app_data_dir: Seq<u8>, s: Seq<char>)
    ensures
        (SaveView::WriteFile { app_data_dir, text: s }).request() == (SaveRequestView::WriteFile {
            path: app_data_dir + vstd::utf8::encode_utf8(
                if app_data_dir.len() == 0 || app_data_dir.last() == 47 {
                    "preferences.json"@
                } else {
                    "/preferences.json"@
                },
            ),
            text: s,
        }),
{
    reveal_strlit("preferences.json");
    reveal_strlit("/preferences.json");
    assert("/preferences.json"@ =~= seq!['/'] + "preferences.json"@);
    paths::law_child_is_written_behind(app_data_dir, "preferences.json", "/preferences.json");
}

} // verus!
