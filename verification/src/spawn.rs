//! Starting the backend, one step at a time: the port is cleared, the directories are made, the
//! projects folder is looked up, the log is opened, and only then is the process started. What
//! fails on the way ends the start with a message.

use crate::backend;
use crate::backend::{
    backend_command, log_failure, log_path, start_failure, BackendCommand, CommandView,
    BACKEND_PORT,
};
use crate::paths;
use crate::paths::FsPath;
use crate::preferences;
use crate::preferences::{load_preferences, FileView, PreferencesFile};
use crate::projects;
use crate::projects::{
    backend_dir, preferences_path, resolve_projects_dir, uv_path, Installation,
    ProjectsDirSearch, SearchView,
};
use crate::stale;
use crate::stale::{kill_stale_backend_on_port, lsof_args, StaleStep, StaleStepView};
use crate::text;
use vstd::prelude::*;
use vstd::string::*;

verus! {

/// The places that starting the backend depends on.
#[derive(Debug, PartialEq, Eq)]
pub struct Places {
    pub installation: Installation,
    pub app_data_dir: FsPath,
}

/// What is to be done next in starting the backend.
#[derive(Debug, PartialEq, Eq)]
pub enum SpawnRequest {
    /// Run `lsof` with these arguments.
    ListPort { args: Vec<String> },
    /// Take these steps.
    ClearPort { steps: Vec<StaleStep> },
    /// Look up how the application was installed.
    LookUpInstallation,
    /// Look up the application's data directory.
    LookUpAppDataDir,
    /// Create a directory and its parents.
    CreateDir { path: FsPath },
    /// Read the preferences file.
    ReadPreferences { path: FsPath },
    /// Look up the documents directory.
    LookUpDocumentDir,
    /// Find out whether there is a directory.
    ProbeDir { path: FsPath },
    /// Create the file that receives what the process prints, or empty it where it is there.
    CreateLog { path: FsPath },
    /// Make a second handle of that file, so that the process can have one for its output and one
    /// for its errors.
    ShareLog,
    /// Start the process.
    Start { command: BackendCommand },
    /// Give up with this message.
    Abort { message: String },
}

/// What came of a request.
#[derive(Debug, PartialEq, Eq)]
pub enum SpawnReply {
    /// What `lsof` printed, or nothing where it could not be run.
    Listed { output: Option<Vec<u8>> },
    /// It was done.
    Done,
    /// How the application was installed.
    Installation { installation: Installation },
    /// The application's data directory.
    AppDataDir { app_data_dir: FsPath },
    /// The preferences file, or nothing where it cannot be read.
    Preferences { file: Option<PreferencesFile> },
    /// The documents directory, if there is one.
    DocumentDir { dir: Option<FsPath> },
    /// Whether there is a directory.
    Probed { is_dir: bool },
    /// It failed for a reason.
    Failed { reason: String },
    /// The log could not be created. How its path is shown is gone by where the path is no text.
    LogFailed { shown_path: String, reason: String },
    /// The process could not be started. How its program and its directory are shown is gone by
    /// where they are no text.
    StartFailed { shown_program: String, shown_dir: String, reason: String },
}

/// How far things are made ready, once the places are known.
#[derive(Debug, PartialEq, Eq)]
pub enum Preparation {
    CreateAppDataDir,
    ReadPreferences,
    Search { search: ProjectsDirSearch },
    CreateProjectsDir { dir: FsPath },
    CreateLog { dir: FsPath },
    ShareLog { dir: FsPath },
    Start { dir: FsPath },
}

/// How far the backend's start has come.
#[derive(Debug, PartialEq, Eq)]
pub enum Spawn {
    ListPort,
    ClearPort { output: Option<Vec<u8>> },
    LookUpInstallation,
    LookUpAppDataDir { installation: Installation },
    Prepare { places: Places, preparation: Preparation },
    Started,
    Failed { message: String },
}

/// What a [`SpawnRequest`] says.
#[verifier::ext_equal]
pub enum RequestView {
    ListPort { args: Seq<Seq<char>> },
    ClearPort { steps: Seq<StaleStepView> },
    LookUpInstallation,
    LookUpAppDataDir,
    CreateDir { path: Seq<u8> },
    ReadPreferences { path: Seq<u8> },
    LookUpDocumentDir,
    ProbeDir { path: Seq<u8> },
    CreateLog { path: Seq<u8> },
    ShareLog,
    Start { command: CommandView },
    Abort { message: Seq<char> },
}

/// What a [`Places`] says.
pub struct PlacesView {
    pub installation: Installation,
    pub app_data_dir: Seq<u8>,
}

/// What a [`SpawnReply`] says.
pub enum ReplyView {
    Listed { output: Option<Seq<u8>> },
    Done,
    Installation { installation: Installation },
    AppDataDir { app_data_dir: Seq<u8> },
    Preferences { file: Option<FileView> },
    DocumentDir { dir: Option<Seq<u8>> },
    Probed { is_dir: bool },
    Failed { reason: Seq<char> },
    LogFailed { shown_path: Seq<char>, reason: Seq<char> },
    StartFailed { shown_program: Seq<char>, shown_dir: Seq<char>, reason: Seq<char> },
}

/// What a [`Preparation`] says.
pub enum PreparationView {
    CreateAppDataDir,
    ReadPreferences,
    Search { search: SearchView },
    CreateProjectsDir { dir: Seq<u8> },
    CreateLog { dir: Seq<u8> },
    ShareLog { dir: Seq<u8> },
    Start { dir: Seq<u8> },
}

/// What a [`Spawn`] says.
pub enum SpawnView {
    ListPort,
    ClearPort { output: Option<Seq<u8>> },
    LookUpInstallation,
    LookUpAppDataDir { installation: Installation },
    Prepare { places: PlacesView, preparation: PreparationView },
    Started,
    Failed { message: Seq<char> },
}

/// The view of optional bytes.
pub open spec fn optional_bytes(bytes: Option<Vec<u8>>) -> Option<Seq<u8>> {
    match bytes {
        Some(b) => Some(b@),
        None => None,
    }
}

impl View for Places {
    type V = PlacesView;

    open spec fn view(&self) -> PlacesView {
        PlacesView { installation: self.installation, app_data_dir: self.app_data_dir@ }
    }
}

impl View for SpawnRequest {
    type V = RequestView;

    open spec fn view(&self) -> RequestView {
        match *self {
            SpawnRequest::ListPort { args } => RequestView::ListPort { args: text::texts(args@) },
            SpawnRequest::ClearPort { steps } => RequestView::ClearPort {
                steps: stale::stale_step_views(steps@),
            },
            SpawnRequest::LookUpInstallation => RequestView::LookUpInstallation,
            SpawnRequest::LookUpAppDataDir => RequestView::LookUpAppDataDir,
            SpawnRequest::CreateDir { path } => RequestView::CreateDir { path: path@ },
            SpawnRequest::ReadPreferences { path } => RequestView::ReadPreferences {
                path: path@,
            },
            SpawnRequest::LookUpDocumentDir => RequestView::LookUpDocumentDir,
            SpawnRequest::ProbeDir { path } => RequestView::ProbeDir { path: path@ },
            SpawnRequest::CreateLog { path } => RequestView::CreateLog { path: path@ },
            SpawnRequest::ShareLog => RequestView::ShareLog,
            SpawnRequest::Start { command } => RequestView::Start { command: command@ },
            SpawnRequest::Abort { message } => RequestView::Abort { message: message@ },
        }
    }
}

impl View for SpawnReply {
    type V = ReplyView;

    open spec fn view(&self) -> ReplyView {
        match *self {
            SpawnReply::Listed { output } => ReplyView::Listed { output: optional_bytes(output) },
            SpawnReply::Done => ReplyView::Done,
            SpawnReply::Installation { installation } => ReplyView::Installation { installation },
            SpawnReply::AppDataDir { app_data_dir } => ReplyView::AppDataDir {
                app_data_dir: app_data_dir@,
            },
            SpawnReply::Preferences { file } => ReplyView::Preferences {
                file: preferences::optional_file(file),
            },
            SpawnReply::DocumentDir { dir } => ReplyView::DocumentDir {
                dir: projects::optional_path(dir),
            },
            SpawnReply::Probed { is_dir } => ReplyView::Probed { is_dir },
            SpawnReply::Failed { reason } => ReplyView::Failed { reason: reason@ },
            SpawnReply::LogFailed { shown_path, reason } => ReplyView::LogFailed {
                shown_path: shown_path@,
                reason: reason@,
            },
            SpawnReply::StartFailed { shown_program, shown_dir, reason } =>
                ReplyView::StartFailed {
                    shown_program: shown_program@,
                    shown_dir: shown_dir@,
                    reason: reason@,
                },
        }
    }
}

impl View for Preparation {
    type V = PreparationView;

    open spec fn view(&self) -> PreparationView {
        match *self {
            Preparation::CreateAppDataDir => PreparationView::CreateAppDataDir,
            Preparation::ReadPreferences => PreparationView::ReadPreferences,
            Preparation::Search { search } => PreparationView::Search { search: search@ },
            Preparation::CreateProjectsDir { dir } => PreparationView::CreateProjectsDir {
                dir: dir@,
            },
            Preparation::CreateLog { dir } => PreparationView::CreateLog { dir: dir@ },
            Preparation::ShareLog { dir } => PreparationView::ShareLog { dir: dir@ },
            Preparation::Start { dir } => PreparationView::Start { dir: dir@ },
        }
    }
}

impl View for Spawn {
    type V = SpawnView;

    open spec fn view(&self) -> SpawnView {
        match *self {
            Spawn::ListPort => SpawnView::ListPort,
            Spawn::ClearPort { output } => SpawnView::ClearPort { output: optional_bytes(output) },
            Spawn::LookUpInstallation => SpawnView::LookUpInstallation,
            Spawn::LookUpAppDataDir { installation } => SpawnView::LookUpAppDataDir {
                installation,
            },
            Spawn::Prepare { places, preparation } => SpawnView::Prepare {
                places: places@,
                preparation: preparation@,
            },
            Spawn::Started => SpawnView::Started,
            Spawn::Failed { message } => SpawnView::Failed { message: message@ },
        }
    }
}

/// What follows a step of the search for the projects folder.
pub open spec fn after_search_of(search: SearchView) -> PreparationView {
    match search {
        SearchView::Found { dir } => PreparationView::CreateProjectsDir { dir },
        _ => PreparationView::Search { search },
    }
}

impl PlacesView {
    /// What is to be done next in making things ready.
    pub open spec fn request(self, preparation: PreparationView) -> Option<RequestView> {
        match preparation {
            PreparationView::CreateAppDataDir => Some(
                RequestView::CreateDir { path: self.app_data_dir },
            ),
            PreparationView::ReadPreferences => Some(
                RequestView::ReadPreferences {
                    path: paths::child(self.app_data_dir, "preferences.json"),
                },
            ),
            PreparationView::Search { search } => match search {
                SearchView::AskDocumentDir { app_data_dir } => Some(
                    RequestView::LookUpDocumentDir,
                ),
                SearchView::AskIsDir { old_default, app_data_dir } => Some(
                    RequestView::ProbeDir { path: old_default },
                ),
                SearchView::Found { dir } => None,
            },
            PreparationView::CreateProjectsDir { dir } => Some(
                RequestView::CreateDir { path: dir },
            ),
            PreparationView::CreateLog { dir } => Some(
                RequestView::CreateLog { path: backend::log_path_of(self.app_data_dir) },
            ),
            PreparationView::ShareLog { dir } => Some(RequestView::ShareLog),
            PreparationView::Start { dir } => Some(
                RequestView::Start {
                    command: backend::command_of(self.installation, self.app_data_dir, dir),
                },
            ),
        }
    }

    /// How far things are made ready after a reply that is no failure. A reply that does not fit
    /// changes nothing.
    pub open spec fn replied(
        self,
        preparation: PreparationView,
        reply: ReplyView,
    ) -> SpawnView {
        let next = match (preparation, reply) {
            (PreparationView::CreateAppDataDir, ReplyView::Done) =>
                PreparationView::ReadPreferences,
            (PreparationView::ReadPreferences, ReplyView::Preferences { file }) =>
                after_search_of(SearchView::begun(preferences::loaded(file), self.app_data_dir)),
            (PreparationView::Search { search }, ReplyView::DocumentDir { dir }) =>
                after_search_of(search.told_document_dir(dir)),
            (PreparationView::Search { search }, ReplyView::Probed { is_dir }) =>
                after_search_of(search.told_is_dir(is_dir)),
            (PreparationView::CreateProjectsDir { dir }, ReplyView::Done) =>
                PreparationView::CreateLog { dir },
            (PreparationView::CreateLog { dir }, ReplyView::Done) => PreparationView::ShareLog {
                dir,
            },
            (PreparationView::ShareLog { dir }, ReplyView::Done) => PreparationView::Start {
                dir,
            },
            (other, _) => other,
        };
        match (preparation, reply) {
            (PreparationView::Start { dir }, ReplyView::Done) => SpawnView::Started,
            _ => SpawnView::Prepare { places: self, preparation: next },
        }
    }
}

impl SpawnView {
    /// What is to be done next: nothing once the process was started.
    pub open spec fn request(self) -> Option<RequestView> {
        match self {
            SpawnView::ListPort => Some(
                RequestView::ListPort { args: stale::lsof_args_of(BACKEND_PORT as nat) },
            ),
            SpawnView::ClearPort { output } => Some(
                RequestView::ClearPort { steps: stale::steps_for(BACKEND_PORT as nat, output) },
            ),
            SpawnView::LookUpInstallation => Some(RequestView::LookUpInstallation),
            SpawnView::LookUpAppDataDir { installation } => Some(RequestView::LookUpAppDataDir),
            SpawnView::Prepare { places, preparation } => places.request(preparation),
            SpawnView::Started => None,
            SpawnView::Failed { message } => Some(RequestView::Abort { message }),
        }
    }

    /// What could not be done where the request fails, if it can fail for a bare reason.
    pub open spec fn complaint(self) -> Option<Seq<char>> {
        match self {
            SpawnView::LookUpInstallation => Some("could not resolve resource dir"@),
            SpawnView::LookUpAppDataDir { installation } => Some(
                "could not resolve app data dir"@,
            ),
            SpawnView::Prepare { places, preparation } => match preparation {
                PreparationView::CreateAppDataDir => Some("could not create app data dir"@),
                PreparationView::CreateProjectsDir { dir } => Some(
                    "could not create projects dir"@,
                ),
                PreparationView::ShareLog { dir } => Some("could not clone backend log handle"@),
                _ => None,
            },
            _ => None,
        }
    }

    /// What is said where the request failed. Nothing where the reply is no failure of this
    /// request.
    pub open spec fn failure(self, reply: ReplyView) -> Option<Seq<char>> {
        match reply {
            ReplyView::Failed { reason } => match self.complaint() {
                Some(complaint) => Some(complaint + ": "@ + reason),
                None => None,
            },
            ReplyView::LogFailed { shown_path, reason } => match self {
                SpawnView::Prepare { places, preparation: PreparationView::CreateLog { dir } } =>
                    Some(
                        backend::log_failure_of(
                            paths::shown_of(
                                backend::log_path_of(places.app_data_dir),
                                shown_path,
                            ),
                            reason,
                        ),
                    ),
                _ => None,
            },
            ReplyView::StartFailed { shown_program, shown_dir, reason } => match self {
                SpawnView::Prepare { places, preparation: PreparationView::Start { dir } } => Some(
                    backend::start_failure_of(
                        paths::shown_of(
                            projects::uv_path_of(places.installation),
                            shown_program,
                        ),
                        paths::shown_of(
                            projects::backend_dir_of(places.installation),
                            shown_dir,
                        ),
                        reason,
                    ),
                ),
                _ => None,
            },
            _ => None,
        }
    }

    /// The start after a reply. A failure ends it; a reply that does not fit the request changes
    /// nothing.
    pub open spec fn replied(self, reply: ReplyView) -> SpawnView {
        match self.failure(reply) {
            Some(message) => SpawnView::Failed { message },
            None => match (self, reply) {
                (SpawnView::ListPort, ReplyView::Listed { output }) => SpawnView::ClearPort {
                    output,
                },
                (SpawnView::ClearPort { output }, ReplyView::Done) =>
                    SpawnView::LookUpInstallation,
                (SpawnView::LookUpInstallation, ReplyView::Installation { installation }) =>
                    SpawnView::LookUpAppDataDir { installation },
                (
                    SpawnView::LookUpAppDataDir { installation },
                    ReplyView::AppDataDir { app_data_dir },
                ) => SpawnView::Prepare {
                    places: PlacesView { installation, app_data_dir },
                    preparation: PreparationView::CreateAppDataDir,
                },
                (SpawnView::Prepare { places, preparation }, _) => places.replied(
                    preparation,
                    reply,
                ),
                _ => self,
            },
        }
    }
}

/// Begins to start the backend.
pub fn spawn_backend() -> (res: Spawn)
    ensures
        res@ == SpawnView::ListPort,
{
    Spawn::ListPort
}

fn after_search(search: ProjectsDirSearch) -> (res: Preparation)
    ensures
        res@ == after_search_of(search@),
{
    match search {
        ProjectsDirSearch::Found { dir } => Preparation::CreateProjectsDir { dir },
        other => Preparation::Search { search: other },
    }
}

/// The view of an optional request.
pub open spec fn optional_request(request: Option<SpawnRequest>) -> Option<RequestView> {
    match request {
        Some(r) => Some(r@),
        None => None,
    }
}

impl Places {
    fn request(&self, preparation: &Preparation) -> (res: Option<SpawnRequest>)
        ensures
            optional_request(res) == self@.request(preparation@),
    {
        match preparation {
            Preparation::CreateAppDataDir => Some(
                SpawnRequest::CreateDir { path: self.app_data_dir.duplicate() },
            ),
            Preparation::ReadPreferences => Some(
                SpawnRequest::ReadPreferences { path: preferences_path(&self.app_data_dir) },
            ),
            Preparation::Search { search } => match search {
                ProjectsDirSearch::AskDocumentDir { app_data_dir: _ } => Some(
                    SpawnRequest::LookUpDocumentDir,
                ),
                ProjectsDirSearch::AskIsDir { old_default, app_data_dir: _ } => Some(
                    SpawnRequest::ProbeDir { path: old_default.duplicate() },
                ),
                ProjectsDirSearch::Found { dir: _ } => None,
            },
            Preparation::CreateProjectsDir { dir } => Some(
                SpawnRequest::CreateDir { path: dir.duplicate() },
            ),
            Preparation::CreateLog { dir: _ } => Some(
                SpawnRequest::CreateLog { path: log_path(&self.app_data_dir) },
            ),
            Preparation::ShareLog { dir: _ } => Some(SpawnRequest::ShareLog),
            Preparation::Start { dir } => Some(
                SpawnRequest::Start {
                    command: backend_command(&self.installation, &self.app_data_dir, dir),
                },
            ),
        }
    }

    fn reply(self, preparation: Preparation, reply: SpawnReply) -> (res: Spawn)
        ensures
            res@ == self@.replied(preparation@, reply@),
    {
        let next = match (preparation, reply) {
            (Preparation::CreateAppDataDir, SpawnReply::Done) => Preparation::ReadPreferences,
            (Preparation::ReadPreferences, SpawnReply::Preferences { file }) => after_search(
                resolve_projects_dir(load_preferences(file), self.app_data_dir.duplicate()),
            ),
            (Preparation::Search { search }, SpawnReply::DocumentDir { dir }) => after_search(
                search.told_document_dir(dir),
            ),
            (Preparation::Search { search }, SpawnReply::Probed { is_dir }) => after_search(
                search.told_is_dir(is_dir),
            ),
            (Preparation::CreateProjectsDir { dir }, SpawnReply::Done) => Preparation::CreateLog {
                dir,
            },
            (Preparation::CreateLog { dir }, SpawnReply::Done) => Preparation::ShareLog { dir },
            (Preparation::ShareLog { dir }, SpawnReply::Done) => Preparation::Start { dir },
            (Preparation::Start { dir: _ }, SpawnReply::Done) => {
                return Spawn::Started;
            },
            (other, _) => other,
        };
        Spawn::Prepare { places: self, preparation: next }
    }
}

impl Spawn {
    /// Says what is to be done next.
    pub fn request(&self) -> (res: Option<SpawnRequest>)
        ensures
            optional_request(res) == self@.request(),
    {
        match self {
            Spawn::ListPort => Some(SpawnRequest::ListPort { args: lsof_args(BACKEND_PORT) }),
            Spawn::ClearPort { output } => {
                let steps = match output {
                    Some(bytes) => kill_stale_backend_on_port(
                        BACKEND_PORT,
                        Some(bytes.as_slice()),
                    ),
                    None => kill_stale_backend_on_port(BACKEND_PORT, None),
                };
                Some(SpawnRequest::ClearPort { steps })
            },
            Spawn::LookUpInstallation => Some(SpawnRequest::LookUpInstallation),
            Spawn::LookUpAppDataDir { installation: _ } => Some(SpawnRequest::LookUpAppDataDir),
            Spawn::Prepare { places, preparation } => places.request(preparation),
            Spawn::Started => None,
            Spawn::Failed { message } => Some(SpawnRequest::Abort { message: message.clone() }),
        }
    }

    fn complaint(&self) -> (res: Option<String>)
        ensures
            text::optional_text(res) == self@.complaint(),
    {
        match self {
            Spawn::LookUpInstallation => Some("could not resolve resource dir".to_owned()),
            Spawn::LookUpAppDataDir { installation: _ } => Some(
                "could not resolve app data dir".to_owned(),
            ),
            Spawn::Prepare { places: _, preparation } => match preparation {
                Preparation::CreateAppDataDir => Some("could not create app data dir".to_owned()),
                Preparation::CreateProjectsDir { dir: _ } => Some(
                    "could not create projects dir".to_owned(),
                ),
                Preparation::ShareLog { dir: _ } => Some(
                    "could not clone backend log handle".to_owned(),
                ),
                _ => None,
            },
            _ => None,
        }
    }

    fn failure(&self, reply: &SpawnReply) -> (res: Option<String>)
        ensures
            text::optional_text(res) == self@.failure(reply@),
    {
        match reply {
            SpawnReply::Failed { reason } => match self.complaint() {
                Some(complaint) => Some(complaint.concat(": ").concat(reason.as_str())),
                None => None,
            },
            SpawnReply::LogFailed { shown_path, reason } => match self {
                Spawn::Prepare { places, preparation: Preparation::CreateLog { dir: _ } } => {
                    let path = log_path(&places.app_data_dir).shown(shown_path.as_str());
                    Some(log_failure(path.as_str(), reason.as_str()))
                },
                _ => None,
            },
            SpawnReply::StartFailed { shown_program, shown_dir, reason } => match self {
                Spawn::Prepare { places, preparation: Preparation::Start { dir: _ } } => {
                    let program = uv_path(&places.installation).shown(shown_program.as_str());
                    let dir = backend_dir(&places.installation).shown(shown_dir.as_str());
                    Some(start_failure(program.as_str(), dir.as_str(), reason.as_str()))
                },
                _ => None,
            },
            _ => None,
        }
    }

    /// Takes note of what came of the request.
    pub fn reply(self, reply: SpawnReply) -> (res: Spawn)
        ensures
            res@ == self@.replied(reply@),
    {
        if let Some(message) = self.failure(&reply) {
            return Spawn::Failed { message };
        }
        match (self, reply) {
            (Spawn::ListPort, SpawnReply::Listed { output }) => Spawn::ClearPort { output },
            (Spawn::ClearPort { output: _ }, SpawnReply::Done) => Spawn::LookUpInstallation,
            (Spawn::LookUpInstallation, SpawnReply::Installation { installation }) =>
                Spawn::LookUpAppDataDir { installation },
            (
                Spawn::LookUpAppDataDir { installation },
                SpawnReply::AppDataDir { app_data_dir },
            ) => Spawn::Prepare {
                places: Places { installation, app_data_dir },
                preparation: Preparation::CreateAppDataDir,
            },
            (Spawn::Prepare { places, preparation }, reply) => places.reply(preparation, reply),
            (other, _) => other,
        }
    }
}

impl SpawnView {
    /// Whether this start can come up: one whose search has ended has left the search behind.
    pub open spec fn well_formed(self) -> bool {
        !(self matches SpawnView::Prepare {
            places,
            preparation: PreparationView::Search { search: SearchView::Found { dir } },
        })
    }

    /// Whether this start is at some point of making things ready.
    pub open spec fn is_at(self, places: PlacesView, preparation: PreparationView) -> bool {
        self == (SpawnView::Prepare { places, preparation })
    }

    /// The search for the projects folder once this start got a reply, if the reply is part of
    /// that search.
    pub open spec fn searched(self, reply: ReplyView) -> Option<SearchView> {
        match (self, reply) {
            (
                SpawnView::Prepare { places, preparation: PreparationView::ReadPreferences },
                ReplyView::Preferences { file },
            ) => Some(SearchView::begun(preferences::loaded(file), places.app_data_dir)),
            (
                SpawnView::Prepare { places, preparation: PreparationView::Search { search } },
                ReplyView::DocumentDir { dir },
            ) => Some(search.told_document_dir(dir)),
            (
                SpawnView::Prepare { places, preparation: PreparationView::Search { search } },
                ReplyView::Probed { is_dir },
            ) => Some(search.told_is_dir(is_dir)),
            _ => None,
        }
    }
}

/// A start stays well formed, and it asks for something until the process was started.
pub proof fn law_start_never_gets_stuck(spawn: SpawnView, reply: ReplyView)
    requires
        spawn.well_formed(),
    ensures
        SpawnView::ListPort.well_formed(),
        spawn.replied(reply).well_formed(),
        spawn.request() is None <==> spawn is Started,
{
}

/// The process is started only when a second handle of its log was made just before; that only
/// when the log was created; the log only when the projects folder was; and that one only when
/// the search for it has ended there.
pub proof fn law_start_comes_last(
    spawn: SpawnView,
    reply: ReplyView,
    places: PlacesView,
    dir: Seq<u8>,
)
    requires
        spawn.replied(reply) != spawn,
    ensures
        spawn.replied(reply) is Started ==> {
            &&& reply is Done
            &&& spawn.request() matches Some(RequestView::Start { command })
        },
        spawn.replied(reply).is_at(places, PreparationView::Start { dir }) ==> {
            &&& reply is Done
            &&& spawn.is_at(places, PreparationView::ShareLog { dir })
            &&& spawn.request() == Some(RequestView::ShareLog)
        },
        spawn.replied(reply).is_at(places, PreparationView::ShareLog { dir }) ==> {
            &&& reply is Done
            &&& spawn.is_at(places, PreparationView::CreateLog { dir })
            &&& spawn.request() == Some(
                RequestView::CreateLog { path: backend::log_path_of(places.app_data_dir) },
            )
        },
        spawn.replied(reply).is_at(places, PreparationView::CreateLog { dir }) ==> {
            &&& reply is Done
            &&& spawn.is_at(places, PreparationView::CreateProjectsDir { dir })
            &&& spawn.request() == Some(RequestView::CreateDir { path: dir })
        },
        spawn.replied(reply).is_at(places, PreparationView::CreateProjectsDir { dir }) ==>
            spawn.searched(reply) == Some(SearchView::Found { dir }),
{
}

/// The log that is created is the very file that the process is then started with, for its output
/// and for its errors.
pub proof fn law_created_log_is_used(places: PlacesView, dir: Seq<u8>)
    ensures
        ({
            let creating = places.request(PreparationView::CreateLog { dir });
            let starting = places.request(PreparationView::Start { dir });
            &&& creating matches Some(RequestView::CreateLog { path })
            &&& starting matches Some(RequestView::Start { command })
            &&& command.stdout == path
            &&& command.stderr == path
        }),
{
}

/// Nothing is looked up, created or started before the port was cleared.
pub proof fn law_port_is_cleared_first(spawn: SpawnView, reply: ReplyView)
    requires
        spawn is ListPort || spawn is ClearPort,
        spawn.replied(reply) !is ListPort,
        spawn.replied(reply) !is ClearPort,
    ensures
        spawn.request() matches Some(RequestView::ClearPort { steps }),
        reply is Done,
        spawn.replied(reply) is LookUpInstallation,
{
}

/// A start that failed is over: it says why, and no reply makes it go on.
pub proof fn law_failure_is_final(spawn: SpawnView, reply: ReplyView, message: Seq<char>)
    requires
        spawn.failure(reply) == Some(message),
    ensures
        spawn.replied(reply).request() == Some(RequestView::Abort { message }),
        forall|later: ReplyView|
            #[trigger] spawn.replied(reply).replied(later) == spawn.replied(reply),
{
}

/// A process that cannot be started is reported with the program and the directory of its very
/// command, and with the reason.
pub proof fn law_start_failure_is_reported(
    places: PlacesView,
    dir: Seq<u8>,
    shown_program: Seq<char>,
    shown_dir: Seq<char>,
    reason: Seq<char>,
)
    ensures
        ({
            let starting = SpawnView::Prepare {
                places,
                preparation: PreparationView::Start { dir },
            };
            let failed = starting.replied(
                ReplyView::StartFailed { shown_program, shown_dir, reason },
            );
            &&& starting.request() matches Some(RequestView::Start { command })
            &&& failed.request() == Some(
                RequestView::Abort {
                    message: backend::start_failure_of(
                        paths::shown_of(command.program, shown_program),
                        paths::shown_of(command.current_dir, shown_dir),
                        reason,
                    ),
                },
            )
        }),
{
}

/// A log that cannot be created is reported with the very path that it was to have.
pub proof fn law_log_failure_is_reported(
    places: PlacesView,
    dir: Seq<u8>,
    shown_path: Seq<char>,
    reason: Seq<char>,
)
    ensures
        ({
            let creating = SpawnView::Prepare {
                places,
                preparation: PreparationView::CreateLog { dir },
            };
            let failed = creating.replied(ReplyView::LogFailed { shown_path, reason });
            &&& creating.request() matches Some(RequestView::CreateLog { path })
            &&& failed.request() == Some(
                RequestView::Abort {
                    message: backend::log_failure_of(paths::shown_of(path, shown_path), reason),
                },
            )
        }),
{
}

/// A whole start: the port is listed and cleared, the application's data directory is made, the
/// preferences are read, the projects folder is looked up and made, the log is created, and the
/// process is started for that folder.
pub proof fn law_whole_start(
    output: Option<Seq<u8>>,
    places: PlacesView,
    file: Option<FileView>,
    document_dir: Option<Seq<u8>>,
    old_default_is_dir: bool,
)
    ensures
        ({
            let data = places.app_data_dir;
            let saved = preferences::loaded(file);
            let folder = projects::projects_dir(saved, document_dir, old_default_is_dir, data);
            let s0 = SpawnView::ListPort;
            let s1 = s0.replied(ReplyView::Listed { output });
            let s2 = s1.replied(ReplyView::Done);
            let s3 = s2.replied(ReplyView::Installation { installation: places.installation });
            let s4 = s3.replied(ReplyView::AppDataDir { app_data_dir: data });
            let s5 = s4.replied(ReplyView::Done);
            let s6 = s5.replied(ReplyView::Preferences { file });
            let s7 = s6.replied(ReplyView::DocumentDir { dir: document_dir }).replied(
                ReplyView::Probed { is_dir: old_default_is_dir },
            );
            let s8 = s7.replied(ReplyView::Done);
            let s9 = s8.replied(ReplyView::Done);
            let s10 = s9.replied(ReplyView::Done);
            let s11 = s10.replied(ReplyView::Done);
            &&& s0.request() == Some(
                RequestView::ListPort { args: stale::lsof_args_of(BACKEND_PORT as nat) },
            )
            &&& s1.request() == Some(
                RequestView::ClearPort { steps: stale::steps_for(BACKEND_PORT as nat, output) },
            )
            &&& s2.request() == Some(RequestView::LookUpInstallation)
            &&& s3.request() == Some(RequestView::LookUpAppDataDir)
            &&& s4.request() == Some(RequestView::CreateDir { path: data })
            &&& s5.request() == Some(
                RequestView::ReadPreferences { path: paths::child(data, "preferences.json") },
            )
            &&& saved is Some ==> s6 == s7
            &&& s7.request() == Some(RequestView::CreateDir { path: folder })
            &&& s8.request() == Some(
                RequestView::CreateLog { path: paths::child(data, "backend.log") },
            )
            &&& s9.request() == Some(RequestView::ShareLog)
            &&& s10.request() == Some(
                RequestView::Start {
                    command: backend::command_of(places.installation, data, folder),
                },
            )
            &&& s11 is Started
            &&& s11.request() is None
        }),
{
}

/// Whatever `lsof` printed before a start, every line of it that is not empty is a process that is
/// killed. One report and one kill come for each, then one pause, and nothing else.
pub proof fn law_start_kills_every_listener(bytes: Seq<u8>, k: int)
    requires
        0 <= k < text::lines(text::spelled(bytes)).len(),
        text::lines(text::spelled(bytes))[k].len() > 0,
    ensures
        (SpawnView::ClearPort { output: Some(bytes) }).request() matches Some(
            RequestView::ClearPort { steps },
        ) && {
            &&& exists|j: int|
                0 <= j < steps.len() && #[trigger] steps[j] == (StaleStepView::Kill {
                    args: seq!["-9"@, text::lines(text::spelled(bytes))[k]],
                })
            &&& steps.len() == 2 * stale::listed_pids(text::spelled(bytes)).len() + 1
            &&& forall|i: int|
                0 <= i < stale::listed_pids(text::spelled(bytes)).len() ==> steps[2 * i + 1] == (
                StaleStepView::Kill {
                    args: seq!["-9"@, #[trigger] stale::listed_pids(text::spelled(bytes))[i]],
                })
        },
        (SpawnView::ClearPort { output: None }).request() == Some(
            RequestView::ClearPort { steps: Seq::empty() },
        ),
{
    let steps = stale::steps_for(BACKEND_PORT as nat, Some(bytes));
    stale::law_every_line_is_killed(BACKEND_PORT as nat, bytes, k);
    let pids = stale::listed_pids(text::spelled(bytes));
    stale::law_every_line_is_listed(text::spelled(bytes), k);
    assert forall|i: int| 0 <= i < pids.len() implies steps[2 * i + 1] == (StaleStepView::Kill {
        args: seq!["-9"@, #[trigger] pids[i]],
    }) by {
        stale::law_listing_is_cleared_away(BACKEND_PORT as nat, bytes, i);
    }
    stale::law_listing_is_cleared_away(BACKEND_PORT as nat, bytes, 0);
    let j = choose|j: int|
        0 <= j < steps.len() && #[trigger] steps[j] == (StaleStepView::Kill {
            args: seq!["-9"@, text::lines(text::spelled(bytes))[k]],
        });
    assert((SpawnView::ClearPort { output: Some(bytes) }).request() == Some(
        RequestView::ClearPort { steps },
    ));
    assert(0 <= j < steps.len());
}

/// What is asked for at each step of making things ready stands at its fixed name behind the
/// application's data directory, and the process is started for the very folder that was created.
pub proof fn law_requests_name_their_places(places: PlacesView, dir: Seq<u8>, old: Seq<u8>)
    ensures
        ({
            let data = places.app_data_dir;
            let bare = data.len() == 0 || data.last() == 47;
            let at = |preparation: PreparationView|
                (SpawnView::Prepare { places, preparation }).request();
            let asking = SearchView::AskDocumentDir { app_data_dir: data };
            let looking = SearchView::AskIsDir { old_default: old, app_data_dir: data };
            &&& at(PreparationView::CreateAppDataDir) == Some(RequestView::CreateDir { path: data })
            &&& at(PreparationView::ReadPreferences) == Some(
                RequestView::ReadPreferences {
                    path: data + vstd::utf8::encode_utf8(
                        if bare { "preferences.json"@ } else { "/preferences.json"@ },
                    ),
                },
            )
            &&& at(PreparationView::Search { search: asking }) == Some(
                RequestView::LookUpDocumentDir,
            )
            &&& at(PreparationView::Search { search: looking }) == Some(
                RequestView::ProbeDir { path: old },
            )
            &&& at(PreparationView::CreateProjectsDir { dir }) == Some(
                RequestView::CreateDir { path: dir },
            )
            &&& at(PreparationView::CreateLog { dir }) == Some(
                RequestView::CreateLog {
                    path: data + vstd::utf8::encode_utf8(
                        if bare { "backend.log"@ } else { "/backend.log"@ },
                    ),
                },
            )
            &&& at(PreparationView::ShareLog { dir }) == Some(RequestView::ShareLog)
            &&& at(PreparationView::Start { dir }) == Some(
                RequestView::Start { command: backend::command_of(places.installation, data, dir) },
            )
        }),
{
    reveal_strlit("preferences.json");
    reveal_strlit("/preferences.json");
    assert("/preferences.json"@ =~= seq!['/'] + "preferences.json"@);
    paths::law_child_is_written_behind(
        places.app_data_dir,
        "preferences.json",
        "/preferences.json",
    );
    backend::law_command_names_its_places(places.installation, places.app_data_dir, dir);
}

/// Each step that can fail says what could not be done and why, and nothing is done after that.
pub proof fn law_failed_steps_say_why(
    installation: Installation,
    places: PlacesView,
    dir: Seq<u8>,
    reason: Seq<char>,
)
    ensures
        ({
            let failed = ReplyView::Failed { reason };
            let at = |preparation: PreparationView|
                (SpawnView::Prepare { places, preparation }).replied(failed).request();
            &&& SpawnView::LookUpInstallation.replied(failed).request() == Some(
                RequestView::Abort { message: "could not resolve resource dir"@ + ": "@ + reason },
            )
            &&& (SpawnView::LookUpAppDataDir { installation }).replied(failed).request() == Some(
                RequestView::Abort { message: "could not resolve app data dir"@ + ": "@ + reason },
            )
            &&& at(PreparationView::CreateAppDataDir) == Some(
                RequestView::Abort { message: "could not create app data dir"@ + ": "@ + reason },
            )
            &&& at(PreparationView::CreateProjectsDir { dir }) == Some(
                RequestView::Abort { message: "could not create projects dir"@ + ": "@ + reason },
            )
            &&& at(PreparationView::ShareLog { dir }) == Some(
                RequestView::Abort {
                    message: "could not clone backend log handle"@ + ": "@ + reason,
                },
            )
        }),
{
}

/// The search for the projects folder is carried on with the very replies that came, and what it
/// finds is created next.
pub proof fn law_search_goes_by_its_replies(
    places: PlacesView,
    file: Option<FileView>,
    search: SearchView,
    documents: Option<Seq<u8>>,
    is_dir: bool,
)
    ensures
        ({
            let reading = SpawnView::Prepare {
                places,
                preparation: PreparationView::ReadPreferences,
            };
            let searching = SpawnView::Prepare {
                places,
                preparation: PreparationView::Search { search },
            };
            let after = |next: SearchView|
                SpawnView::Prepare {
                    places,
                    preparation: match next {
                        SearchView::Found { dir } => PreparationView::CreateProjectsDir { dir },
                        _ => PreparationView::Search { search: next },
                    },
                };
            &&& reading.replied(ReplyView::Preferences { file }) == after(
                SearchView::begun(preferences::loaded(file), places.app_data_dir),
            )
            &&& searching.replied(ReplyView::DocumentDir { dir: documents }) == after(
                search.told_document_dir(documents),
            )
            &&& searching.replied(ReplyView::Probed { is_dir }) == after(search.told_is_dir(is_dir))
        }),
{
}

} // verus!
