//! Views are faithful: what the contracts say of a view, they say of every character, byte and
//! number of the value itself.

use crate::backend::{BackendCommand, WaitStep, WaitStepView};
use crate::events::{Response, ResponseView};
use crate::folder::{
    ChangeReply, ChangeReplyView, ChangeRequest, ChangeRequestView, ChangeView, FolderChange,
};
use crate::menu;
use crate::menu::{EntryView, MenuEntry, MenuItem, PageAction, Submenu};
use crate::page_menu::{MenuChange, MenuChangeView, MenuRequest, MenuRequestView};
use crate::paths::FsPath;
use crate::preferences;
use crate::preferences::{Preferences, PreferencesFile};
use crate::projects;
use crate::projects::{ProjectsDirSearch, SearchView};
use crate::save;
use crate::save::{PreferencesSave, SaveRequest, SaveRequestView, SaveView};
use crate::spawn;
use crate::spawn::{
    Places, Preparation, PreparationView, ReplyView, RequestView, Spawn, SpawnReply, SpawnRequest,
    SpawnView,
};
use crate::stale;
use crate::stale::{StaleStep, StaleStepView};
use crate::stop;
use crate::stop::{Stop, StopReply, StopReplyView, StopRequest, StopRequestView, StopView};
use crate::text;
use vstd::prelude::*;

verus! {

/// A list of texts is seen text by text, and an optional text, path, file or row of bytes is seen
/// where it is there.
pub proof fn law_lists_and_options_are_seen_whole(
    list: Seq<String>,
    i: int,
    string: String,
    path: FsPath,
    bytes: Vec<u8>,
    file: PreferencesFile,
)
    ensures
        text::texts(list).len() == list.len(),
        0 <= i < list.len() ==> text::texts(list)[i] == list[i]@,
        text::optional_text(Some(string)) == Some(string@),
        text::optional_text(None) is None,
        projects::optional_path(Some(path)) == Some(path.bytes@),
        projects::optional_path(None) is None,
        spawn::optional_bytes(Some(bytes)) == Some(bytes@),
        spawn::optional_bytes(None) is None,
        preferences::optional_file(Some(file)) == Some(file@),
        preferences::optional_file(None) is None,
{
}

/// A result is seen with its very reason.
pub proof fn law_results_are_seen_whole(reason: String)
    ensures
        save::result_view(Ok(())) is Ok,
        save::result_view(Err(reason)) == Err::<(), Seq<char>>(reason@),
{
}

/// Fields that were read from an object are seen one by one, each with its key and its value.
pub proof fn law_fields_are_seen_whole(fields: Vec<(String, Option<String>)>, i: int)
    requires
        0 <= i < fields@.len(),
    ensures
        preferences::optional_fields(None) is None,
        preferences::optional_fields(Some(fields)) matches Some(seen) && {
            &&& seen.len() == fields@.len()
            &&& seen[i].0 == fields@[i].0@
            &&& seen[i].1 is Some <==> fields@[i].1 is Some
            &&& seen[i].1 is Some ==> seen[i].1->0 == fields@[i].1->0@
        },
{
}

/// A path is seen as its bytes, and preferences as the folder's bytes.
pub proof fn law_paths_are_seen_whole(path: FsPath, prefs: Preferences, file: PreferencesFile)
    ensures
        path@ == path.bytes@,
        prefs@ is Some <==> prefs.projects_dir is Some,
        prefs@ is Some ==> prefs@->0 == prefs.projects_dir->0.bytes@,
        file@.text == file.text@,
        file@.parsed is Some <==> file.parsed is Some,
        file@.parsed is Some ==> file@.parsed->0 == file.parsed->0@,
{
}

/// A search is seen with its very paths.
pub proof fn law_searches_are_seen_whole(search: ProjectsDirSearch)
    ensures
        match search {
            ProjectsDirSearch::AskDocumentDir { app_data_dir } => search@ == (
            SearchView::AskDocumentDir { app_data_dir: app_data_dir.bytes@ }),
            ProjectsDirSearch::AskIsDir { old_default, app_data_dir } => search@ == (
            SearchView::AskIsDir {
                old_default: old_default.bytes@,
                app_data_dir: app_data_dir.bytes@,
            }),
            ProjectsDirSearch::Found { dir } => search@ == (SearchView::Found {
                dir: dir.bytes@,
            }),
        },
{
}

/// A step in clearing a port is seen with its very line, arguments or pause, and a list of steps
/// step by step.
pub proof fn law_steps_are_seen_whole(steps: Seq<StaleStep>, i: int)
    requires
        0 <= i < steps.len(),
    ensures
        stale::stale_step_views(steps).len() == steps.len(),
        match steps[i] {
            StaleStep::Report { line } => stale::stale_step_views(steps)[i] == (
            StaleStepView::Report { line: line@ }),
            StaleStep::Kill { args } => stale::stale_step_views(steps)[i] == (
            StaleStepView::Kill { args: text::texts(args@) }),
            StaleStep::Settle { millis } => stale::stale_step_views(steps)[i] == (
            StaleStepView::Settle { millis: millis as int }),
        },
{
}

/// A command is seen with its very program, arguments, places and streams.
pub proof fn law_commands_are_seen_whole(command: BackendCommand, i: int)
    ensures
        command@.program == command.program.bytes@,
        command@.args == text::texts(command.args@),
        command@.current_dir == command.current_dir.bytes@,
        command@.env.len() == command.env@.len(),
        0 <= i < command.env@.len() ==> command@.env[i] == (
            command.env@[i].name@,
            command.env@[i].value.bytes@,
        ),
        command@.stdout == command.stdout.bytes@,
        command@.stderr == command.stderr.bytes@,
{
}

/// What follows a try to connect is seen with its very pause and warning.
pub proof fn law_wait_steps_are_seen_whole(step: WaitStep)
    ensures
        match step {
            WaitStep::Ready => step@ is Ready,
            WaitStep::Retry { pause_millis } => step@ == (WaitStepView::Retry {
                pause_millis: pause_millis as int,
            }),
            WaitStep::GiveUp { pause_millis, warning } => step@ == (WaitStepView::GiveUp {
                pause_millis: pause_millis as int,
                warning: warning@,
            }),
        },
{
}

/// An answer to an event is seen with its very exit code, event and payload.
pub proof fn law_responses_are_seen_whole(response: Response)
    ensures
        match response {
            Response::Quit { exit_code } => response@ == (ResponseView::Quit {
                exit_code: exit_code as int,
            }),
            Response::Emit { event, payload } => response@ == (ResponseView::Emit {
                event: event@,
                payload: payload@,
            }),
            Response::Ignore => response@ is Ignore,
        },
{
}

/// Items and actions are seen with their very ids, labels and accelerators.
pub proof fn law_items_are_seen_whole(item: MenuItem, action: PageAction)
    ensures
        item@.id == item.id@,
        item@.label == item.label@,
        item@.accelerator is Some <==> item.accelerator is Some,
        item@.accelerator is Some ==> item@.accelerator->0 == item.accelerator->0@,
        action@.id == action.id@,
        action@.label == action.label@,
        action@.accelerator is Some <==> action.accelerator is Some,
        action@.accelerator is Some ==> action@.accelerator->0 == action.accelerator->0@,
{
}

/// Menus are seen one by one, each with its very title and row by row.
pub proof fn law_menus_are_seen_whole(menus: Seq<Submenu>, i: int, row: int)
    requires
        0 <= i < menus.len(),
    ensures
        menu::submenu_views(menus).len() == menus.len(),
        menu::submenu_views(menus)[i].title == menus[i].title@,
        menu::submenu_views(menus)[i].entries.len() == menus[i].entries@.len(),
        0 <= row < menus[i].entries@.len() ==> match menus[i].entries@[row] {
            MenuEntry::Item(item) => menu::submenu_views(menus)[i].entries[row]
                == EntryView::Item(item@),
            MenuEntry::Predefined(item) => menu::submenu_views(menus)[i].entries[row]
                == EntryView::Predefined(item),
            MenuEntry::Separator => menu::submenu_views(menus)[i].entries[row] is Separator,
        },
{
    if 0 <= row < menus[i].entries@.len() {
        assert(menus[i]@.entries[row] == menus[i].entries@[row]@);
    }
}

/// A change of the menu bar is seen with its very title and actions, and its requests with their
/// very menus and results.
pub proof fn law_menu_changes_are_seen_whole(change: MenuChange, request: MenuRequest, i: int)
    ensures
        match change {
            MenuChange::Build { title, actions } => change@ matches MenuChangeView::Build {
                title: t,
                actions: a,
            } && {
                &&& t == text::optional_text(title)
                &&& a.len() == actions@.len()
                &&& 0 <= i < a.len() ==> a[i] == actions@[i]@
            },
            MenuChange::Install => change@ is Install,
            MenuChange::Finished { result } => change@ == (MenuChangeView::Finished {
                result: save::result_view(result),
            }),
        },
        match request {
            MenuRequest::Build { menus } => request@ == (MenuRequestView::Build {
                menus: menu::submenu_views(menus@),
            }),
            MenuRequest::Install => request@ is Install,
            MenuRequest::Answer { result } => request@ == (MenuRequestView::Answer {
                result: save::result_view(result),
            }),
        },
{
}

/// A save is seen with its very places, preferences and text, and its requests likewise.
pub proof fn law_saves_are_seen_whole(save: PreferencesSave, request: SaveRequest)
    ensures
        match save {
            PreferencesSave::CreateDir { app_data_dir, prefs } => save@ == (SaveView::CreateDir {
                app_data_dir: app_data_dir.bytes@,
                prefs: prefs@,
            }),
            PreferencesSave::WriteFile { app_data_dir, text } => save@ == (SaveView::WriteFile {
                app_data_dir: app_data_dir.bytes@,
                text: text@,
            }),
            PreferencesSave::Finished { result } => save@ == (SaveView::Finished {
                result: save::result_view(result),
            }),
        },
        match request {
            SaveRequest::CreateDir { path } => request@ == (SaveRequestView::CreateDir {
                path: path.bytes@,
            }),
            SaveRequest::WriteFile { path, text } => request@ == (SaveRequestView::WriteFile {
                path: path.bytes@,
                text: text@,
            }),
            SaveRequest::Answer { result } => request@ == (SaveRequestView::Answer {
                result: save::result_view(result),
            }),
        },
{
}

/// A change of the folder is seen with its very folder, and its requests and replies with their
/// very places, texts and results.
pub proof fn law_folder_changes_are_seen_whole(
    change: FolderChange,
    request: ChangeRequest,
    reply: ChangeReply,
)
    ensures
        match change {
            FolderChange::CreateFolder { folder } => change@ == (ChangeView::CreateFolder {
                folder: folder@,
            }),
            FolderChange::LookUpAppDataDir { folder } => change@ == (
            ChangeView::LookUpAppDataDir { folder: folder@ }),
            FolderChange::Save { save } => change@ == (ChangeView::Save { save: save@ }),
            FolderChange::KillBackend => change@ is KillBackend,
            FolderChange::SpawnBackend => change@ is SpawnBackend,
            FolderChange::AwaitBackend => change@ is AwaitBackend,
            FolderChange::Finished { result } => change@ == (ChangeView::Finished {
                result: save::result_view(result),
            }),
        },
        match request {
            ChangeRequest::CreateDir { path } => request@ == (ChangeRequestView::CreateDir {
                path: path.bytes@,
            }),
            ChangeRequest::LookUpAppDataDir => request@ is LookUpAppDataDir,
            ChangeRequest::WriteFile { path, text } => request@ == (
            ChangeRequestView::WriteFile { path: path.bytes@, text: text@ }),
            ChangeRequest::KillBackend => request@ is KillBackend,
            ChangeRequest::SpawnBackend => request@ is SpawnBackend,
            ChangeRequest::AwaitBackend => request@ is AwaitBackend,
            ChangeRequest::Answer { result } => request@ == (ChangeRequestView::Answer {
                result: save::result_view(result),
            }),
        },
        match reply {
            ChangeReply::Done { result } => reply@ == (ChangeReplyView::Done {
                result: save::result_view(result),
            }),
            ChangeReply::AppDataDir { dir } => reply@ == (ChangeReplyView::AppDataDir {
                dir: dir.bytes@,
            }),
        },
{
}

/// A stop is seen with what was listed, and its requests and replies with their very arguments,
/// steps and bytes.
pub proof fn law_stops_are_seen_whole(stop: Stop, request: StopRequest, reply: StopReply)
    ensures
        match stop {
            Stop::KillChild => stop@ is KillChild,
            Stop::ListPort => stop@ is ListPort,
            Stop::ClearPort { output } => stop@ == (StopView::ClearPort {
                output: spawn::optional_bytes(output),
            }),
            Stop::Stopped => stop@ is Stopped,
        },
        match request {
            StopRequest::KillChild => request@ is KillChild,
            StopRequest::ListPort { args } => request@ == (StopRequestView::ListPort {
                args: text::texts(args@),
            }),
            StopRequest::ClearPort { steps } => request@ == (StopRequestView::ClearPort {
                steps: stale::stale_step_views(steps@),
            }),
        },
        match reply {
            StopReply::Done => reply@ is Done,
            StopReply::Listed { output } => reply@ == (StopReplyView::Listed {
                output: spawn::optional_bytes(output),
            }),
        },
        stop::optional_stop_request(Some(request)) == Some(request@),
        stop::optional_stop_request(None) is None,
{
}

/// A start is seen with its very places and folders.
pub proof fn law_starts_are_seen_whole(spawn: Spawn, places: Places, preparation: Preparation)
    ensures
        places@.installation == places.installation,
        places@.app_data_dir == places.app_data_dir.bytes@,
        match preparation {
            Preparation::CreateAppDataDir => preparation@ is CreateAppDataDir,
            Preparation::ReadPreferences => preparation@ is ReadPreferences,
            Preparation::Search { search } => preparation@ == (PreparationView::Search {
                search: search@,
            }),
            Preparation::CreateProjectsDir { dir } => preparation@ == (
            PreparationView::CreateProjectsDir { dir: dir.bytes@ }),
            Preparation::CreateLog { dir } => preparation@ == (PreparationView::CreateLog {
                dir: dir.bytes@,
            }),
            Preparation::ShareLog { dir } => preparation@ == (PreparationView::ShareLog {
                dir: dir.bytes@,
            }),
            Preparation::Start { dir } => preparation@ == (PreparationView::Start {
                dir: dir.bytes@,
            }),
        },
        match spawn {
            Spawn::ListPort => spawn@ is ListPort,
            Spawn::ClearPort { output } => spawn@ == (SpawnView::ClearPort {
                output: spawn::optional_bytes(output),
            }),
            Spawn::LookUpInstallation => spawn@ is LookUpInstallation,
            Spawn::LookUpAppDataDir { installation } => spawn@ == (
            SpawnView::LookUpAppDataDir { installation }),
            Spawn::Prepare { places: p, preparation: q } => spawn@ == (SpawnView::Prepare {
                places: p@,
                preparation: q@,
            }),
            Spawn::Started => spawn@ is Started,
            Spawn::Failed { message } => spawn@ == (SpawnView::Failed { message: message@ }),
        },
{
}

/// What a start asks for is seen with its very arguments, steps, places, command and message.
pub proof fn law_start_requests_are_seen_whole(request: SpawnRequest)
    ensures
        match request {
            SpawnRequest::ListPort { args } => request@ == (RequestView::ListPort {
                args: text::texts(args@),
            }),
            SpawnRequest::ClearPort { steps } => request@ == (RequestView::ClearPort {
                steps: stale::stale_step_views(steps@),
            }),
            SpawnRequest::LookUpInstallation => request@ is LookUpInstallation,
            SpawnRequest::LookUpAppDataDir => request@ is LookUpAppDataDir,
            SpawnRequest::CreateDir { path } => request@ == (RequestView::CreateDir {
                path: path.bytes@,
            }),
            SpawnRequest::ReadPreferences { path } => request@ == (
            RequestView::ReadPreferences { path: path.bytes@ }),
            SpawnRequest::LookUpDocumentDir => request@ is LookUpDocumentDir,
            SpawnRequest::ProbeDir { path } => request@ == (RequestView::ProbeDir {
                path: path.bytes@,
            }),
            SpawnRequest::CreateLog { path } => request@ == (RequestView::CreateLog {
                path: path.bytes@,
            }),
            SpawnRequest::ShareLog => request@ is ShareLog,
            SpawnRequest::Start { command } => request@ == (RequestView::Start {
                command: command@,
            }),
            SpawnRequest::Abort { message } => request@ == (RequestView::Abort {
                message: message@,
            }),
        },
        spawn::optional_request(Some(request)) == Some(request@),
        spawn::optional_request(None) is None,
{
}

/// What a start is told is seen with its very bytes, places, files and reasons.
pub proof fn law_start_replies_are_seen_whole(reply: SpawnReply)
    ensures
        match reply {
            SpawnReply::Listed { output } => reply@ == (ReplyView::Listed {
                output: spawn::optional_bytes(output),
            }),
            SpawnReply::Done => reply@ is Done,
            SpawnReply::Installation { installation } => reply@ == (ReplyView::Installation {
                installation,
            }),
            SpawnReply::AppDataDir { app_data_dir } => reply@ == (ReplyView::AppDataDir {
                app_data_dir: app_data_dir.bytes@,
            }),
            SpawnReply::Preferences { file } => reply@ == (ReplyView::Preferences {
                file: preferences::optional_file(file),
            }),
            SpawnReply::DocumentDir { dir } => reply@ == (ReplyView::DocumentDir {
                dir: projects::optional_path(dir),
            }),
            SpawnReply::Probed { is_dir } => reply@ == (ReplyView::Probed { is_dir }),
            SpawnReply::Failed { reason } => reply@ == (ReplyView::Failed { reason: reason@ }),
            SpawnReply::LogFailed { shown_path, reason } => reply@ == (ReplyView::LogFailed {
                shown_path: shown_path@,
                reason: reason@,
            }),
            SpawnReply::StartFailed { shown_program, shown_dir, reason } => reply@ == (
            ReplyView::StartFailed {
                shown_program: shown_program@,
                shown_dir: shown_dir@,
                reason: reason@,
            }),
        },
{
}

} // verus!
