//! Where the application keeps its files, and where the user's projects live.

use crate::paths;
use crate::paths::FsPath;
use crate::preferences::Preferences;
use vstd::prelude::*;

verus! {

/// How the application was installed.
#[derive(Debug, PartialEq, Eq)]
pub enum Installation {
    /// Run from a checkout, whose shell directory this is.
    Development { manifest_dir: FsPath },
    /// Run from a bundle, whose resource directory this is.
    Packaged { resource_dir: FsPath },
}

/// Where the backend's source lives: beside the shell in a checkout, among the resources of a
/// bundle.
pub open spec fn backend_dir_of(installation: Installation) -> Seq<u8> {
    match installation {
        Installation::Development { manifest_dir } => paths::child(manifest_dir@, "../backend"),
        Installation::Packaged { resource_dir } => paths::child(resource_dir@, "backend"),
    }
}

/// Where the backend's source lives.
pub fn backend_dir(installation: &Installation) -> (res: FsPath)
    ensures
        res@ == backend_dir_of(*installation),
{
    match installation {
        Installation::Development { manifest_dir } => manifest_dir.join("../backend"),
        Installation::Packaged { resource_dir } => resource_dir.join("backend"),
    }
}

/// The `uv` program to run the backend with: the one on the search path in a checkout, the
/// bundled one in a bundle.
pub open spec fn uv_path_of(installation: Installation) -> Seq<u8> {
    match installation {
        Installation::Development { manifest_dir } => paths::bytes_of("uv"@),
        Installation::Packaged { resource_dir } => paths::child(
            paths::child(resource_dir@, "bin"),
            "uv",
        ),
    }
}

/// The `uv` program to run the backend with.
pub fn uv_path(installation: &Installation) -> (res: FsPath)
    ensures
        res@ == uv_path_of(*installation),
{
    match installation {
        Installation::Development { manifest_dir: _ } => FsPath::from_text("uv"),
        Installation::Packaged { resource_dir } => resource_dir.join("bin").join("uv"),
    }
}

/// The preferences file.
pub fn preferences_path(app_data_dir: &FsPath) -> (res: FsPath)
    ensures
        res@ == paths::child(app_data_dir@, "preferences.json"),
{
    app_data_dir.join("preferences.json")
}

/// The folder that used to hold projects by default.
pub open spec fn old_default(document_dir: Seq<u8>) -> Seq<u8> {
    paths::child(document_dir, "Dagster Designer")
}

/// The folder that holds projects by default.
pub open spec fn new_default(app_data_dir: Seq<u8>) -> Seq<u8> {
    paths::child(app_data_dir, "Projects")
}

/// Where the user's projects live: in the folder they chose; else in the old default folder, if
/// the documents directory is known and that folder is there; else in the new default folder.
pub open spec fn projects_dir(
    saved: Option<Seq<u8>>,
    document_dir: Option<Seq<u8>>,
    old_default_is_dir: bool,
    app_data_dir: Seq<u8>,
) -> Seq<u8> {
    match saved {
        Some(dir) => dir,
        None => match document_dir {
            Some(documents) if old_default_is_dir => old_default(documents),
            _ => new_default(app_data_dir),
        },
    }
}

/// A search for the folder that holds the user's projects. It asks for no more than it needs:
/// the documents directory only where no folder was chosen, and a look at the old default folder
/// only where that directory is known.
#[derive(Debug, PartialEq, Eq)]
pub enum ProjectsDirSearch {
    /// To be told the documents directory.
    AskDocumentDir { app_data_dir: FsPath },
    /// To be told whether the old default folder is a directory.
    AskIsDir { old_default: FsPath, app_data_dir: FsPath },
    /// Done.
    Found { dir: FsPath },
}

/// What a [`ProjectsDirSearch`] says.
pub enum SearchView {
    AskDocumentDir { app_data_dir: Seq<u8> },
    AskIsDir { old_default: Seq<u8>, app_data_dir: Seq<u8> },
    Found { dir: Seq<u8> },
}

impl View for ProjectsDirSearch {
    type V = SearchView;

    open spec fn view(&self) -> SearchView {
        match *self {
            ProjectsDirSearch::AskDocumentDir { app_data_dir } => SearchView::AskDocumentDir {
                app_data_dir: app_data_dir@,
            },
            ProjectsDirSearch::AskIsDir { old_default, app_data_dir } => SearchView::AskIsDir {
                old_default: old_default@,
                app_data_dir: app_data_dir@,
            },
            ProjectsDirSearch::Found { dir } => SearchView::Found { dir: dir@ },
        }
    }
}

/// The view of an optional path.
pub open spec fn optional_path(path: Option<FsPath>) -> Option<Seq<u8>> {
    match path {
        Some(p) => Some(p@),
        None => None,
    }
}

impl SearchView {
    /// A search that begins with these preferences.
    pub open spec fn begun(saved: Option<Seq<u8>>, app_data_dir: Seq<u8>) -> SearchView {
        match saved {
            Some(dir) => SearchView::Found { dir },
            None => SearchView::AskDocumentDir { app_data_dir },
        }
    }

    /// The search once it was told the documents directory. A search that did not ask goes on as
    /// it was.
    pub open spec fn told_document_dir(self, document_dir: Option<Seq<u8>>) -> SearchView {
        match self {
            SearchView::AskDocumentDir { app_data_dir } => match document_dir {
                Some(documents) => SearchView::AskIsDir {
                    old_default: old_default(documents),
                    app_data_dir,
                },
                None => SearchView::Found { dir: new_default(app_data_dir) },
            },
            _ => self,
        }
    }

    /// The search once it was told whether the old default folder is a directory. A search that
    /// did not ask goes on as it was.
    pub open spec fn told_is_dir(self, is_dir: bool) -> SearchView {
        match self {
            SearchView::AskIsDir { old_default, app_data_dir } => SearchView::Found {
                dir: if is_dir {
                    old_default
                } else {
                    new_default(app_data_dir)
                },
            },
            _ => self,
        }
    }
}

/// Begins the search for the folder that holds the user's projects.
pub fn resolve_projects_dir(prefs: Preferences, app_data_dir: FsPath) -> (res: ProjectsDirSearch)
    ensures
        res@ == SearchView::begun(prefs@, app_data_dir@),
{
    match prefs.projects_dir {
        Some(dir) => ProjectsDirSearch::Found { dir },
        None => ProjectsDirSearch::AskDocumentDir { app_data_dir },
    }
}

impl ProjectsDirSearch {
    /// Tells the search the documents directory, if there is one.
    pub fn told_document_dir(self, document_dir: Option<FsPath>) -> (res: ProjectsDirSearch)
        ensures
            res@ == self@.told_document_dir(optional_path(document_dir)),
    {
        match self {
            ProjectsDirSearch::AskDocumentDir { app_data_dir } => match document_dir {
                Some(documents) => ProjectsDirSearch::AskIsDir {
                    old_default: documents.join("Dagster Designer"),
                    app_data_dir,
                },
                None => ProjectsDirSearch::Found { dir: app_data_dir.join("Projects") },
            },
            other => other,
        }
    }

    /// Tells the search whether the old default folder is a directory.
    pub fn told_is_dir(self, is_dir: bool) -> (res: ProjectsDirSearch)
        ensures
            res@ == self@.told_is_dir(is_dir),
    {
        match self {
            ProjectsDirSearch::AskIsDir { old_default, app_data_dir } => {
                if is_dir {
                    ProjectsDirSearch::Found { dir: old_default }
                } else {
                    ProjectsDirSearch::Found { dir: app_data_dir.join("Projects") }
                }
            },
            other => other,
        }
    }
}

/// The projects folder as the settings show it.
pub fn get_projects_dir(projects_dir: &FsPath) -> (res: String)
    ensures
        res@ == crate::text::spelled(projects_dir@),
{
    projects_dir.to_text()
}

/// A search that is told what it asks for always ends, and it ends at the projects folder.
pub proof fn law_search_finds_projects_dir(
    saved: Option<Seq<u8>>,
    document_dir: Option<Seq<u8>>,
    old_default_is_dir: bool,
    app_data_dir: Seq<u8>,
)
    ensures
        SearchView::begun(saved, app_data_dir).told_document_dir(document_dir).told_is_dir(
            old_default_is_dir,
        ) == (SearchView::Found {
            dir: projects_dir(saved, document_dir, old_default_is_dir, app_data_dir),
        }),
{
}

/// A folder that the user chose is used whatever else is there, and nothing is asked for.
pub proof fn law_chosen_folder_wins(
    dir: Seq<u8>,
    document_dir: Option<Seq<u8>>,
    old_default_is_dir: bool,
    app_data_dir: Seq<u8>,
)
    ensures
        projects_dir(Some(dir), document_dir, old_default_is_dir, app_data_dir) == dir,
        SearchView::begun(Some(dir), app_data_dir) is Found,
{
}

/// A folder that the user chose is shown to them as they wrote it.
pub proof fn law_chosen_folder_reads_back(
    dir: Seq<char>,
    document_dir: Option<Seq<u8>>,
    old_default_is_dir: bool,
    app_data_dir: Seq<u8>,
)
    ensures
        crate::text::spelled(
            projects_dir(
                Some(paths::bytes_of(dir)),
                document_dir,
                old_default_is_dir,
                app_data_dir,
            ),
        ) == dir,
{
    paths::law_text_survives_as_path(dir);
}

/// An earlier installation keeps its projects: where no folder was chosen and the old default
/// folder is there, it is used.
pub proof fn law_existing_projects_stay(document_dir: Seq<u8>, app_data_dir: Seq<u8>)
    ensures
        projects_dir(None, Some(document_dir), true, app_data_dir) == old_default(document_dir),
{
}

/// A fresh installation keeps its projects inside the application's data directory, never among
/// the documents.
pub proof fn law_fresh_install_uses_app_data(
    document_dir: Option<Seq<u8>>,
    app_data_dir: Seq<u8>,
)
    ensures
        projects_dir(None, document_dir, false, app_data_dir) == new_default(app_data_dir),
        paths::inside(new_default(app_data_dir), app_data_dir),
{
    reveal_strlit("Projects");
    paths::law_child_stays_inside(app_data_dir, "Projects");
}

/// The backend's source stands beside the shell's directory in a checkout, and among the resources
/// in a bundle; `uv` is looked up on the search path in a checkout, and stands in `bin` among the
/// resources in a bundle. A slash is put between where the directory does not end in one already.
pub proof fn law_sources_stand_where_they_are_installed(dir: FsPath)
    ensures
        ({
            let bare = dir@.len() == 0 || dir@.last() == 47;
            let development = Installation::Development { manifest_dir: dir };
            let packaged = Installation::Packaged { resource_dir: dir };
            &&& backend_dir_of(development) == dir@ + vstd::utf8::encode_utf8(
                if bare { "../backend"@ } else { "/../backend"@ },
            )
            &&& backend_dir_of(packaged) == dir@ + vstd::utf8::encode_utf8(
                if bare { "backend"@ } else { "/backend"@ },
            )
            &&& uv_path_of(development) == vstd::utf8::encode_utf8("uv"@)
            &&& uv_path_of(packaged) == dir@ + vstd::utf8::encode_utf8(
                if bare { "bin"@ } else { "/bin"@ },
            ) + vstd::utf8::encode_utf8("/uv"@)
        }),
{
    reveal_strlit("../backend");
    reveal_strlit("/../backend");
    reveal_strlit("backend");
    reveal_strlit("/backend");
    reveal_strlit("bin");
    reveal_strlit("/bin");
    reveal_strlit("uv");
    reveal_strlit("/uv");
    assert("/../backend"@ =~= seq!['/'] + "../backend"@);
    assert("/backend"@ =~= seq!['/'] + "backend"@);
    assert("/bin"@ =~= seq!['/'] + "bin"@);
    assert("/uv"@ =~= seq!['/'] + "uv"@);
    paths::law_child_is_written_behind(dir@, "../backend", "/../backend");
    paths::law_child_is_written_behind(dir@, "backend", "/backend");
    paths::law_child_is_written_behind(dir@, "bin", "/bin");
    let bin = paths::child(dir@, "bin");
    vstd::utf8::is_ascii_chars_encode_utf8("bin"@);
    vstd::utf8::is_ascii_chars_encode_utf8("/bin"@);
    assert(bin.last() == 110);
    paths::law_child_is_written_behind(bin, "uv", "/uv");
}

/// With no folder chosen, the search asks for the documents directory, then looks at the folder
/// `Dagster Designer` in it, and ends there or at `Projects` in the application's data directory.
/// A slash is put between where a directory does not end in one already.
pub proof fn law_default_folders(data: Seq<u8>, documents: Seq<u8>)
    ensures
        ({
            let old = documents + vstd::utf8::encode_utf8(
                if documents.len() == 0 || documents.last() == 47 {
                    "Dagster Designer"@
                } else {
                    "/Dagster Designer"@
                },
            );
            let new = data + vstd::utf8::encode_utf8(
                if data.len() == 0 || data.last() == 47 { "Projects"@ } else { "/Projects"@ },
            );
            let begun = SearchView::begun(None, data);
            let told = begun.told_document_dir(Some(documents));
            &&& begun == (SearchView::AskDocumentDir { app_data_dir: data })
            &&& begun.told_document_dir(None) == (SearchView::Found { dir: new })
            &&& told == (SearchView::AskIsDir { old_default: old, app_data_dir: data })
            &&& told.told_is_dir(true) == (SearchView::Found { dir: old })
            &&& told.told_is_dir(false) == (SearchView::Found { dir: new })
            &&& forall|is_dir: bool| #[trigger] projects_dir(None, None, is_dir, data) == new
            &&& projects_dir(None, Some(documents), true, data) == old
            &&& projects_dir(None, Some(documents), false, data) == new
        }),
{
    reveal_strlit("Dagster Designer");
    reveal_strlit("/Dagster Designer");
    reveal_strlit("Projects");
    reveal_strlit("/Projects");
    assert("/Dagster Designer"@ =~= seq!['/'] + "Dagster Designer"@);
    assert("/Projects"@ =~= seq!['/'] + "Projects"@);
    paths::law_child_is_written_behind(documents, "Dagster Designer", "/Dagster Designer");
    paths::law_child_is_written_behind(data, "Projects", "/Projects");
}

/// A look at the old default folder decides between that very folder and the new default.
pub proof fn law_look_decides(old: Seq<u8>, data: Seq<u8>)
    ensures
        ({
            let asking = SearchView::AskIsDir { old_default: old, app_data_dir: data };
            &&& asking.told_is_dir(true) == (SearchView::Found { dir: old })
            &&& asking.told_is_dir(false) == SearchView::begun(None, data).told_document_dir(None)
        }),
{
}

/// A search that has found a folder, the chosen one above all, stays there whatever it is told.
pub proof fn law_found_folder_stays(
    dir: Seq<u8>,
    data: Seq<u8>,
    document_dir: Option<Seq<u8>>,
    is_dir: bool,
)
    ensures
        SearchView::begun(Some(dir), data) == (SearchView::Found { dir }),
        (SearchView::Found { dir }).told_document_dir(document_dir) == (SearchView::Found { dir }),
        (SearchView::Found { dir }).told_is_dir(is_dir) == (SearchView::Found { dir }),
{
}

} // verus!
