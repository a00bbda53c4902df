//! The backend process: how it is started, awaited and stopped.

use crate::paths;
use crate::paths::FsPath;
use crate::projects;
use crate::projects::{backend_dir, uv_path, Installation};
use crate::stale;
use crate::stop;
use crate::stop::{stop_backend, Stop};
use crate::text;
use crate::text::decimal_text;
use vstd::prelude::*;
use vstd::string::*;

verus! {

/// The port that the backend listens on.
pub const BACKEND_PORT: u16 = 8000;

/// How often the backend is tried before it is given up on.
pub const READY_ATTEMPTS: u16 = 600;

/// How long to pause after a try that failed.
pub const READY_PAUSE_MILLIS: u64 = 500;

/// An environment variable of the backend.
#[derive(Debug, PartialEq, Eq)]
pub struct EnvVar {
    pub name: String,
    pub value: FsPath,
}

/// The command that starts the backend. Its output and its errors go to files, never to a pipe: a
/// file always takes more, while the process would block on a pipe that nobody reads as soon as
/// it is full.
#[derive(Debug, PartialEq, Eq)]
pub struct BackendCommand {
    pub program: FsPath,
    pub args: Vec<String>,
    pub current_dir: FsPath,
    pub env: Vec<EnvVar>,
    pub stdout: FsPath,
    pub stderr: FsPath,
}

/// What a [`BackendCommand`] says.
#[verifier::ext_equal]
pub struct CommandView {
    pub program: Seq<u8>,
    pub args: Seq<Seq<char>>,
    pub current_dir: Seq<u8>,
    pub env: Seq<(Seq<char>, Seq<u8>)>,
    pub stdout: Seq<u8>,
    pub stderr: Seq<u8>,
}

impl View for BackendCommand {
    type V = CommandView;

    open spec fn view(&self) -> CommandView {
        CommandView {
            program: self.program@,
            args: text::texts(self.args@),
            current_dir: self.current_dir@,
            env: self.env@.map_values(|v: EnvVar| (v.name@, v.value@)),
            stdout: self.stdout@,
            stderr: self.stderr@,
        }
    }
}

/// Where the backend keeps its own working data.
pub open spec fn data_dir(app_data_dir: Seq<u8>) -> Seq<u8> {
    paths::child(app_data_dir, "data")
}

/// The file that receives what the backend prints.
pub open spec fn log_path_of(app_data_dir: Seq<u8>) -> Seq<u8> {
    paths::child(app_data_dir, "backend.log")
}

/// The file that receives what the backend prints.
pub fn log_path(app_data_dir: &FsPath) -> (res: FsPath)
    ensures
        res@ == log_path_of(app_data_dir@),
{
    app_data_dir.join("backend.log")
}

/// How the backend is started: from its source, by `uv`, on the local host, with its data and
/// the user's projects kept where they survive an update of the application, and with all that it
/// prints in the log.
pub open spec fn command_of(
    installation: Installation,
    app_data_dir: Seq<u8>,
    projects_dir: Seq<u8>,
) -> CommandView {
    CommandView {
        program: projects::uv_path_of(installation),
        args: seq![
            "run"@,
            "uvicorn"@,
            "app.main:app"@,
            "--host"@,
            "127.0.0.1"@,
            "--port"@,
            text::decimal(BACKEND_PORT as nat),
        ],
        current_dir: projects::backend_dir_of(installation),
        env: seq![
            ("DATA_DIR"@, data_dir(app_data_dir)),
            ("PROJECTS_DIR"@, projects_dir),
        ],
        stdout: log_path_of(app_data_dir),
        stderr: log_path_of(app_data_dir),
    }
}

/// Makes up the command that starts the backend.
pub fn backend_command(
    installation: &Installation,
    app_data_dir: &FsPath,
    projects_dir: &FsPath,
) -> (res: BackendCommand)
    ensures
        res@ == command_of(*installation, app_data_dir@, projects_dir@),
{
    let args = vec![
        "run".to_owned(),
        "uvicorn".to_owned(),
        "app.main:app".to_owned(),
        "--host".to_owned(),
        "127.0.0.1".to_owned(),
        "--port".to_owned(),
        decimal_text(BACKEND_PORT),
    ];
    let env = vec![
        EnvVar { name: "DATA_DIR".to_owned(), value: app_data_dir.join("data") },
        EnvVar { name: "PROJECTS_DIR".to_owned(), value: projects_dir.duplicate() },
    ];
    let res = BackendCommand {
        program: uv_path(installation),
        args,
        current_dir: backend_dir(installation),
        env,
        stdout: log_path(app_data_dir),
        stderr: log_path(app_data_dir),
    };
    assert(res@ =~= command_of(*installation, app_data_dir@, projects_dir@));
    res
}

/// What is said when the log cannot be created, given how its path is shown.
pub open spec fn log_failure_of(shown_path: Seq<char>, reason: Seq<char>) -> Seq<char> {
    "could not create backend log at "@ + shown_path + ": "@ + reason
}

/// Words what is said when the log cannot be created, given how its path is shown.
pub fn log_failure(shown_path: &str, reason: &str) -> (res: String)
    ensures
        res@ == log_failure_of(shown_path@, reason@),
{
    "could not create backend log at ".to_owned().concat(shown_path).concat(": ").concat(reason)
}

/// What is said when the process cannot be started, given how its program and its directory are
/// shown.
pub open spec fn start_failure_of(
    shown_program: Seq<char>,
    shown_dir: Seq<char>,
    reason: Seq<char>,
) -> Seq<char> {
    "failed to start the Dagster Designer backend via `"@ + shown_program + " run` in "@ + shown_dir
        + ": "@ + reason
        + "\nIn a dev build, make sure `uv` is installed and on PATH (https://docs.astral.sh/uv/)."@
}

/// Words what is said when the process cannot be started, given how its program and its directory
/// are shown.
pub fn start_failure(shown_program: &str, shown_dir: &str, reason: &str) -> (res: String)
    ensures
        res@ == start_failure_of(shown_program@, shown_dir@, reason@),
{
    let what = "failed to start the Dagster Designer backend via `".to_owned().concat(
        shown_program,
    ).concat(" run` in ").concat(shown_dir);
    what.concat(": ").concat(reason).concat(
        "\nIn a dev build, make sure `uv` is installed and on PATH (https://docs.astral.sh/uv/).",
    )
}

/// The address at which the backend on a port is reached.
pub open spec fn backend_address_of(port: nat) -> Seq<char> {
    "127.0.0.1:"@ + text::decimal(port)
}

/// The address at which the backend on a port is reached.
pub fn backend_address(port: u16) -> (res: String)
    ensures
        res@ == backend_address_of(port as nat),
{
    "127.0.0.1:".to_owned().concat(decimal_text(port).as_str())
}

/// A wait for the backend on a port to accept connections, after some tries that failed.
#[derive(Debug, PartialEq, Eq)]
pub struct BackendWait {
    pub port: u16,
    pub failed: u16,
}

/// What comes after a try to connect to the backend.
#[derive(Debug, PartialEq, Eq)]
pub enum WaitStep {
    /// The backend is there.
    Ready,
    /// Pause, then try again.
    Retry { pause_millis: u64 },
    /// Pause, then warn the user and go on without it.
    GiveUp { pause_millis: u64, warning: String },
}

/// What a [`WaitStep`] says.
pub enum WaitStepView {
    Ready,
    Retry { pause_millis: int },
    GiveUp { pause_millis: int, warning: Seq<char> },
}

impl View for WaitStep {
    type V = WaitStepView;

    open spec fn view(&self) -> WaitStepView {
        match *self {
            WaitStep::Ready => WaitStepView::Ready,
            WaitStep::Retry { pause_millis } => WaitStepView::Retry {
                pause_millis: pause_millis as int,
            },
            WaitStep::GiveUp { pause_millis, warning } => WaitStepView::GiveUp {
                pause_millis: pause_millis as int,
                warning: warning@,
            },
        }
    }
}

/// The warning for a backend that did not come up.
pub open spec fn not_ready_warning(port: nat) -> Seq<char> {
    "warning: backend did not become ready on "@ + backend_address_of(port)
        + " within 5m; continuing anyway"@
}

/// What comes after a try, when this many had failed before it.
pub open spec fn wait_step(failed: nat, port: nat, connected: bool) -> WaitStepView {
    if connected {
        WaitStepView::Ready
    } else if failed + 1 < READY_ATTEMPTS {
        WaitStepView::Retry { pause_millis: READY_PAUSE_MILLIS as int }
    } else {
        WaitStepView::GiveUp {
            pause_millis: READY_PAUSE_MILLIS as int,
            warning: not_ready_warning(port),
        }
    }
}

/// Begins to wait for the backend on a port.
pub fn wait_for_backend(port: u16) -> (res: BackendWait)
    ensures
        res.port == port,
        res.failed == 0,
{
    BackendWait { port, failed: 0 }
}

impl BackendWait {
    /// The address to connect to.
    pub fn address(&self) -> (res: String)
        ensures
            res@ == backend_address_of(self.port as nat),
    {
        backend_address(self.port)
    }

    /// Decides what comes after a try, given whether it connected.
    pub fn tried(&mut self, connected: bool) -> (res: WaitStep)
        ensures
            res@ == wait_step(old(self).failed as nat, old(self).port as nat, connected),
            final(self).port == old(self).port,
            final(self).failed == (if res is Retry {
                old(self).failed + 1
            } else {
                old(self).failed as int
            }),
    {
        if connected {
            WaitStep::Ready
        } else if self.failed < READY_ATTEMPTS - 1 {
            self.failed = self.failed + 1;
            WaitStep::Retry { pause_millis: READY_PAUSE_MILLIS }
        } else {
            let warning = "warning: backend did not become ready on ".to_owned().concat(
                self.address().as_str(),
            ).concat(" within 5m; continuing anyway");
            WaitStep::GiveUp { pause_millis: READY_PAUSE_MILLIS, warning }
        }
    }
}

/// Holds the running backend process, if there is one, so that it can be stopped.
pub struct BackendProcess<C> {
    pub child: Option<C>,
}

impl<C> BackendProcess<C> {
    /// No process yet.
    pub fn new() -> (res: BackendProcess<C>)
        ensures
            res.child is None,
    {
        BackendProcess { child: None }
    }

    /// Takes note of a process that was just started.
    pub fn started(&mut self, child: C)
        ensures
            final(self).child == Some(child),
    {
        self.child = Some(child);
    }

    /// Gives up the process, if there is one, and begins to stop the backend.
    pub fn kill_backend(&mut self) -> (res: (Option<C>, Stop))
        ensures
            res.0 == old(self).child,
            res.1@ == stop::StopView::begun(old(self).child is Some),
            final(self).child is None,
    {
        let child = self.child.take();
        let stop = stop_backend(child.is_some());
        (child, stop)
    }
}

/// The backend is awaited at the very address that it is told to listen on.
pub proof fn law_awaited_where_it_listens(
    installation: Installation,
    app_data_dir: Seq<u8>,
    projects_dir: Seq<u8>,
)
    ensures
        ({
            let args = command_of(installation, app_data_dir, projects_dir).args;
            &&& args[3] == "--host"@
            &&& args[5] == "--port"@
            &&& backend_address_of(BACKEND_PORT as nat) == args[4] + ":"@ + args[6]
        }),
{
    reveal_strlit("127.0.0.1:");
    reveal_strlit("127.0.0.1");
    reveal_strlit(":");
    assert("127.0.0.1:"@ =~= "127.0.0.1"@ + ":"@);
}

/// The port that is cleared when the backend is stopped, and before it is started, is the very one
/// that it is told to listen on.
pub proof fn law_cleared_where_it_listens(
    installation: Installation,
    app_data_dir: Seq<u8>,
    projects_dir: Seq<u8>,
)
    ensures
        ({
            let args = command_of(installation, app_data_dir, projects_dir).args;
            &&& args[5] == "--port"@
            &&& stale::lsof_args_of(BACKEND_PORT as nat) == seq![
                "-ti"@,
                ":"@ + args[6],
                "-sTCP:LISTEN"@,
            ]
        }),
{
}

/// What the backend writes of its own lies inside the application's data directory, which an
/// update of the application leaves alone.
pub proof fn law_data_survives_updates(
    installation: Installation,
    app_data_dir: Seq<u8>,
    projects_dir: Seq<u8>,
)
    ensures
        ({
            let env = command_of(installation, app_data_dir, projects_dir).env;
            &&& env[0].0 == "DATA_DIR"@
            &&& paths::inside(env[0].1, app_data_dir)
            &&& env[1] == ("PROJECTS_DIR"@, projects_dir)
        }),
{
    reveal_strlit("data");
    paths::law_child_stays_inside(app_data_dir, "data");
}

/// All that the backend prints goes to the one log inside the application's data directory.
pub proof fn law_output_goes_to_log(
    installation: Installation,
    app_data_dir: Seq<u8>,
    projects_dir: Seq<u8>,
)
    ensures
        ({
            let command = command_of(installation, app_data_dir, projects_dir);
            &&& command.stdout == paths::child(app_data_dir, "backend.log")
            &&& command.stderr == command.stdout
            &&& paths::inside(command.stdout, app_data_dir)
        }),
{
    reveal_strlit("backend.log");
    paths::law_child_stays_inside(app_data_dir, "backend.log");
}

/// How a whole wait went: how many tries it took, for how long it paused, and what ended it, if
/// it has ended.
pub struct WaitRun {
    pub tries: nat,
    pub paused_millis: int,
    pub end: Option<WaitStepView>,
}

/// A wait in which the tries went like this, when so many had failed before.
pub open spec fn wait_run(failed: nat, port: nat, outcomes: Seq<bool>) -> WaitRun
    decreases outcomes.len(),
{
    if outcomes.len() == 0 {
        WaitRun { tries: 0, paused_millis: 0, end: None }
    } else {
        match wait_step(failed, port, outcomes[0]) {
            WaitStepView::Ready => WaitRun {
                tries: 1,
                paused_millis: 0,
                end: Some(WaitStepView::Ready),
            },
            WaitStepView::Retry { pause_millis } => {
                let rest = wait_run(failed + 1, port, outcomes.drop_first());
                WaitRun {
                    tries: rest.tries + 1,
                    paused_millis: rest.paused_millis + pause_millis,
                    end: rest.end,
                }
            },
            WaitStepView::GiveUp { pause_millis, warning } => WaitRun {
                tries: 1,
                paused_millis: pause_millis,
                end: Some(WaitStepView::GiveUp { pause_millis, warning }),
            },
        }
    }
}

proof fn lemma_wait_gives_up(failed: nat, port: nat, outcomes: Seq<bool>)
    requires
        failed < READY_ATTEMPTS,
        outcomes.len() >= READY_ATTEMPTS - failed,
        forall|i: int| 0 <= i < READY_ATTEMPTS - failed ==> !outcomes[i],
    ensures
        wait_run(failed, port, outcomes) == (WaitRun {
            tries: (READY_ATTEMPTS - failed) as nat,
            paused_millis: READY_PAUSE_MILLIS * (READY_ATTEMPTS - failed),
            end: Some(
                WaitStepView::GiveUp {
                    pause_millis: READY_PAUSE_MILLIS as int,
                    warning: not_ready_warning(port),
                },
            ),
        }),
    decreases READY_ATTEMPTS - failed,
{
    if failed + 1 < READY_ATTEMPTS {
        lemma_wait_gives_up(failed + 1, port, outcomes.drop_first());
    }
}

proof fn lemma_wait_ends_at_connection(failed: nat, port: nat, outcomes: Seq<bool>, k: int)
    requires
        0 <= k < outcomes.len(),
        failed + k < READY_ATTEMPTS,
        outcomes[k],
        forall|i: int| 0 <= i < k ==> !outcomes[i],
    ensures
        wait_run(failed, port, outcomes) == (WaitRun {
            tries: (k + 1) as nat,
            paused_millis: READY_PAUSE_MILLIS * k,
            end: Some(WaitStepView::Ready),
        }),
    decreases k,
{
    if k > 0 {
        lemma_wait_ends_at_connection(failed + 1, port, outcomes.drop_first(), k - 1);
    }
}

/// A backend that never comes up is given up on, with a warning, after six hundred tries and
/// five minutes of pauses.
pub proof fn law_wait_gives_up_after_five_minutes(port: nat, outcomes: Seq<bool>)
    requires
        outcomes.len() >= 600,
        forall|i: int| 0 <= i < 600 ==> !outcomes[i],
    ensures
        wait_run(0, port, outcomes).tries == 600,
        wait_run(0, port, outcomes).paused_millis == 5 * 60 * 1000,
        wait_run(0, port, outcomes).end == Some(
            WaitStepView::GiveUp {
                pause_millis: READY_PAUSE_MILLIS as int,
                warning: not_ready_warning(port),
            },
        ),
{
    lemma_wait_gives_up(0, port, outcomes);
}

/// The wait ends at the first connection, half a second after each try that failed before it.
pub proof fn law_wait_ends_at_first_connection(port: nat, outcomes: Seq<bool>, k: int)
    requires
        0 <= k < outcomes.len(),
        k < 600,
        outcomes[k],
        forall|i: int| 0 <= i < k ==> !outcomes[i],
    ensures
        wait_run(0, port, outcomes) == (WaitRun {
            tries: (k + 1) as nat,
            paused_millis: 500 * k,
            end: Some(WaitStepView::Ready),
        }),
{
    lemma_wait_ends_at_connection(0, port, outcomes, k);
}

/// The arguments are the same for every installation and every folder: `uv` runs uvicorn on the
/// backend's application, on the local host and on port 8000.
pub proof fn law_arguments_are_fixed(
    installation: Installation,
    app_data_dir: Seq<u8>,
    projects_dir: Seq<u8>,
)
    ensures
        command_of(installation, app_data_dir, projects_dir).args == seq![
            "run"@,
            "uvicorn"@,
            "app.main:app"@,
            "--host"@,
            "127.0.0.1"@,
            "--port"@,
            "8000"@,
        ],
{
    reveal_with_fuel(text::decimal, 5);
    reveal_strlit("8000");
    assert(text::decimal(8000) =~= "8000"@);
}

/// The backend is run by the installation's `uv` from the installation's source, and is told of
/// two places: its own data directory and the projects folder. Nothing else is passed on to it,
/// and all that it prints goes to the log.
pub proof fn law_command_names_its_places(
    installation: Installation,
    app_data_dir: Seq<u8>,
    projects_dir: Seq<u8>,
)
    ensures
        ({
            let command = command_of(installation, app_data_dir, projects_dir);
            let bare = app_data_dir.len() == 0 || app_data_dir.last() == 47;
            let log = app_data_dir + vstd::utf8::encode_utf8(
                if bare { "backend.log"@ } else { "/backend.log"@ },
            );
            let data = app_data_dir + vstd::utf8::encode_utf8(
                if bare { "data"@ } else { "/data"@ },
            );
            &&& command.program == projects::uv_path_of(installation)
            &&& command.current_dir == projects::backend_dir_of(installation)
            &&& command.env == seq![("DATA_DIR"@, data), ("PROJECTS_DIR"@, projects_dir)]
            &&& command.stdout == log
            &&& command.stderr == log
            &&& log_path_of(app_data_dir) == log
            &&& data_dir(app_data_dir) == data
        }),
{
    reveal_strlit("data");
    reveal_strlit("/data");
    reveal_strlit("backend.log");
    reveal_strlit("/backend.log");
    assert("/data"@ =~= seq!['/'] + "data"@);
    assert("/backend.log"@ =~= seq!['/'] + "backend.log"@);
    paths::law_child_is_written_behind(app_data_dir, "data", "/data");
    paths::law_child_is_written_behind(app_data_dir, "backend.log", "/backend.log");
}

/// The user's projects never end up in the backend's own data: the default folder is neither the
/// directory that the backend is told to keep its data in, nor inside it, nor around it.
pub proof fn law_projects_stay_out_of_backend_data(
    installation: Installation,
    app_data_dir: Seq<u8>,
    document_dir: Option<Seq<u8>>,
)
    ensures
        ({
            let folder = projects::projects_dir(None, document_dir, false, app_data_dir);
            let env = command_of(installation, app_data_dir, folder).env;
            &&& env[0].0 == "DATA_DIR"@
            &&& env[1] == ("PROJECTS_DIR"@, folder)
            &&& env[0].1 != folder
            &&& !paths::inside(folder, env[0].1)
            &&& !paths::inside(env[0].1, folder)
        }),
{
    let folder = projects::new_default(app_data_dir);
    let data = data_dir(app_data_dir);
    let n = paths::opened(app_data_dir).len() as int;
    reveal_strlit("Projects");
    reveal_strlit("data");
    vstd::utf8::is_ascii_chars_encode_utf8("Projects"@);
    vstd::utf8::is_ascii_chars_encode_utf8("data"@);
    assert(folder[n] == 80);
    assert(data[n] == 100);
    paths::law_inside_goes_on_behind(folder, data);
    paths::law_inside_goes_on_behind(data, folder);
    assert(data.take(data.len() as int)[n] == 100);
    if folder.len() >= data.len() {
        assert(folder.take(data.len() as int)[n] == 80);
    }
    if data.len() >= folder.len() {
        assert(data.take(folder.len() as int)[n] == 100);
    }
}

/// What is said of a log that cannot be created, of a process that cannot be started and of a
/// backend that does not come up names what failed and why.
pub proof fn law_messages_name_what_failed(
    shown: Seq<char>,
    shown_dir: Seq<char>,
    reason: Seq<char>,
    port: nat,
)
    ensures
        log_failure_of(shown, reason) == "could not create backend log at "@ + shown + ": "@
            + reason,
        start_failure_of(shown, shown_dir, reason)
            == "failed to start the Dagster Designer backend via `"@ + shown + " run` in "@
            + shown_dir + ": "@ + reason
            + "\nIn a dev build, make sure `uv` is installed and on PATH (https://docs.astral.sh/uv/)."@,
        backend_address_of(port) == "127.0.0.1:"@ + text::decimal(port),
        not_ready_warning(port) == "warning: backend did not become ready on 127.0.0.1:"@
            + text::decimal(port) + " within 5m; continuing anyway"@,
{
    reveal_strlit("warning: backend did not become ready on ");
    reveal_strlit("warning: backend did not become ready on 127.0.0.1:");
    reveal_strlit("127.0.0.1:");
    assert("warning: backend did not become ready on 127.0.0.1:"@
        =~= "warning: backend did not become ready on "@ + "127.0.0.1:"@);
    assert(not_ready_warning(port) =~= "warning: backend did not become ready on 127.0.0.1:"@
        + text::decimal(port) + " within 5m; continuing anyway"@);
}

/// A connection always ends the wait; a try that failed is followed by half a second of pause and
/// another try, until the six hundredth, which is followed by the warning.
pub proof fn law_each_try_is_answered(failed: nat, port: nat)
    ensures
        wait_step(failed, port, true) is Ready,
        failed < 599 ==> wait_step(failed, port, false) == (WaitStepView::Retry {
            pause_millis: 500,
        }),
        failed >= 599 ==> wait_step(failed, port, false) == (WaitStepView::GiveUp {
            pause_millis: 500,
            warning: not_ready_warning(port),
        }),
{
}

} // verus!
