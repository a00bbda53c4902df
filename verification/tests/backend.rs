use dagster_designer_desktop::backend::{
    backend_address, backend_command, log_failure, log_path, start_failure, wait_for_backend,
    BackendCommand, BackendProcess, EnvVar, WaitStep, BACKEND_PORT,
};
use dagster_designer_desktop::paths::FsPath;
use dagster_designer_desktop::projects::Installation;
use dagster_designer_desktop::stop::Stop;

fn path(text: &str) -> FsPath {
    FsPath::from_text(text)
}

fn texts(list: &[&str]) -> Vec<String> {
    list.iter().map(|s| s.to_string()).collect()
}

#[test]
fn a_packaged_backend_is_started_from_the_bundle() {
    let installation = Installation::Packaged { resource_dir: path("/App/Resources") };
    assert_eq!(
        backend_command(&installation, &path("/data"), &path("/mine")),
        BackendCommand {
            program: path("/App/Resources/bin/uv"),
            args: texts(&[
                "run",
                "uvicorn",
                "app.main:app",
                "--host",
                "127.0.0.1",
                "--port",
                "8000",
            ]),
            current_dir: path("/App/Resources/backend"),
            env: vec![
                EnvVar { name: "DATA_DIR".to_string(), value: path("/data/data") },
                EnvVar { name: "PROJECTS_DIR".to_string(), value: path("/mine") },
            ],
            stdout: path("/data/backend.log"),
            stderr: path("/data/backend.log"),
        }
    );
}

#[test]
fn a_development_backend_is_started_from_the_checkout() {
    let installation = Installation::Development { manifest_dir: path("/repo/desktop") };
    let command = backend_command(&installation, &path("/data"), &path("/mine"));
    assert_eq!(command.program, path("uv"));
    assert_eq!(command.current_dir, path("/repo/desktop/../backend"));
}

#[test]
fn the_backend_is_awaited_where_it_listens() {
    let installation = Installation::Development { manifest_dir: path("/repo") };
    let command = backend_command(&installation, &path("/data"), &path("/mine"));
    assert_eq!(
        wait_for_backend(BACKEND_PORT).address(),
        format!("{}:{}", command.args[4], command.args[6])
    );
    assert_eq!(backend_address(8000), "127.0.0.1:8000");
}

#[test]
fn a_backend_that_is_there_is_ready_at_once() {
    let mut wait = wait_for_backend(8000);
    assert_eq!(wait.tried(true), WaitStep::Ready);
}

#[test]
fn the_wait_ends_at_the_first_connection() {
    let mut wait = wait_for_backend(8000);
    for _ in 0..599 {
        assert_eq!(wait.tried(false), WaitStep::Retry { pause_millis: 500 });
    }
    assert_eq!(wait.tried(true), WaitStep::Ready);
}

#[test]
fn the_wait_gives_up_after_five_minutes() {
    let mut wait = wait_for_backend(8000);
    let mut paused = 0;
    let mut tries = 0;
    loop {
        tries += 1;
        match wait.tried(false) {
            WaitStep::Retry { pause_millis } => paused += pause_millis,
            WaitStep::GiveUp { pause_millis, warning } => {
                paused += pause_millis;
                assert_eq!(
                    warning,
                    "warning: backend did not become ready on 127.0.0.1:8000 within 5m; \
                     continuing anyway"
                );
                break;
            }
            WaitStep::Ready => panic!("nothing ever connected"),
        }
    }
    assert_eq!(tries, 600);
    assert_eq!(paused, 5 * 60 * 1000);
}

#[test]
fn a_started_process_is_stopped_once() {
    let mut process = BackendProcess::new();
    assert_eq!(process.kill_backend(), (None, Stop::ListPort));
    process.started(7);
    process.started(8);
    assert_eq!(process.kill_backend(), (Some(8), Stop::KillChild));
    assert_eq!(process.kill_backend(), (None, Stop::ListPort));
}

#[test]
fn the_log_lies_in_the_data_directory() {
    assert_eq!(log_path(&path("/data")), path("/data/backend.log"));
}

#[test]
fn a_log_that_cannot_be_created_is_named() {
    assert_eq!(
        log_failure("\"/data/backend.log\"", "Is a directory (os error 21)"),
        "could not create backend log at \"/data/backend.log\": Is a directory (os error 21)"
    );
}

#[test]
fn a_process_that_cannot_be_started_is_named() {
    assert_eq!(
        start_failure("\"uv\"", "\"/repo/../backend\"", "not found"),
        "failed to start the Dagster Designer backend via `\"uv\" run` in \"/repo/../backend\": \
         not found\nIn a dev build, make sure `uv` is installed and on PATH \
         (https://docs.astral.sh/uv/)."
    );
}
