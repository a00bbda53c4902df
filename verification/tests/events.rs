use dagster_designer_desktop::events::{
    on_menu_event, on_run_event, on_window_event, Response,
};

fn forwarded(id: &str) -> Response {
    Response::Emit { event: "menu-action".to_string(), payload: id.to_string() }
}

#[test]
fn the_quit_item_quits() {
    assert_eq!(on_menu_event("quit"), Response::Quit { exit_code: 0 });
}

#[test]
fn closing_the_window_quits() {
    assert_eq!(on_window_event(true), Response::Quit { exit_code: 0 });
    assert_eq!(on_window_event(true), on_menu_event("quit"));
}

#[test]
fn the_end_of_the_run_quits() {
    assert_eq!(on_run_event(true), Response::Quit { exit_code: 0 });
    assert_eq!(on_run_event(true), on_menu_event("quit"));
    assert_eq!(on_run_event(false), Response::Ignore);
}

#[test]
fn other_window_events_are_left_alone() {
    assert_eq!(on_window_event(false), Response::Ignore);
}

#[test]
fn what_the_frontend_owns_is_forwarded() {
    for id in [
        "project:new",
        "actions:export",
        "app:preferences",
        "page:Monitors:refresh",
        "view:assets",
        "view:",
    ] {
        assert_eq!(on_menu_event(id), forwarded(id));
    }
}

#[test]
fn anything_else_is_ignored() {
    for id in ["", "quit ", "Quit", "project", "xproject:new", "View:assets", "copy"] {
        assert_eq!(on_menu_event(id), Response::Ignore);
    }
}
