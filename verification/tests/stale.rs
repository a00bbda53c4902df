use dagster_designer_desktop::stale::{
    clear_port, kill_stale_backend_on_port, lsof_args, stale_pids, StaleStep,
};

fn report(line: &str) -> StaleStep {
    StaleStep::Report { line: line.to_string() }
}

fn kill(pid: &str) -> StaleStep {
    StaleStep::Kill { args: vec!["-9".to_string(), pid.to_string()] }
}

#[test]
fn only_listeners_on_the_port_are_listed() {
    assert_eq!(lsof_args(8000), vec!["-ti", ":8000", "-sTCP:LISTEN"]);
    assert_eq!(lsof_args(0), vec!["-ti", ":0", "-sTCP:LISTEN"]);
}

#[test]
fn empty_lines_are_no_processes() {
    assert_eq!(stale_pids("12\n\n345\n"), vec!["12", "345"]);
    assert_eq!(stale_pids("\n\r\n"), Vec::<String>::new());
    assert_eq!(stale_pids("12\r\n345"), vec!["12", "345"]);
}

#[test]
fn every_listed_process_is_reported_and_killed() {
    assert_eq!(
        clear_port(8000, "12\n345\n"),
        vec![
            report("Killing stale process on port 8000: pid 12"),
            kill("12"),
            report("Killing stale process on port 8000: pid 345"),
            kill("345"),
            StaleStep::Settle { millis: 500 },
        ]
    );
}

#[test]
fn a_free_port_is_left_alone() {
    assert_eq!(clear_port(8000, ""), vec![]);
    assert_eq!(clear_port(8000, "\n"), vec![]);
}

#[test]
fn the_output_is_read_as_bytes() {
    assert_eq!(
        kill_stale_backend_on_port(81, Some(b"7\n")),
        vec![
            report("Killing stale process on port 81: pid 7"),
            kill("7"),
            StaleStep::Settle { millis: 500 },
        ]
    );
}

#[test]
fn unreadable_output_is_read_with_replacements() {
    assert_eq!(
        kill_stale_backend_on_port(81, Some(b"7\xff\n")),
        vec![
            report("Killing stale process on port 81: pid 7\u{FFFD}"),
            kill("7\u{FFFD}"),
            StaleStep::Settle { millis: 500 },
        ]
    );
}

#[test]
fn without_a_listing_nothing_is_done() {
    assert_eq!(kill_stale_backend_on_port(8000, None), vec![]);
}
