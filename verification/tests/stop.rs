use dagster_designer_desktop::stale::StaleStep;
use dagster_designer_desktop::stop::{stop_backend, Stop, StopReply, StopRequest};

fn listing() -> Option<StopRequest> {
    Some(StopRequest::ListPort {
        args: vec!["-ti".to_string(), ":8000".to_string(), "-sTCP:LISTEN".to_string()],
    })
}

#[test]
fn the_process_is_killed_and_then_the_port_is_cleared() {
    let stop = stop_backend(true);
    assert_eq!(stop.request(), Some(StopRequest::KillChild));
    let stop = stop.reply(StopReply::Done);
    assert_eq!(stop.request(), listing());
    let stop = stop.reply(StopReply::Listed { output: Some(b"5\n".to_vec()) });
    assert_eq!(
        stop.request(),
        Some(StopRequest::ClearPort {
            steps: vec![
                StaleStep::Report {
                    line: "Killing stale process on port 8000: pid 5".to_string(),
                },
                StaleStep::Kill { args: vec!["-9".to_string(), "5".to_string()] },
                StaleStep::Settle { millis: 500 },
            ],
        })
    );
    let stop = stop.reply(StopReply::Done);
    assert_eq!(stop, Stop::Stopped);
    assert_eq!(stop.request(), None);
}

#[test]
fn the_port_is_cleared_without_a_process_too() {
    let stop = stop_backend(false);
    assert_eq!(stop.request(), listing());
    let stop = stop.reply(StopReply::Listed { output: None });
    assert_eq!(stop.request(), Some(StopRequest::ClearPort { steps: vec![] }));
}

#[test]
fn a_stop_skips_nothing() {
    let listed = || StopReply::Listed { output: None };
    assert_eq!(stop_backend(true).reply(listed()), Stop::KillChild);
    assert_eq!(stop_backend(false).reply(StopReply::Done), Stop::ListPort);
    let clearing = stop_backend(false).reply(listed());
    assert_eq!(clearing.reply(listed()), Stop::ClearPort { output: None });
    assert_eq!(Stop::Stopped.reply(StopReply::Done), Stop::Stopped);
}
