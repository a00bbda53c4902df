//! Stopping the backend, one step at a time: its process is killed, and then its port is cleared.

use crate::backend::BACKEND_PORT;
use crate::spawn;
use crate::stale;
use crate::stale::{kill_stale_backend_on_port, lsof_args, StaleStep, StaleStepView};
use crate::text;
use vstd::prelude::*;

verus! {

/// What is to be done next in stopping the backend.
#[derive(Debug, PartialEq, Eq)]
pub enum StopRequest {
    /// Kill the process that was given up.
    KillChild,
    /// Run `lsof` with these arguments.
    ListPort { args: Vec<String> },
    /// Take these steps.
    ClearPort { steps: Vec<StaleStep> },
}

/// What came of a request.
#[derive(Debug, PartialEq, Eq)]
pub enum StopReply {
    /// It was tried.
    Done,
    /// What `lsof` printed, or nothing where it could not be run.
    Listed { output: Option<Vec<u8>> },
}

/// How far stopping the backend has come.
#[derive(Debug, PartialEq, Eq)]
pub enum Stop {
    KillChild,
    ListPort,
    ClearPort { output: Option<Vec<u8>> },
    Stopped,
}

/// What a [`StopRequest`] says.
#[verifier::ext_equal]
pub enum StopRequestView {
    KillChild,
    ListPort { args: Seq<Seq<char>> },
    ClearPort { steps: Seq<StaleStepView> },
}

/// What a [`StopReply`] says.
pub enum StopReplyView {
    Done,
    Listed { output: Option<Seq<u8>> },
}

/// What a [`Stop`] says.
pub enum StopView {
    KillChild,
    ListPort,
    ClearPort { output: Option<Seq<u8>> },
    Stopped,
}

impl View for StopRequest {
    type V = StopRequestView;

    open spec fn view(&self) -> StopRequestView {
        match *self {
            StopRequest::KillChild => StopRequestView::KillChild,
            StopRequest::ListPort { args } => StopRequestView::ListPort {
                args: text::texts(args@),
            },
            StopRequest::ClearPort { steps } => StopRequestView::ClearPort {
                steps: stale::stale_step_views(steps@),
            },
        }
    }
}

impl View for StopReply {
    type V = StopReplyView;

    open spec fn view(&self) -> StopReplyView {
        match *self {
            StopReply::Done => StopReplyView::Done,
            StopReply::Listed { output } => StopReplyView::Listed {
                output: spawn::optional_bytes(output),
            },
        }
    }
}

impl View for Stop {
    type V = StopView;

    open spec fn view(&self) -> StopView {
        match *self {
            Stop::KillChild => StopView::KillChild,
            Stop::ListPort => StopView::ListPort,
            Stop::ClearPort { output } => StopView::ClearPort {
                output: spawn::optional_bytes(output),
            },
            Stop::Stopped => StopView::Stopped,
        }
    }
}

/// The view of an optional request.
pub open spec fn optional_stop_request(request: Option<StopRequest>) -> Option<StopRequestView> {
    match request {
        Some(r) => Some(r@),
        None => None,
    }
}

impl StopView {
    /// A stop that begins, with or without a process to kill.
    pub open spec fn begun(has_child: bool) -> StopView {
        if has_child {
            StopView::KillChild
        } else {
            StopView::ListPort
        }
    }

    /// What is to be done next: nothing once the port was cleared.
    pub open spec fn request(self) -> Option<StopRequestView> {
        match self {
            StopView::KillChild => Some(StopRequestView::KillChild),
            StopView::ListPort => Some(
                StopRequestView::ListPort { args: stale::lsof_args_of(BACKEND_PORT as nat) },
            ),
            StopView::ClearPort { output } => Some(
                StopRequestView::ClearPort {
                    steps: stale::steps_for(BACKEND_PORT as nat, output),
                },
            ),
            StopView::Stopped => None,
        }
    }

    /// The stop after a reply. A reply that does not fit the request changes nothing.
    pub open spec fn replied(self, reply: StopReplyView) -> StopView {
        match (self, reply) {
            (StopView::KillChild, StopReplyView::Done) => StopView::ListPort,
            (StopView::ListPort, StopReplyView::Listed { output }) => StopView::ClearPort {
                output,
            },
            (StopView::ClearPort { output }, StopReplyView::Done) => StopView::Stopped,
            _ => self,
        }
    }
}

/// Begins to stop the backend, with or without a process to kill.
pub fn stop_backend(has_child: bool) -> (res: Stop)
    ensures
        res@ == StopView::begun(has_child),
{
    if has_child {
        Stop::KillChild
    } else {
        Stop::ListPort
    }
}

impl Stop {
    /// Says what is to be done next.
    pub fn request(&self) -> (res: Option<StopRequest>)
        ensures
            optional_stop_request(res) == self@.request(),
    {
        match self {
            Stop::KillChild => Some(StopRequest::KillChild),
            Stop::ListPort => Some(StopRequest::ListPort { args: lsof_args(BACKEND_PORT) }),
            Stop::ClearPort { output } => {
                let steps = match output {
                    Some(bytes) => kill_stale_backend_on_port(
                        BACKEND_PORT,
                        Some(bytes.as_slice()),
                    ),
                    None => kill_stale_backend_on_port(BACKEND_PORT, None),
                };
                Some(StopRequest::ClearPort { steps })
            },
            Stop::Stopped => None,
        }
    }

    /// Takes note of what came of the request.
    pub fn reply(self, reply: StopReply) -> (res: Stop)
        ensures
            res@ == self@.replied(reply@),
    {
        match (self, reply) {
            (Stop::KillChild, StopReply::Done) => Stop::ListPort,
            (Stop::ListPort, StopReply::Listed { output }) => Stop::ClearPort { output },
            (Stop::ClearPort { output: _ }, StopReply::Done) => Stop::Stopped,
            (other, _) => other,
        }
    }
}

/// A stop after a row of replies.
pub open spec fn stop_run(begun: StopView, replies: Seq<StopReplyView>) -> StopView
    decreases replies.len(),
{
    if replies.len() == 0 {
        begun
    } else {
        stop_run(begun, replies.drop_last()).replied(replies.last())
    }
}

/// Whether the reply at `i` says that the port was cleared of what `lsof` had listed just before.
pub open spec fn clears(has_child: bool, replies: Seq<StopReplyView>, i: int) -> bool {
    let begun = StopView::begun(has_child);
    let before = stop_run(begun, replies.take(i));
    &&& 0 <= i < replies.len()
    &&& replies[i] is Done
    &&& before matches StopView::ClearPort { output }
    &&& before.request() == Some(
        StopRequestView::ClearPort { steps: stale::steps_for(BACKEND_PORT as nat, output) },
    )
}

/// Whatever the replies, the backend does not count as stopped before its port was cleared,
/// whether or not there was a process to kill.
pub proof fn law_stopped_only_when_cleared(has_child: bool, replies: Seq<StopReplyView>)
    requires
        stop_run(StopView::begun(has_child), replies) is Stopped,
    ensures
        exists|i: int| clears(has_child, replies, i),
    decreases replies.len(),
{
    let rest = replies.drop_last();
    let last = replies.len() - 1;
    assert(replies.take(last) =~= rest);
    if stop_run(StopView::begun(has_child), rest) is Stopped {
        law_stopped_only_when_cleared(has_child, rest);
        let i = choose|i: int| clears(has_child, rest, i);
        assert(replies.take(i) =~= rest.take(i));
        assert(clears(has_child, replies, i));
    } else {
        assert(clears(has_child, replies, last));
    }
}

/// A process that was given up is killed before the port is so much as listed, and a stop never
/// gets stuck: it asks for something until the port was cleared.
pub proof fn law_child_is_killed_first(stop: StopView, reply: StopReplyView)
    ensures
        StopView::begun(true).request() == Some(StopRequestView::KillChild),
        StopView::KillChild.replied(reply) !is KillChild ==> {
            &&& reply is Done
            &&& StopView::KillChild.replied(reply) is ListPort
        },
        stop !is KillChild ==> stop.replied(reply) !is KillChild,
        stop.request() is None <==> stop is Stopped,
{
}

/// A whole stop: the process is killed, the port is listed, and what was listed is cleared away,
/// all on the one port.
pub proof fn law_whole_stop(output: Option<Seq<u8>>)
    ensures
        ({
            let s0 = StopView::begun(true);
            let s1 = s0.replied(StopReplyView::Done);
            let s2 = s1.replied(StopReplyView::Listed { output });
            let s3 = s2.replied(StopReplyView::Done);
            &&& s0.request() == Some(StopRequestView::KillChild)
            &&& s1 == StopView::begun(false)
            &&& s1.request() == Some(
                StopRequestView::ListPort { args: stale::lsof_args_of(BACKEND_PORT as nat) },
            )
            &&& s2.request() == Some(
                StopRequestView::ClearPort {
                    steps: stale::steps_for(BACKEND_PORT as nat, output),
                },
            )
            &&& s3 is Stopped
            &&& s3.request() is None
        }),
{
}

/// A reply that does not fit the request leaves the stop where it is.
pub proof fn law_stop_waits_for_its_reply(output: Option<Seq<u8>>, listed: Option<Seq<u8>>)
    ensures
        StopView::KillChild.replied(StopReplyView::Listed { output: listed }) is KillChild,
        StopView::ListPort.replied(StopReplyView::Done) is ListPort,
        (StopView::ClearPort { output }).replied(StopReplyView::Listed { output: listed })
            == (StopView::ClearPort { output }),
        StopView::Stopped.replied(StopReplyView::Done) is Stopped,
        StopView::Stopped.replied(StopReplyView::Listed { output: listed }) is Stopped,
{
}

/// Whatever `lsof` printed when the backend is stopped, every line of it that is not empty is a
/// process that is killed. One report and one kill come for each, then one pause, and nothing else.
pub proof fn law_stop_kills_every_listener(bytes: Seq<u8>, k: int)
    requires
        0 <= k < text::lines(text::spelled(bytes)).len(),
        text::lines(text::spelled(bytes))[k].len() > 0,
    ensures
        (StopView::ClearPort { output: Some(bytes) }).request() matches Some(
            StopRequestView::ClearPort { steps },
        ) && {
            &&& exists|j: int|
                0 <= j < steps.len() && #[trigger] steps[j] == (StaleStepView::Kill {
                    args: seq!["-9"@, text::lines(text::spelled(bytes))[k]],
                })
            &&& steps.len() == 2 * stale::listed_pids(text::spelled(bytes)).len() + 1
            &&& forall|i: int|
                0 <= i < stale::listed_pids(text::spelled(bytes)).len() ==> steps[2 * i + 1] == (
                StaleStepView::Kill {
                    args: seq!["-9"@, #[trigger] stale::listed_pids(text::spelled(bytes))[i]],
                })
        },
        (StopView::ClearPort { output: None }).request() == Some(
            StopRequestView::ClearPort { steps: Seq::empty() },
        ),
{
    let steps = stale::steps_for(BACKEND_PORT as nat, Some(bytes));
    stale::law_every_line_is_killed(BACKEND_PORT as nat, bytes, k);
    let pids = stale::listed_pids(text::spelled(bytes));
    stale::law_every_line_is_listed(text::spelled(bytes), k);
    assert forall|i: int| 0 <= i < pids.len() implies steps[2 * i + 1] == (StaleStepView::Kill {
        args: seq!["-9"@, #[trigger] pids[i]],
    }) by {
        stale::law_listing_is_cleared_away(BACKEND_PORT as nat, bytes, i);
    }
    stale::law_listing_is_cleared_away(BACKEND_PORT as nat, bytes, 0);
    let j = choose|j: int|
        0 <= j < steps.len() && #[trigger] steps[j] == (StaleStepView::Kill {
            args: seq!["-9"@, text::lines(text::spelled(bytes))[k]],
        });
    assert((StopView::ClearPort { output: Some(bytes) }).request() == Some(
        StopRequestView::ClearPort { steps },
    ));
    assert(0 <= j < steps.len());
}

/// The port that is listed is 8000, and only its listeners are.
pub proof fn law_stop_lists_the_backend_port()
    ensures
        StopView::ListPort.request() == Some(
            StopRequestView::ListPort { args: seq!["-ti"@, ":8000"@, "-sTCP:LISTEN"@] },
        ),
{
    stale::law_lsof_is_asked_for_listeners(8000);
    reveal_with_fuel(text::decimal, 5);
    reveal_strlit(":8000");
    assert(seq![':'] + text::decimal(8000) =~= ":8000"@);
    assert(stale::lsof_args_of(8000) =~= seq!["-ti"@, ":8000"@, "-sTCP:LISTEN"@]);
}

} // verus!
