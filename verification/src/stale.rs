//! Clearing a port of whatever still listens on it, such as the backend of an earlier run.

use crate::text;
use crate::text::{decimal_text, split_lines, text_from_bytes};
use vstd::prelude::*;
use vstd::string::*;

verus! {

/// How long a killed process is given to release its port.
pub const SETTLE_MILLIS: u64 = 500;

/// A step in clearing a port.
#[derive(Debug, PartialEq, Eq)]
pub enum StaleStep {
    /// Report a line to the user.
    Report { line: String },
    /// Run `kill` with these arguments.
    Kill { args: Vec<String> },
    /// Pause.
    Settle { millis: u64 },
}

/// What a [`StaleStep`] says.
#[verifier::ext_equal]
pub enum StaleStepView {
    Report { line: Seq<char> },
    Kill { args: Seq<Seq<char>> },
    Settle { millis: int },
}

impl View for StaleStep {
    type V = StaleStepView;

    open spec fn view(&self) -> StaleStepView {
        match *self {
            StaleStep::Report { line } => StaleStepView::Report { line: line@ },
            StaleStep::Kill { args } => StaleStepView::Kill { args: text::texts(args@) },
            StaleStep::Settle { millis } => StaleStepView::Settle { millis: millis as int },
        }
    }
}

/// The views of a list of steps.
pub open spec fn stale_step_views(steps: Seq<StaleStep>) -> Seq<StaleStepView> {
    steps.map_values(|s: StaleStep| s@)
}

/// The arguments with which `lsof` lists the processes that listen on a port, one id to a line.
/// Those that only hold a connection to such a port are left out.
pub open spec fn lsof_args_of(port: nat) -> Seq<Seq<char>> {
    seq!["-ti"@, ":"@ + text::decimal(port), "-sTCP:LISTEN"@]
}

/// The arguments with which `lsof` lists the processes that listen on a port.
pub fn lsof_args(port: u16) -> (res: Vec<String>)
    ensures
        text::texts(res@) == lsof_args_of(port as nat),
{
    let filter = ":".to_owned().concat(decimal_text(port).as_str());
    let res = vec!["-ti".to_owned(), filter, "-sTCP:LISTEN".to_owned()];
    assert(text::texts(res@) =~= lsof_args_of(port as nat));
    res
}

/// The process ids in what `lsof` printed: its lines, without the empty ones.
pub open spec fn listed_pids(output: Seq<char>) -> Seq<Seq<char>> {
    text::lines(output).filter(|line: Seq<char>| line.len() > 0)
}

/// What is reported when a process is about to be killed.
pub open spec fn kill_report(port: nat, pid: Seq<char>) -> Seq<char> {
    "Killing stale process on port "@ + text::decimal(port) + ": pid "@ + pid
}

/// The steps for one process: it is reported, then killed.
pub open spec fn kill_steps(port: nat, pid: Seq<char>) -> Seq<StaleStepView> {
    seq![
        StaleStepView::Report { line: kill_report(port, pid) },
        StaleStepView::Kill { args: seq!["-9"@, pid] },
    ]
}

/// The steps for a list of processes, one after the other.
pub open spec fn kill_all_steps(port: nat, pids: Seq<Seq<char>>) -> Seq<StaleStepView>
    decreases pids.len(),
{
    if pids.len() == 0 {
        Seq::empty()
    } else {
        kill_all_steps(port, pids.drop_last()) + kill_steps(port, pids.last())
    }
}

/// The steps that clear a port, given what `lsof` printed: every process that it listed is
/// killed, and if there was any, its port is given time to settle.
pub open spec fn clearing_steps(port: nat, output: Seq<char>) -> Seq<StaleStepView> {
    let pids = listed_pids(output);
    kill_all_steps(port, pids) + if pids.len() > 0 {
        seq![StaleStepView::Settle { millis: SETTLE_MILLIS as int }]
    } else {
        Seq::empty()
    }
}

/// Reads the process ids in what `lsof` printed.
pub fn stale_pids(output: &str) -> (res: Vec<String>)
    ensures
        text::texts(res@) == listed_pids(output@),
{
    let lines = split_lines(output);
    let ghost kept = |line: Seq<char>| line.len() > 0;
    let ghost all = text::lines(output@);
    let mut res: Vec<String> = Vec::new();
    let mut i: usize = 0;
    assert(text::texts(res@) =~= all.take(0).filter(kept)) by {
        reveal(Seq::filter);
    }
    while i < lines.len()
        invariant
            i <= lines@.len(),
            all == text::texts(lines@),
            kept == (|line: Seq<char>| line.len() > 0),
            text::texts(res@) == all.take(i as int).filter(kept),
        decreases lines@.len() - i,
    {
        let ghost before = res@;
        assert(all[i as int] == lines@[i as int]@);
        assert(all.take(i + 1).drop_last() =~= all.take(i as int));
        assert(all.take(i + 1).last() == lines@[i as int]@);
        if !lines[i].as_str().is_empty() {
            res.push(lines[i].clone());
            assert(text::texts(res@) =~= text::texts(before).push(lines@[i as int]@));
        }
        proof {
            reveal(Seq::filter);
        }
        i = i + 1;
    }
    assert(all.take(i as int) =~= all);
    res
}

fn push_kill_steps(steps: &mut Vec<StaleStep>, port: u16, pid: &str)
    ensures
        stale_step_views(final(steps)@) == stale_step_views(old(steps)@) + kill_steps(
            port as nat,
            pid@,
        ),
{
    let line = "Killing stale process on port ".to_owned().concat(
        decimal_text(port).as_str(),
    ).concat(": pid ").concat(pid);
    steps.push(StaleStep::Report { line });
    let args = vec!["-9".to_owned(), pid.to_owned()];
    assert(text::texts(args@) =~= seq!["-9"@, pid@]);
    steps.push(StaleStep::Kill { args });
    assert(stale_step_views(steps@) =~= stale_step_views(old(steps)@) + kill_steps(
        port as nat,
        pid@,
    ));
}

/// The steps that clear a port, given what `lsof` printed.
pub fn clear_port(port: u16, output: &str) -> (res: Vec<StaleStep>)
    ensures
        stale_step_views(res@) == clearing_steps(port as nat, output@),
{
    let pids = stale_pids(output);
    let ghost all = listed_pids(output@);
    let mut steps: Vec<StaleStep> = Vec::new();
    let mut i: usize = 0;
    assert(stale_step_views(steps@) =~= kill_all_steps(port as nat, all.take(0)));
    while i < pids.len()
        invariant
            i <= pids@.len(),
            all == text::texts(pids@),
            stale_step_views(steps@) == kill_all_steps(port as nat, all.take(i as int)),
        decreases pids@.len() - i,
    {
        push_kill_steps(&mut steps, port, pids[i].as_str());
        assert(all.take(i + 1).drop_last() =~= all.take(i as int));
        assert(all.take(i + 1).last() == pids@[i as int]@);
        i = i + 1;
    }
    assert(all.take(i as int) =~= all);
    if pids.len() > 0 {
        steps.push(StaleStep::Settle { millis: SETTLE_MILLIS });
    }
    assert(stale_step_views(steps@) =~= clearing_steps(port as nat, output@));
    steps
}

/// The steps that kill whatever listens on a port, given the bytes that `lsof` printed, or
/// nothing where it could not be run: then there are none.
pub open spec fn steps_for(port: nat, lsof_output: Option<Seq<u8>>) -> Seq<StaleStepView> {
    match lsof_output {
        Some(bytes) => clearing_steps(port, text::spelled(bytes)),
        None => Seq::empty(),
    }
}

/// Decides how to kill whatever listens on a port, given the bytes that `lsof` printed, or
/// nothing where it could not be run.
pub fn kill_stale_backend_on_port(port: u16, lsof_output: Option<&[u8]>) -> (res: Vec<StaleStep>)
    ensures
        stale_step_views(res@) == steps_for(
            port as nat,
            match lsof_output {
                Some(bytes) => Some(bytes@),
                None => None,
            },
        ),
{
    match lsof_output {
        Some(bytes) => clear_port(port, text_from_bytes(bytes).as_str()),
        None => {
            let res: Vec<StaleStep> = Vec::new();
            assert(stale_step_views(res@) =~= Seq::empty());
            res
        },
    }
}

proof fn lemma_kill_all_steps(port: nat, pids: Seq<Seq<char>>, i: int)
    ensures
        kill_all_steps(port, pids).len() == 2 * pids.len(),
        0 <= i < pids.len() ==> {
            let steps = kill_all_steps(port, pids);
            &&& steps[2 * i] == kill_steps(port, pids[i])[0]
            &&& steps[2 * i + 1] == kill_steps(port, pids[i])[1]
        },
    decreases pids.len(),
{
    if pids.len() > 0 {
        lemma_kill_all_steps(port, pids.drop_last(), i);
    }
}

/// Every listed process is reported and then killed, in the order of the list, and nothing else
/// is. Exactly where there was one, a single pause comes last.
pub proof fn law_clearing_kills_what_is_listed(port: nat, output: Seq<char>, i: int)
    requires
        0 <= i < listed_pids(output).len(),
    ensures
        ({
            let pids = listed_pids(output);
            let steps = clearing_steps(port, output);
            &&& steps.len() == 2 * pids.len() + 1
            &&& steps[2 * i] == (StaleStepView::Report { line: kill_report(port, pids[i]) })
            &&& steps[2 * i + 1] == (StaleStepView::Kill { args: seq!["-9"@, pids[i]] })
            &&& steps.last() == (StaleStepView::Settle { millis: SETTLE_MILLIS as int })
        }),
{
    lemma_kill_all_steps(port, listed_pids(output), i);
}

/// Where nothing is listed, nothing is done, and nothing is waited for.
pub proof fn law_clear_port_is_left_alone(port: nat, output: Seq<char>)
    requires
        listed_pids(output).len() == 0,
    ensures
        clearing_steps(port, output) == Seq::<StaleStepView>::empty(),
{
}

proof fn lemma_lines_hold_no_line_feed(s: Seq<char>, i: int)
    requires
        0 <= i < text::lines(s).len(),
    ensures
        !text::lines(s)[i].contains('\n'),
    decreases s.len(),
{
    let end = text::line_end(s);
    text::lemma_before_line_end(s);
    if end < s.len() {
        if i > 0 {
            lemma_lines_hold_no_line_feed(s.skip(end as int + 1), i - 1);
        }
    }
}

/// No process is missed: every line that is not empty is listed.
pub proof fn law_every_line_is_listed(output: Seq<char>, k: int)
    requires
        0 <= k < text::lines(output).len(),
        text::lines(output)[k].len() > 0,
    ensures
        listed_pids(output).contains(text::lines(output)[k]),
{
    let kept = |line: Seq<char>| line.len() > 0;
    text::lines(output).lemma_filter_contains(kept, k);
}

/// A listed process id is never empty and never spans lines.
pub proof fn law_listed_pids_are_lines(output: Seq<char>, i: int)
    requires
        0 <= i < listed_pids(output).len(),
    ensures
        listed_pids(output)[i].len() > 0,
        !listed_pids(output)[i].contains('\n'),
        text::lines(output).contains(listed_pids(output)[i]),
{
    let all = text::lines(output);
    let kept = |line: Seq<char>| line.len() > 0;
    all.lemma_filter_contains_rev(kept, listed_pids(output)[i]);
    let k = choose|k: int| 0 <= k < all.len() && all[k] == listed_pids(output)[i];
    lemma_lines_hold_no_line_feed(output, k);
}

/// `lsof` is asked for the ids of the listeners on this port, and for nothing else.
pub proof fn law_lsof_is_asked_for_listeners(port: nat)
    ensures
        lsof_args_of(port).len() == 3,
        lsof_args_of(port)[0] == "-ti"@,
        lsof_args_of(port)[1] == seq![':'] + text::decimal(port),
        lsof_args_of(port)[2] == "-sTCP:LISTEN"@,
{
    reveal_strlit(":");
    assert(":"@ =~= seq![':']);
}

/// A line that is not empty lists one process, ahead of those on the lines behind it; an empty
/// line lists none.
pub proof fn law_each_line_lists_one_process(line: Seq<char>, rest: Seq<char>)
    requires
        !line.contains('\n'),
    ensures
        line.len() == 0 ==> {
            &&& listed_pids(line) == Seq::<Seq<char>>::empty()
            &&& listed_pids(seq!['\n'] + rest) == listed_pids(rest)
            &&& listed_pids(seq!['\r', '\n'] + rest) == listed_pids(rest)
        },
        line.len() > 0 ==> {
            &&& listed_pids(line) == seq![line]
            &&& line.last() != '\r' ==> listed_pids(line + seq!['\n'] + rest) == seq![line]
                + listed_pids(rest)
            &&& listed_pids(line + seq!['\r', '\n'] + rest) == seq![line] + listed_pids(rest)
        },
{
    let kept = |l: Seq<char>| l.len() > 0;
    text::law_text_without_line_feed_is_one_line(line);
    text::law_line_feed_ends_a_line(line, rest);
    Seq::filter_distributes_over_add(seq![line], text::lines(rest), kept);
    reveal_with_fuel(Seq::filter, 2);
    assert(seq![line].drop_last() =~= Seq::<Seq<char>>::empty());
    if line.len() == 0 {
        assert(line + seq!['\n'] + rest =~= seq!['\n'] + rest);
        assert(line + seq!['\r', '\n'] + rest =~= seq!['\r', '\n'] + rest);
        assert(seq![line].filter(kept) =~= Seq::<Seq<char>>::empty());
        assert(Seq::<Seq<char>>::empty() + text::lines(rest).filter(kept) =~= listed_pids(rest));
    } else {
        assert(seq![line].filter(kept) =~= seq![line]);
    }
}

/// Whatever `lsof` printed, every process that it listed is reported and then killed, in the order
/// of the list and each under its own id, with one pause at the end; and nothing else is done. A
/// list that could not be had, or that names nobody, leads to nothing.
pub proof fn law_listing_is_cleared_away(port: nat, bytes: Seq<u8>, i: int)
    ensures
        steps_for(port, None) == Seq::<StaleStepView>::empty(),
        ({
            let pids = listed_pids(text::spelled(bytes));
            let steps = steps_for(port, Some(bytes));
            &&& steps.len() == if pids.len() == 0 {
                0
            } else {
                2 * pids.len() + 1
            }
            &&& 0 <= i < pids.len() ==> {
                &&& steps[2 * i] == (StaleStepView::Report {
                    line: "Killing stale process on port "@ + text::decimal(port) + ": pid "@
                        + pids[i],
                })
                &&& steps[2 * i + 1] == (StaleStepView::Kill { args: seq!["-9"@, pids[i]] })
                &&& steps.last() == (StaleStepView::Settle { millis: 500 })
            }
        }),
{
    let pids = listed_pids(text::spelled(bytes));
    lemma_kill_all_steps(port, pids, i);
}

/// Every line that is not empty, of what `lsof` printed, is a process that is killed.
pub proof fn law_every_line_is_killed(port: nat, bytes: Seq<u8>, k: int)
    requires
        0 <= k < text::lines(text::spelled(bytes)).len(),
        text::lines(text::spelled(bytes))[k].len() > 0,
    ensures
        exists|j: int|
            0 <= j < steps_for(port, Some(bytes)).len() && #[trigger] steps_for(
                port,
                Some(bytes),
            )[j] == (StaleStepView::Kill {
                args: seq!["-9"@, text::lines(text::spelled(bytes))[k]],
            }),
{
    let s = text::spelled(bytes);
    let pids = listed_pids(s);
    law_every_line_is_listed(s, k);
    let i = choose|i: int| 0 <= i < pids.len() && pids[i] == text::lines(s)[k];
    law_listing_is_cleared_away(port, bytes, i);
    assert(steps_for(port, Some(bytes))[2 * i + 1] == (StaleStepView::Kill {
        args: seq!["-9"@, text::lines(s)[k]],
    }));
}

proof fn lemma_count_of_kills(port: nat, pids: Seq<Seq<char>>)
    ensures
        kill_all_steps(port, pids).filter(|step: StaleStepView| step is Kill).len()
            == pids.len(),
    decreases pids.len(),
{
    let killing = |step: StaleStepView| step is Kill;
    reveal_with_fuel(Seq::filter, 3);
    if pids.len() > 0 {
        let last = kill_steps(port, pids.last());
        lemma_count_of_kills(port, pids.drop_last());
        Seq::filter_distributes_over_add(
            kill_all_steps(port, pids.drop_last()),
            last,
            killing,
        );
        assert(last.drop_last() =~= seq![last[0]]);
        assert(last.drop_last().drop_last() =~= Seq::<StaleStepView>::empty());
        assert(last.filter(killing) =~= seq![last[1]]);
    }
}

/// There are exactly as many kills as there are lines that are not empty.
pub proof fn law_one_kill_for_each_line(port: nat, bytes: Seq<u8>)
    ensures
        steps_for(port, Some(bytes)).filter(|step: StaleStepView| step is Kill).len()
            == text::lines(text::spelled(bytes)).filter(|line: Seq<char>| line.len() > 0).len(),
{
    let killing = |step: StaleStepView| step is Kill;
    let pids = listed_pids(text::spelled(bytes));
    let tail = if pids.len() > 0 {
        seq![StaleStepView::Settle { millis: SETTLE_MILLIS as int }]
    } else {
        Seq::empty()
    };
    lemma_count_of_kills(port, pids);
    Seq::filter_distributes_over_add(kill_all_steps(port, pids), tail, killing);
    reveal_with_fuel(Seq::filter, 2);
    assert(tail.filter(killing) =~= Seq::<StaleStepView>::empty());
    assert(steps_for(port, Some(bytes)) =~= kill_all_steps(port, pids) + tail);
}

/// A text is cleared away as the bytes that encode it are.
pub proof fn law_text_is_cleared_as_its_bytes(port: nat, output: Seq<char>)
    ensures
        clearing_steps(port, output) == steps_for(
            port,
            Some(vstd::utf8::encode_utf8(output)),
        ),
{
    text::law_bytes_spell_their_text(output, Seq::empty());
}

} // verus!
