//! The streaming halves of the run lifecycle: for every output event of
//! the running process, which operations the client's log sink receives.
//!
//! Each branch is given as three pieces: a spec function describing the
//! sink operations owed for a whole event sequence ([`sim_ops`],
//! [`desktop_ops`]), a per-event step function the embedding calls from
//! its streaming loop ([`sim_step`], [`desktop_step`]), and a drain
//! function folding a finite event sequence through the step function.
//! The step functions take whether the client is still registered: a
//! vanished client ends the stream early with no further sink operations.

use vstd::prelude::*;

use crate::event::OutputEvent;
use crate::event::SinkOp;
use crate::event::SinkOpView;
use crate::event::StepResult;
use crate::event::ops_view;
use crate::util::as_section;
use crate::util::contains_seq;
use crate::util::contains_str;
use crate::util::error_line;
use crate::util::error_prefix;
use crate::util::section_text;
use crate::util::str_eq;

verus! {

/// The known-benign diagnostic marker: a stdout line containing it is
/// suppressed rather than forwarded to the client.
pub open spec fn suppressed_marker() -> Seq<char> {
    "ignoring singular matrix"@
}

/// The prefix of the line logged for a simulator process exit.
pub open spec fn exit_prefix() -> Seq<char> {
    "[Exit] "@
}

/// The line logged when the exit status was unavailable.
pub open spec fn unable_exit_line() -> Seq<char> {
    error_prefix() + "Unable to get exit code"@
}

/// The canonical success exit code.
pub open spec fn success_code() -> Seq<char> {
    "0"@
}

/// The prefix of the message rendered for a failed desktop run.
pub open spec fn panic_prefix() -> Seq<char> {
    "Panic "@
}

/// The sink operations owed for one simulator output event: stdout lines
/// are forwarded verbatim unless they contain the suppressed marker,
/// error-severity lines are forwarded with the error prefix, and the exit
/// event renders an exit line (or an error line when the status was
/// unavailable).
pub open spec fn sim_event_ops(e: OutputEvent) -> Seq<SinkOpView> {
    match e {
        OutputEvent::Stdout(msg) => if contains_seq(msg@, suppressed_marker()) {
            Seq::empty()
        } else {
            seq![SinkOpView::Log(msg@)]
        },
        OutputEvent::Stderr(msg) => seq![SinkOpView::Log(error_prefix() + msg@)],
        OutputEvent::Error(msg) => seq![SinkOpView::Log(error_prefix() + msg@)],
        OutputEvent::Exit(code) => match code {
            Some(c) => seq![SinkOpView::Log(exit_prefix() + c@)],
            None => seq![SinkOpView::Log(unable_exit_line())],
        },
    }
}

/// The sink operations owed for a simulator event sequence, in emission
/// order, up to and including the first exit event.
pub open spec fn sim_ops(events: Seq<OutputEvent>) -> Seq<SinkOpView>
    decreases events.len(),
{
    if events.len() == 0 {
        Seq::empty()
    } else if events[0] is Exit {
        sim_event_ops(events[0])
    } else {
        sim_event_ops(events[0]) + sim_ops(events.drop_first())
    }
}

/// One step of the simulator streaming loop. The client's registration is
/// re-resolved before every event; `client_present` is what that lookup
/// found, and a vanished client ends the stream with no operations.
pub fn sim_step(client_present: bool, event: &OutputEvent) -> (r: StepResult)
    ensures
        client_present ==> ops_view(r.ops@) == sim_event_ops(*event) && r.done == (*event is Exit),
        !client_present ==> r.ops@.len() == 0 && r.done,
{
    if !client_present {
        return StepResult { ops: Vec::new(), done: true };
    }
    match event {
        OutputEvent::Stdout(msg) => {
            let mut ops: Vec<SinkOp> = Vec::new();
            if !contains_str(msg.as_str(), "ignoring singular matrix") {
                ops.push(SinkOp::Log(msg.clone()));
            }
            proof {
                assert(ops_view(ops@) =~= sim_event_ops(*event));
            }
            StepResult { ops, done: false }
        },
        OutputEvent::Stderr(msg) => {
            let mut ops: Vec<SinkOp> = Vec::new();
            ops.push(SinkOp::Log(error_line(msg.as_str())));
            proof {
                assert(ops_view(ops@) =~= sim_event_ops(*event));
            }
            StepResult { ops, done: false }
        },
        OutputEvent::Error(msg) => {
            let mut ops: Vec<SinkOp> = Vec::new();
            ops.push(SinkOp::Log(error_line(msg.as_str())));
            proof {
                assert(ops_view(ops@) =~= sim_event_ops(*event));
            }
            StepResult { ops, done: false }
        },
        OutputEvent::Exit(code) => {
            let mut ops: Vec<SinkOp> = Vec::new();
            match code {
                Some(c) => {
                    ops.push(SinkOp::Log(String::from_str("[Exit] ").concat(c.as_str())));
                },
                None => {
                    ops.push(SinkOp::Log(error_line("Unable to get exit code")));
                },
            }
            proof {
                assert(ops_view(ops@) =~= sim_event_ops(*event));
            }
            StepResult { ops, done: true }
        },
    }
}

/// Folds a finite simulator event sequence through `sim_step` with the
/// client present throughout: the collected sink operations are exactly
/// the owed ones, in emission order.
pub fn sim_drain(events: &Vec<OutputEvent>) -> (out: Vec<SinkOp>)
    ensures
        ops_view(out@) == sim_ops(events@),
{
    let mut out: Vec<SinkOp> = Vec::new();
    let mut i: usize = 0;
    proof {
        assert(events@.subrange(0, events@.len() as int) =~= events@);
        assert(ops_view(out@) + sim_ops(events@.subrange(0, events@.len() as int)) =~= sim_ops(
            events@,
        ));
    }
    while i < events.len()
        invariant
            i <= events@.len(),
            forall|j: int| 0 <= j < i ==> !((#[trigger] events@[j]) is Exit),
            ops_view(out@) + sim_ops(events@.subrange(i as int, events@.len() as int)) == sim_ops(
                events@,
            ),
        decreases events@.len() - i,
    {
        let mut step = sim_step(true, &events[i]);
        let ghost pre_out = out@;
        let ghost step_ops = step.ops@;
        let ghost rest = events@.subrange(i as int, events@.len() as int);
        out.append(&mut step.ops);
        proof {
            assert(rest[0] == events@[i as int]);
            assert(out@ == pre_out + step_ops);
            assert(ops_view(out@) =~= ops_view(pre_out) + ops_view(step_ops));
        }
        if step.done {
            proof {
                assert(sim_ops(rest) == sim_event_ops(rest[0]));
                assert(ops_view(out@) =~= sim_ops(events@));
            }
            return out;
        }
        proof {
            assert(rest.drop_first() =~= events@.subrange(i + 1 as int, events@.len() as int));
            assert(sim_ops(rest) == sim_event_ops(rest[0]) + sim_ops(rest.drop_first()));
            assert(ops_view(out@) + sim_ops(
                events@.subrange(i + 1 as int, events@.len() as int),
            ) =~= sim_ops(events@));
        }
        i += 1;
    }
    proof {
        assert(events@.subrange(i as int, events@.len() as int) =~= Seq::<OutputEvent>::empty());
        assert(ops_view(out@) =~= sim_ops(events@));
    }
    out
}

/// A line beginning with the error or the exit prefix: one the streaming
/// loop marked rather than forwarded verbatim.
pub open spec fn prefixed_line(line: Seq<char>) -> bool {
    (line.len() >= error_prefix().len() && line.subrange(0, error_prefix().len() as int)
        == error_prefix()) || (line.len() >= exit_prefix().len() && line.subrange(
        0,
        exit_prefix().len() as int,
    ) == exit_prefix())
}

/// The suppressed diagnostic never reaches the client's log: every line
/// the simulator stream logs that contains the suppressed marker is an
/// explicitly prefixed error or exit line — a verbatim stdout line
/// containing the marker is never among the logged lines.
pub proof fn lemma_suppressed_diagnostic_never_logged(
    events: Seq<OutputEvent>,
    k: int,
    line: Seq<char>,
)
    requires
        0 <= k < sim_ops(events).len(),
        sim_ops(events)[k] == SinkOpView::Log(line),
        contains_seq(line, suppressed_marker()),
    ensures
        prefixed_line(line),
    decreases events.len(),
{
    let head = sim_event_ops(events[0]);
    if events[0] is Exit || k < head.len() {
        match events[0] {
            OutputEvent::Stdout(msg) => {
                assert(!contains_seq(msg@, suppressed_marker()));
                assert(line == msg@);
                assert(contains_seq(msg@, suppressed_marker()));
            },
            OutputEvent::Stderr(msg) => {
                assert(line == error_prefix() + msg@);
                assert(line.subrange(0, error_prefix().len() as int) =~= error_prefix());
            },
            OutputEvent::Error(msg) => {
                assert(line == error_prefix() + msg@);
                assert(line.subrange(0, error_prefix().len() as int) =~= error_prefix());
            },
            OutputEvent::Exit(code) => {
                match code {
                    Some(c) => {
                        assert(line == exit_prefix() + c@);
                        assert(line.subrange(0, exit_prefix().len() as int) =~= exit_prefix());
                    },
                    None => {
                        assert(line == unable_exit_line());
                        assert(line.subrange(0, error_prefix().len() as int) =~= error_prefix());
                    },
                }
            },
        }
    } else {
        lemma_suppressed_diagnostic_never_logged(events.drop_first(), k - head.len(), line);
    }
}

/// All lines a run of sink operations appends to the log, in order.
pub open spec fn logged_lines(ops: Seq<SinkOpView>) -> Seq<Seq<char>>
    decreases ops.len(),
{
    if ops.len() == 0 {
        Seq::empty()
    } else {
        (match ops[0] {
            SinkOpView::Log(l) => seq![l],
            _ => Seq::empty(),
        }) + logged_lines(ops.drop_first())
    }
}

/// The stdout lines kept for the client out of one event sequence: those
/// not containing the suppressed marker, up to the first exit, in
/// emission order.
pub open spec fn kept_stdout_lines(events: Seq<OutputEvent>) -> Seq<Seq<char>>
    decreases events.len(),
{
    if events.len() == 0 {
        Seq::empty()
    } else if events[0] is Exit {
        Seq::empty()
    } else {
        (match events[0] {
            OutputEvent::Stdout(m) => if contains_seq(m@, suppressed_marker()) {
                Seq::empty()
            } else {
                seq![m@]
            },
            _ => Seq::empty(),
        }) + kept_stdout_lines(events.drop_first())
    }
}

/// For one producer's stdout sequence, the client log holds exactly the
/// lines that do not contain the suppressed marker, in emission order.
pub proof fn lemma_stdout_lines_in_emission_order(events: Seq<OutputEvent>)
    requires
        forall|i: int| 0 <= i < events.len() ==> (#[trigger] events[i]) is Stdout,
    ensures
        logged_lines(sim_ops(events)) == kept_stdout_lines(events),
    decreases events.len(),
{
    if events.len() == 0 {
        assert(logged_lines(sim_ops(events)) =~= kept_stdout_lines(events));
    } else {
        let rest = events.drop_first();
        assert forall|i: int| 0 <= i < rest.len() implies (#[trigger] rest[i]) is Stdout by {
            assert(rest[i] == events[i + 1]);
        }
        lemma_stdout_lines_in_emission_order(rest);
        assert(events[0] is Stdout);
        match events[0] {
            OutputEvent::Stdout(m) => {
                if contains_seq(m@, suppressed_marker()) {
                    assert(sim_ops(events) =~= sim_ops(rest));
                    assert(kept_stdout_lines(events) =~= kept_stdout_lines(rest));
                } else {
                    let total = sim_ops(events);
                    assert(total == seq![SinkOpView::Log(m@)] + sim_ops(rest));
                    assert(total[0] == SinkOpView::Log(m@));
                    assert(total.drop_first() =~= sim_ops(rest));
                    assert(logged_lines(total) == seq![m@] + logged_lines(sim_ops(rest)));
                    assert(kept_stdout_lines(events) == seq![m@] + kept_stdout_lines(rest));
                }
            },
            _ => {},
        }
    }
}

/// The sink operations owed for one desktop output event: stdout lines
/// are forwarded verbatim, error-severity lines with the error prefix,
/// and the exit event renders the terminal section — empty on success, a
/// panic message with the exit code on failure — and sets the terminal
/// status.
pub open spec fn desktop_event_ops(e: OutputEvent) -> Seq<SinkOpView> {
    match e {
        OutputEvent::Stdout(msg) => seq![SinkOpView::Log(msg@)],
        OutputEvent::Stderr(msg) => seq![SinkOpView::Log(error_prefix() + msg@)],
        OutputEvent::Error(msg) => seq![SinkOpView::Log(error_prefix() + msg@)],
        OutputEvent::Exit(code) => desktop_exit_ops(code),
    }
}

/// The terminal desktop operations: success is exit-code equality to the
/// canonical success code; failure renders a panic message carrying the
/// code (or a bare one when the status was unavailable) and marks the
/// status failed.
pub open spec fn desktop_exit_ops(code: Option<String>) -> Seq<SinkOpView> {
    match code {
        Some(c) => if c@ == success_code() {
            seq![
                SinkOpView::Log(section_text(""@)),
                (SinkOpView::SetStatusEnd { success: true, finished: true }),
            ]
        } else {
            seq![
                SinkOpView::Log(section_text(panic_prefix() + c@)),
                (SinkOpView::SetStatusEnd { success: false, finished: true }),
            ]
        },
        None => seq![
            SinkOpView::Log(section_text("Panic"@)),
            (SinkOpView::SetStatusEnd { success: false, finished: true }),
        ],
    }
}

/// The sink operations owed for a desktop event sequence, in emission
/// order, up to and including the first exit event.
pub open spec fn desktop_ops(events: Seq<OutputEvent>) -> Seq<SinkOpView>
    decreases events.len(),
{
    if events.len() == 0 {
        Seq::empty()
    } else if events[0] is Exit {
        desktop_event_ops(events[0])
    } else {
        desktop_event_ops(events[0]) + desktop_ops(events.drop_first())
    }
}

/// One step of the desktop streaming loop. The client's registration is
/// re-resolved before every event; a vanished client ends the stream with
/// no operations.
pub fn desktop_step(client_present: bool, event: &OutputEvent) -> (r: StepResult)
    ensures
        client_present ==> ops_view(r.ops@) == desktop_event_ops(*event) && r.done == (
        *event is Exit),
        !client_present ==> r.ops@.len() == 0 && r.done,
{
    if !client_present {
        return StepResult { ops: Vec::new(), done: true };
    }
    match event {
        OutputEvent::Stdout(msg) => {
            let mut ops: Vec<SinkOp> = Vec::new();
            ops.push(SinkOp::Log(msg.clone()));
            proof {
                assert(ops_view(ops@) =~= desktop_event_ops(*event));
            }
            StepResult { ops, done: false }
        },
        OutputEvent::Stderr(msg) => {
            let mut ops: Vec<SinkOp> = Vec::new();
            ops.push(SinkOp::Log(error_line(msg.as_str())));
            proof {
                assert(ops_view(ops@) =~= desktop_event_ops(*event));
            }
            StepResult { ops, done: false }
        },
        OutputEvent::Error(msg) => {
            let mut ops: Vec<SinkOp> = Vec::new();
            ops.push(SinkOp::Log(error_line(msg.as_str())));
            proof {
                assert(ops_view(ops@) =~= desktop_event_ops(*event));
            }
            StepResult { ops, done: false }
        },
        OutputEvent::Exit(code) => {
            let mut ops: Vec<SinkOp> = Vec::new();
            match code {
                Some(c) => {
                    if str_eq(c.as_str(), "0") {
                        ops.push(SinkOp::Log(as_section("")));
                        ops.push(SinkOp::SetStatusEnd { success: true, finished: true });
                    } else {
                        let msg = String::from_str("Panic ").concat(c.as_str());
                        ops.push(SinkOp::Log(as_section(msg.as_str())));
                        ops.push(SinkOp::SetStatusEnd { success: false, finished: true });
                    }
                },
                None => {
                    ops.push(SinkOp::Log(as_section("Panic")));
                    ops.push(SinkOp::SetStatusEnd { success: false, finished: true });
                },
            }
            proof {
                assert(ops_view(ops@) =~= desktop_event_ops(*event));
            }
            StepResult { ops, done: true }
        },
    }
}

/// Folds a finite desktop event sequence through `desktop_step` with the
/// client present throughout: the collected sink operations are exactly
/// the owed ones, in emission order.
pub fn desktop_drain(events: &Vec<OutputEvent>) -> (out: Vec<SinkOp>)
    ensures
        ops_view(out@) == desktop_ops(events@),
{
    let mut out: Vec<SinkOp> = Vec::new();
    let mut i: usize = 0;
    proof {
        assert(events@.subrange(0, events@.len() as int) =~= events@);
        assert(ops_view(out@) + desktop_ops(events@.subrange(0, events@.len() as int)) =~= desktop_ops(
            events@,
        ));
    }
    while i < events.len()
        invariant
            i <= events@.len(),
            forall|j: int| 0 <= j < i ==> !((#[trigger] events@[j]) is Exit),
            ops_view(out@) + desktop_ops(events@.subrange(i as int, events@.len() as int))
                == desktop_ops(events@),
        decreases events@.len() - i,
    {
        let mut step = desktop_step(true, &events[i]);
        let ghost pre_out = out@;
        let ghost step_ops = step.ops@;
        let ghost rest = events@.subrange(i as int, events@.len() as int);
        out.append(&mut step.ops);
        proof {
            assert(rest[0] == events@[i as int]);
            assert(out@ == pre_out + step_ops);
            assert(ops_view(out@) =~= ops_view(pre_out) + ops_view(step_ops));
        }
        if step.done {
            proof {
                assert(desktop_ops(rest) == desktop_event_ops(rest[0]));
                assert(ops_view(out@) =~= desktop_ops(events@));
            }
            return out;
        }
        proof {
            assert(rest.drop_first() =~= events@.subrange(i + 1 as int, events@.len() as int));
            assert(desktop_ops(rest) == desktop_event_ops(rest[0]) + desktop_ops(
                rest.drop_first(),
            ));
            assert(ops_view(out@) + desktop_ops(
                events@.subrange(i + 1 as int, events@.len() as int),
            ) =~= desktop_ops(events@));
        }
        i += 1;
    }
    proof {
        assert(events@.subrange(i as int, events@.len() as int) =~= Seq::<OutputEvent>::empty());
        assert(ops_view(out@) =~= desktop_ops(events@));
    }
    out
}

} // verus!
