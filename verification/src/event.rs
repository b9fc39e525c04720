//! Events flowing through a run session.
//!
//! An [`OutputEvent`] is one item of the tagged output sequence produced by
//! draining a child process (or attached program). A [`SinkOp`] is one
//! operation the daemon asks the client's log sink to perform. The run
//! lifecycle orchestrator is a function from events to sink operations;
//! its contracts are stated over [`SinkOpView`], the spec-level image of a
//! sink operation.

use vstd::prelude::*;

verus! {

/// One tagged item of a process output sequence.
///
/// The exit variant is terminal: the producing sequence yields nothing
/// after it. Its payload is the raw exit code when the status was
/// available, and `None` when it was not.
pub enum OutputEvent {
    /// A line read from the process's standard output.
    Stdout(String),
    /// A line read from the process's standard error.
    Stderr(String),
    /// A self-reported error line from the producer.
    Error(String),
    /// Process exit, carrying the raw exit code if one was available.
    Exit(Option<String>),
}

/// One operation requested of the client's log sink.
#[derive(Debug)]
pub enum SinkOp {
    /// Render the session's title line.
    LogTitle,
    /// Open the client-side log window.
    OpenWin,
    /// Mark the session as running.
    SetRunning,
    /// Append one line to the log.
    Log(String),
    /// Set the terminal status of the log: success or failure, and
    /// whether the session is finished.
    SetStatusEnd { success: bool, finished: bool },
}

/// Spec-level image of a [`SinkOp`], with log lines as character
/// sequences.
pub enum SinkOpView {
    /// Render the session's title line.
    LogTitle,
    /// Open the client-side log window.
    OpenWin,
    /// Mark the session as running.
    SetRunning,
    /// Append this line to the log.
    Log(Seq<char>),
    /// Set the terminal status of the log.
    SetStatusEnd { success: bool, finished: bool },
}

impl View for SinkOp {
    type V = SinkOpView;

    open spec fn view(&self) -> SinkOpView {
        match self {
            SinkOp::LogTitle => SinkOpView::LogTitle,
            SinkOp::OpenWin => SinkOpView::OpenWin,
            SinkOp::SetRunning => SinkOpView::SetRunning,
            SinkOp::Log(s) => SinkOpView::Log(s@),
            SinkOp::SetStatusEnd { success, finished } => SinkOpView::SetStatusEnd {
                success: *success,
                finished: *finished,
            },
        }
    }
}

/// The views of a run of sink operations, in order.
pub open spec fn ops_view(ops: Seq<SinkOp>) -> Seq<SinkOpView> {
    ops.map_values(|op: SinkOp| op@)
}

/// The outcome of feeding one output event to a streaming loop: the sink
/// operations to perform, and whether the stream is finished.
pub struct StepResult {
    /// Sink operations to perform, in order.
    pub ops: Vec<SinkOp>,
    /// True when the streaming loop must stop after performing `ops`.
    pub done: bool,
}

} // verus!
