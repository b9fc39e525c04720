//! The connection dispatcher.
//!
//! Each inbound connection carries one textual request payload. The
//! embedding reads it to completion and parses it; what reaches this
//! module is the outcome: a read failure, an empty payload, a malformed
//! payload, or a typed request. Dispatching executes the request's handler
//! against shared state and then reconciles the watcher set, so that a
//! newly registered workspace begins being watched promptly. No outcome
//! here is fatal: connection-level failures are isolated to their
//! connection, and only an unusable transport (observed by the accept
//! loop itself, outside this module) terminates the daemon.

use vstd::prelude::*;

use crate::error::DaemonError;
use crate::rename_file::RenameFile;
use crate::state::DaemonState;
use crate::state::WatcherEntry;

verus! {

/// A typed command with its validated arguments, dispatched by exhaustive
/// match rather than by runtime key lookup.
pub enum Message {
    /// Registers the issuing client and a workspace root it works in.
    Register {
        /// The workspace-root path to register.
        root: String,
    },
    /// Renames a file together with its class.
    RenameFile(RenameFile),
}

/// One parsed request: the issuing client's process identifier and the
/// command it asked for. Constructed per connection, consumed by exactly
/// one handler invocation.
pub struct Request {
    /// Process identifier of the issuing client.
    pub pid: u64,
    /// The command to execute.
    pub message: Message,
}

/// What reading and parsing one connection's payload produced.
pub enum Inbound {
    /// The payload could not be read; the cause is kept for the daemon's
    /// own diagnostic log.
    ReadError(String),
    /// The payload was empty: a silent no-op.
    Empty,
    /// The payload could not be parsed into a request; the cause is kept
    /// for the daemon's own diagnostic log.
    Malformed(String),
    /// The payload parsed into a typed request.
    Parsed(Request),
}

/// How the dispatcher settled one connection. No variant is fatal:
/// connection-level failures carry the error for the daemon's own
/// diagnostic log and are isolated to their connection.
pub enum ConnectionOutcome {
    /// An empty payload was ignored.
    IgnoredEmpty,
    /// The payload could not be read; the connection was dropped.
    LoggedReadError(DaemonError),
    /// The payload could not be parsed; the connection was dropped.
    LoggedParseError(DaemonError),
    /// The request's handler ran to completion.
    Dispatched,
}

/// The dispatcher's effect on shared state for one parsed request,
/// relating the state before (`pre`) and after (`post`).
///
/// A register request adds its root to the workspaces and its client to
/// the clients; every other request leaves both as they were. After the
/// handler, reconciliation has run: the watched roots are exactly the
/// previously watched roots plus every workspace root.
pub open spec fn dispatch_effect(pre: DaemonState, post: DaemonState, req: Request) -> bool {
    &&& post.wf()
    &&& post.devices@ == pre.devices@
    &&& (forall|r: Seq<char>|
        post.has_workspace(r) <==> pre.has_workspace(r) || (req.message matches Message::Register {
            root,
        } && r == root@))
    &&& (forall|p: u64|
        post.has_client(p) <==> pre.has_client(p) || (req.message is Register && p == req.pid))
    &&& (forall|r: Seq<char>| post.has_watcher(r) <==> pre.has_watcher(r) || post.has_workspace(r))
}

/// Dispatches the outcome of one connection against shared state.
///
/// An unreadable, empty or malformed payload changes nothing and is never
/// fatal. A parsed request is handled — a register request records the
/// client's sink under its process identifier and its workspace root —
/// and afterwards, whatever the handler's outcome, the watcher set is
/// reconciled. Returns the outcome for the daemon's diagnostic log and
/// the newly started watcher entries, one watch task to be spawned per
/// returned root.
pub fn dispatch_connection(state: &mut DaemonState, inbound: Inbound, sink: u64) -> (r: (
    ConnectionOutcome,
    Vec<WatcherEntry>,
))
    requires
        old(state).wf(),
    ensures
        final(state).wf(),
        inbound matches Inbound::ReadError(m) ==> *final(state) == *old(state) && (
        r.0 matches ConnectionOutcome::LoggedReadError(e) && e matches DaemonError::Read(c) && c@
            == m@) && r.1@.len() == 0,
        inbound is Empty ==> *final(state) == *old(state) && r.0 is IgnoredEmpty && r.1@.len()
            == 0,
        inbound matches Inbound::Malformed(m) ==> *final(state) == *old(state) && (
        r.0 matches ConnectionOutcome::LoggedParseError(e) && e matches DaemonError::Parse(c) && c@
            == m@) && r.1@.len() == 0,
        inbound matches Inbound::Parsed(req) ==> r.0 is Dispatched && dispatch_effect(
            *old(state),
            *final(state),
            req,
        ),
{
    match inbound {
        Inbound::ReadError(m) => (
            ConnectionOutcome::LoggedReadError(DaemonError::Read(m)),
            Vec::new(),
        ),
        Inbound::Empty => (ConnectionOutcome::IgnoredEmpty, Vec::new()),
        Inbound::Malformed(m) => (
            ConnectionOutcome::LoggedParseError(DaemonError::Parse(m)),
            Vec::new(),
        ),
        Inbound::Parsed(req) => {
            let ghost s0 = *state;
            match &req.message {
                Message::Register { root } => {
                    state.add_client(req.pid, sink);
                    let ghost sa = *state;
                    state.add_workspace(root.clone());
                    proof {
                        crate::state::lemma_same_workspaces(s0, sa);
                        crate::state::lemma_same_clients(sa, *state);
                        assert forall|r: Seq<char>|
                            state.has_workspace(r) <==> s0.has_workspace(r) || r == root@ by {
                            assert(sa.has_workspace(r) == s0.has_workspace(r));
                            assert(state.has_workspace(r) <==> sa.has_workspace(r) || r == root@);
                        }
                        assert forall|p: u64|
                            state.has_client(p) <==> s0.has_client(p) || p == req.pid by {
                            assert(state.has_client(p) == sa.has_client(p));
                            assert(sa.has_client(p) <==> s0.has_client(p) || p == req.pid);
                        }
                        assert(state.watchers@ == s0.watchers@);
                        assert(state.devices@ == s0.devices@);
                    }
                },
                Message::RenameFile(cmd) => {
                    let _ = cmd.handle(state);
                },
            }
            let ghost s1 = *state;
            proof {
                assert forall|r: Seq<char>|
                    s1.has_workspace(r) <==> s0.has_workspace(r) || (
                    req.message matches Message::Register { root } && r == root@) by {}
                assert forall|p: u64|
                    s1.has_client(p) <==> s0.has_client(p) || (req.message is Register && p
                        == req.pid) by {}
            }
            let started = state.update_watchers();
            proof {
                crate::state::lemma_same_workspaces(s1, *state);
                crate::state::lemma_same_clients(s1, *state);
                crate::state::lemma_same_watchers(s0, s1);
                assert forall|r: Seq<char>|
                    state.has_workspace(r) <==> s0.has_workspace(r) || (
                    req.message matches Message::Register { root } && r == root@) by {
                    assert(state.has_workspace(r) == s1.has_workspace(r));
                }
                assert forall|p: u64|
                    state.has_client(p) <==> s0.has_client(p) || (req.message is Register && p
                        == req.pid) by {
                    assert(state.has_client(p) == s1.has_client(p));
                }
                assert forall|r: Seq<char>|
                    state.has_watcher(r) <==> s0.has_watcher(r) || state.has_workspace(r) by {
                    assert(state.has_watcher(r) <==> s1.has_watcher(r) || s1.has_workspace(r));
                    assert(s1.has_watcher(r) == s0.has_watcher(r));
                    assert(state.has_workspace(r) == s1.has_workspace(r));
                }
            }
            (ConnectionOutcome::Dispatched, started)
        },
    }
}

/// Shared-state updates are linearized: the state record is held
/// exclusively for each whole read-modify-write, so any concurrent
/// schedule of two connections equals one of the two sequential orders.
/// This law states the end state of such a sequential pair: the
/// observable sets accumulate both requests' effects — neither is lost,
/// torn, or partially applied — and the result does not depend on which
/// of the two orders the scheduler chose.
pub proof fn lemma_dispatch_pair_sequential(
    s0: DaemonState,
    s1: DaemonState,
    s2: DaemonState,
    a: Request,
    b: Request,
)
    requires
        dispatch_effect(s0, s1, a),
        dispatch_effect(s1, s2, b),
    ensures
        forall|r: Seq<char>|
            s2.has_workspace(r) <==> s0.has_workspace(r) || (a.message matches Message::Register {
                root,
            } && r == root@) || (b.message matches Message::Register { root } && r == root@),
        forall|p: u64|
            s2.has_client(p) <==> s0.has_client(p) || (a.message is Register && p == a.pid) || (
            b.message is Register && p == b.pid),
        forall|r: Seq<char>| s2.has_watcher(r) <==> s0.has_watcher(r) || s2.has_workspace(r),
{
    assert forall|r: Seq<char>|
        s2.has_watcher(r) <==> s0.has_watcher(r) || s2.has_workspace(r) by {
        assert(s1.has_watcher(r) <==> s0.has_watcher(r) || s1.has_workspace(r));
        assert(s2.has_watcher(r) <==> s1.has_watcher(r) || s2.has_workspace(r));
        assert(s1.has_workspace(r) ==> s2.has_workspace(r));
    }
}

} // verus!
