use xcodebase::dispatch::ConnectionOutcome;
use xcodebase::dispatch::Inbound;
use xcodebase::dispatch::Message;
use xcodebase::dispatch::Request;
use xcodebase::dispatch::dispatch_connection;
use xcodebase::error::DaemonError;
use xcodebase::rename_file::RenameFile;
use xcodebase::state::DaemonState;
use xcodebase::state::SimDevice;

fn register(root: &str, pid: u64) -> Inbound {
    Inbound::Parsed(Request {
        pid,
        message: Message::Register {
            root: root.to_string(),
        },
    })
}

fn watcher_count(state: &DaemonState, root: &str) -> usize {
    state.watchers.iter().filter(|w| w.root == root).count()
}

#[test]
fn register_starts_exactly_one_watcher() {
    let mut state = DaemonState::new();
    let (outcome, started) = dispatch_connection(&mut state, register("/w1", 7), 1);
    assert!(matches!(outcome, ConnectionOutcome::Dispatched));
    assert_eq!(started.len(), 1);
    assert_eq!(started[0].root, "/w1");
    assert_eq!(watcher_count(&state, "/w1"), 1);
}

#[test]
fn reregistering_never_duplicates_watchers() {
    let mut state = DaemonState::new();
    let (_, first) = dispatch_connection(&mut state, register("/w1", 7), 1);
    assert_eq!(first.len(), 1);
    let handle = state.watchers[0].handle;
    // The same root again, from another client: no second watcher.
    let (_, second) = dispatch_connection(&mut state, register("/w1", 8), 2);
    assert_eq!(second.len(), 0);
    assert_eq!(watcher_count(&state, "/w1"), 1);
    // The existing watch was not re-started: its handle is unchanged.
    assert_eq!(state.watchers[0].handle, handle);
    // A different root gets its own single watcher.
    let (_, third) = dispatch_connection(&mut state, register("/w2", 7), 1);
    assert_eq!(third.len(), 1);
    assert_eq!(watcher_count(&state, "/w1"), 1);
    assert_eq!(watcher_count(&state, "/w2"), 1);
}

#[test]
fn every_workspace_watched_after_many_commands() {
    let mut state = DaemonState::new();
    let roots = ["/a", "/b", "/c", "/a", "/b", "/d"];
    for (i, root) in roots.iter().enumerate() {
        dispatch_connection(&mut state, register(root, i as u64), i as u64);
    }
    for root in ["/a", "/b", "/c", "/d"] {
        assert_eq!(watcher_count(&state, root), 1);
    }
    assert_eq!(state.watchers.len(), 4);
    assert_eq!(state.workspaces.len(), 4);
}

#[test]
fn empty_payload_is_silent_noop() {
    let mut state = DaemonState::new();
    dispatch_connection(&mut state, register("/w1", 7), 1);
    let (outcome, started) = dispatch_connection(&mut state, Inbound::Empty, 9);
    assert!(matches!(outcome, ConnectionOutcome::IgnoredEmpty));
    assert!(started.is_empty());
    assert_eq!(state.workspaces.len(), 1);
    assert_eq!(state.watchers.len(), 1);
    assert_eq!(state.clients.len(), 1);
}

#[test]
fn malformed_payload_mutates_nothing_and_is_not_fatal() {
    let mut state = DaemonState::new();
    dispatch_connection(&mut state, register("/w1", 7), 1);
    let (outcome, started) = dispatch_connection(
        &mut state,
        Inbound::Malformed("no such command".to_string()),
        9,
    );
    assert!(matches!(
        outcome,
        ConnectionOutcome::LoggedParseError(DaemonError::Parse(_))
    ));
    assert!(started.is_empty());
    assert_eq!(state.workspaces.len(), 1);
    assert_eq!(state.watchers.len(), 1);
    assert_eq!(state.clients.len(), 1);
    // The dispatcher keeps serving requests afterwards.
    let (outcome, _) = dispatch_connection(&mut state, register("/w2", 8), 2);
    assert!(matches!(outcome, ConnectionOutcome::Dispatched));
}

#[test]
fn read_error_mutates_nothing() {
    let mut state = DaemonState::new();
    let (outcome, started) =
        dispatch_connection(&mut state, Inbound::ReadError("broken pipe".to_string()), 1);
    assert!(matches!(
        outcome,
        ConnectionOutcome::LoggedReadError(DaemonError::Read(_))
    ));
    assert!(started.is_empty());
    assert_eq!(state.workspaces.len(), 0);
    assert_eq!(state.clients.len(), 0);
}

#[test]
fn two_connections_in_either_order_reach_the_same_state() {
    let mk = |order: [(&str, u64); 2]| {
        let mut state = DaemonState::new();
        for (root, pid) in order {
            dispatch_connection(&mut state, register(root, pid), pid);
        }
        let mut roots: Vec<String> = state.workspaces.iter().map(|w| w.root.clone()).collect();
        let mut watched: Vec<String> = state.watchers.iter().map(|w| w.root.clone()).collect();
        let mut pids: Vec<u64> = state.clients.iter().map(|c| c.pid).collect();
        roots.sort();
        watched.sort();
        pids.sort();
        (roots, watched, pids)
    };
    let ab = mk([("/a", 1), ("/b", 2)]);
    let ba = mk([("/b", 2), ("/a", 1)]);
    assert_eq!(ab, ba);
}

#[test]
fn rename_file_handler_leaves_state_unchanged() {
    let mut state = DaemonState::new();
    dispatch_connection(&mut state, register("/w1", 7), 1);
    let cmd = RenameFile::new(vec!["/w1/file.swift", "Old", "New"]).unwrap();
    let inbound = Inbound::Parsed(Request {
        pid: 7,
        message: Message::RenameFile(cmd),
    });
    let (outcome, started) = dispatch_connection(&mut state, inbound, 1);
    assert!(matches!(outcome, ConnectionOutcome::Dispatched));
    assert!(started.is_empty());
    assert_eq!(state.workspaces.len(), 1);
    assert_eq!(state.clients.len(), 1);
}

#[test]
fn rename_file_parses_three_arguments() {
    let cmd = RenameFile::new(vec!["/w/file.swift", "OldName", "NewName"]).unwrap();
    assert_eq!(cmd.path, "/w/file.swift");
    assert_eq!(cmd.name, "OldName");
    assert_eq!(cmd.new_name, "NewName");
}

#[test]
fn rename_file_rejects_missing_arguments() {
    let err = RenameFile::new(vec!["/w/file.swift", "OldName"]).unwrap_err();
    assert!(matches!(err, DaemonError::MissingArguments(_)));
    let err = RenameFile::new(vec![]).unwrap_err();
    assert!(matches!(err, DaemonError::MissingArguments(_)));
}

#[test]
fn rename_file_request_payload() {
    let v = RenameFile::request("/w/file.swift", "Old", "New");
    assert_eq!(v, vec!["rename_file", "/w/file.swift", "Old", "New"]);
}

#[test]
fn find_device_matches_udid() {
    let mut state = DaemonState::new();
    state.devices.push(SimDevice {
        udid: "UD-1".to_string(),
        name: "iPhone 13".to_string(),
        is_booted: false,
    });
    state.devices.push(SimDevice {
        udid: "UD-2".to_string(),
        name: "iPhone 14".to_string(),
        is_booted: true,
    });
    let d = state.find_device("UD-2").unwrap();
    assert_eq!(d.name, "iPhone 14");
    assert!(d.is_booted);
    assert!(state.find_device("UD-3").is_none());
}

#[test]
fn error_messages_carry_their_prefix_and_cause() {
    assert_eq!(
        DaemonError::Read("broken pipe".to_string()).message(),
        "[Read Error] broken pipe"
    );
    assert_eq!(
        DaemonError::Parse("bad key".to_string()).message(),
        "[Parse Error] bad key"
    );
    assert_eq!(
        DaemonError::MissingArguments("path".to_string()).message(),
        "[Missing Arguments] path"
    );
    assert_eq!(
        DaemonError::BuildSettings("no binary".to_string()).message(),
        "[Build Settings] no binary"
    );
    assert_eq!(
        DaemonError::Run("boom".to_string()).message(),
        "[Run Error] boom"
    );
}

#[test]
fn update_watchers_is_idempotent() {
    let mut state = DaemonState::new();
    state.add_workspace("/a".to_string());
    state.add_workspace("/b".to_string());
    state.add_workspace("/a".to_string());
    assert_eq!(state.workspaces.len(), 2);
    let started = state.update_watchers();
    assert_eq!(started.len(), 2);
    assert_eq!(state.watchers.len(), 2);
    let again = state.update_watchers();
    assert!(again.is_empty());
    assert_eq!(state.watchers.len(), 2);
    assert!(state.contains_watcher("/a"));
    assert!(state.contains_watcher("/b"));
    assert!(!state.contains_watcher("/c"));
}
