//! Shared daemon state and the watcher supervisor.
//!
//! A single [`DaemonState`] record is the rendezvous point of all
//! concurrent actors: command handlers mutate it, the watcher supervisor
//! reconciles it, the run orchestrator reads it. The embedding guarantees
//! exclusive access (one holder at a time); every function here takes the
//! state by exclusive reference, so each call is one atomic
//! read-modify-write of the record.

use vstd::prelude::*;

use crate::util::str_eq;

verus! {

/// One workspace known to the daemon: a filesystem root associated with a
/// build project, plus cached metadata.
pub struct Workspace {
    /// The workspace-root path.
    pub root: String,
    /// The last target built or run in this workspace, if any.
    pub last_target: Option<String>,
}

/// One active filesystem-watch task, recorded under the root it observes.
/// The handle is an opaque token by which the embedding finds the task.
pub struct WatcherEntry {
    /// The watched workspace-root path.
    pub root: String,
    /// Opaque token identifying the watch task.
    pub handle: u64,
}

/// One connected client, keyed by its process identifier. The sink token
/// is how the embedding reaches that client's log sink.
pub struct ClientEntry {
    /// The client's process identifier.
    pub pid: u64,
    /// Opaque token identifying the client's log sink.
    pub sink: u64,
}

/// One known simulator device.
#[derive(Debug)]
pub struct SimDevice {
    /// The device's unique identifier.
    pub udid: String,
    /// The device's display name.
    pub name: String,
    /// Whether the device was booted when the snapshot was taken.
    pub is_booted: bool,
}

/// Spec-level image of a [`SimDevice`].
pub struct SimDeviceView {
    /// View of the unique identifier.
    pub udid: Seq<char>,
    /// View of the display name.
    pub name: Seq<char>,
    /// Boot state at snapshot time.
    pub is_booted: bool,
}

impl View for SimDevice {
    type V = SimDeviceView;

    open spec fn view(&self) -> SimDeviceView {
        SimDeviceView { udid: self.udid@, name: self.name@, is_booted: self.is_booted }
    }
}

impl SimDevice {
    /// A field-for-field copy of this device description.
    pub fn duplicate(&self) -> (r: SimDevice)
        ensures
            r@ == self@,
    {
        SimDevice { udid: self.udid.clone(), name: self.name.clone(), is_booted: self.is_booted }
    }
}

/// The shared mutable record guarded by exclusive access: workspaces,
/// active watches, connected clients, and the last device snapshot.
pub struct DaemonState {
    /// Known workspaces, keyed by root path. Entries are added when a
    /// command references a previously-unseen root and are never removed.
    pub workspaces: Vec<Workspace>,
    /// Active filesystem watches, keyed by root path. Entries are added by
    /// the watcher supervisor and are never removed.
    pub watchers: Vec<WatcherEntry>,
    /// Connected clients, keyed by process identifier.
    pub clients: Vec<ClientEntry>,
    /// Snapshot of known simulator devices; refreshed externally, only
    /// read here.
    pub devices: Vec<SimDevice>,
    /// Source of fresh watcher-handle tokens.
    pub next_watch_handle: u64,
}

/// How many entries of `s` watch the given root.
pub open spec fn count_watchers_of(s: Seq<WatcherEntry>, root: Seq<char>) -> nat
    decreases s.len(),
{
    if s.len() == 0 {
        0
    } else {
        count_watchers_of(s.drop_last(), root) + if s.last().root@ == root {
            1nat
        } else {
            0nat
        }
    }
}

impl DaemonState {
    /// Whether some workspace is recorded under this root.
    pub open spec fn has_workspace(self, root: Seq<char>) -> bool {
        exists|i: int| 0 <= i < self.workspaces@.len() && (#[trigger] self.workspaces@[i]).root@ == root
    }

    /// Whether some watcher is recorded under this root.
    pub open spec fn has_watcher(self, root: Seq<char>) -> bool {
        exists|i: int| 0 <= i < self.watchers@.len() && (#[trigger] self.watchers@[i]).root@ == root
    }

    /// Whether some client is recorded under this process identifier.
    pub open spec fn has_client(self, pid: u64) -> bool {
        exists|i: int| 0 <= i < self.clients@.len() && (#[trigger] self.clients@[i]).pid == pid
    }

    /// No two workspace entries share a root.
    pub open spec fn workspaces_unique(self) -> bool {
        forall|i: int, j: int|
            0 <= i < j < self.workspaces@.len() ==> (#[trigger] self.workspaces@[i]).root@ != (
            #[trigger] self.workspaces@[j]).root@
    }

    /// No two watcher entries share a root: at most one watch per root.
    pub open spec fn watchers_unique(self) -> bool {
        forall|i: int, j: int|
            0 <= i < j < self.watchers@.len() ==> (#[trigger] self.watchers@[i]).root@ != (
            #[trigger] self.watchers@[j]).root@
    }

    /// No two client entries share a process identifier.
    pub open spec fn clients_unique(self) -> bool {
        forall|i: int, j: int|
            0 <= i < j < self.clients@.len() ==> (#[trigger] self.clients@[i]).pid != (
            #[trigger] self.clients@[j]).pid
    }

    /// Well-formedness of the shared record: all three maps have unique
    /// keys. Established at startup and preserved by every mutation.
    pub open spec fn wf(self) -> bool {
        self.workspaces_unique() && self.watchers_unique() && self.clients_unique()
    }

    /// The empty state the daemon starts from.
    pub fn new() -> (r: DaemonState)
        ensures
            r.wf(),
            r.workspaces@.len() == 0,
            r.watchers@.len() == 0,
            r.clients@.len() == 0,
            r.devices@.len() == 0,
    {
        DaemonState {
            workspaces: Vec::new(),
            watchers: Vec::new(),
            clients: Vec::new(),
            devices: Vec::new(),
            next_watch_handle: 0,
        }
    }

    /// Whether this root is already registered as a workspace.
    pub fn contains_workspace(&self, root: &str) -> (r: bool)
        ensures
            r == self.has_workspace(root@),
    {
        let mut i: usize = 0;
        while i < self.workspaces.len()
            invariant
                i <= self.workspaces@.len(),
                forall|j: int| 0 <= j < i ==> (#[trigger] self.workspaces@[j]).root@ != root@,
            decreases self.workspaces@.len() - i,
        {
            if str_eq(self.workspaces[i].root.as_str(), root) {
                return true;
            }
            i += 1;
        }
        false
    }

    /// Whether this root is already being watched.
    pub fn contains_watcher(&self, root: &str) -> (r: bool)
        ensures
            r == self.has_watcher(root@),
    {
        let mut i: usize = 0;
        while i < self.watchers.len()
            invariant
                i <= self.watchers@.len(),
                forall|j: int| 0 <= j < i ==> (#[trigger] self.watchers@[j]).root@ != root@,
            decreases self.watchers@.len() - i,
        {
            if str_eq(self.watchers[i].root.as_str(), root) {
                return true;
            }
            i += 1;
        }
        false
    }

    /// Whether a client with this process identifier is registered.
    pub fn contains_client(&self, pid: u64) -> (r: bool)
        ensures
            r == self.has_client(pid),
    {
        let mut i: usize = 0;
        while i < self.clients.len()
            invariant
                i <= self.clients@.len(),
                forall|j: int| 0 <= j < i ==> (#[trigger] self.clients@[j]).pid != pid,
            decreases self.clients@.len() - i,
        {
            if self.clients[i].pid == pid {
                return true;
            }
            i += 1;
        }
        false
    }

    /// The sink token of the client with this process identifier, if the
    /// client is still registered. Streaming loops re-resolve the sink
    /// through this on every event, so a vanished client is observed as
    /// `None` rather than as a stale handle.
    pub fn find_client_sink(&self, pid: u64) -> (r: Option<u64>)
        ensures
            match r {
                Some(sink) => exists|i: int|
                    0 <= i < self.clients@.len() && (#[trigger] self.clients@[i]).pid == pid && self.clients@[i].sink
                        == sink,
                None => !self.has_client(pid),
            },
    {
        let mut i: usize = 0;
        while i < self.clients.len()
            invariant
                i <= self.clients@.len(),
                forall|j: int| 0 <= j < i ==> (#[trigger] self.clients@[j]).pid != pid,
            decreases self.clients@.len() - i,
        {
            if self.clients[i].pid == pid {
                return Some(self.clients[i].sink);
            }
            i += 1;
        }
        None
    }

    /// The device with this unique identifier, if it is in the snapshot.
    pub fn find_device(&self, udid: &str) -> (r: Option<SimDevice>)
        ensures
            match r {
                Some(d) => d.udid@ == udid@ && exists|i: int|
                    0 <= i < self.devices@.len() && (#[trigger] self.devices@[i])@ == d@,
                None => forall|i: int|
                    0 <= i < self.devices@.len() ==> (#[trigger] self.devices@[i]).udid@ != udid@,
            },
    {
        let mut i: usize = 0;
        while i < self.devices.len()
            invariant
                i <= self.devices@.len(),
                forall|j: int| 0 <= j < i ==> (#[trigger] self.devices@[j]).udid@ != udid@,
            decreases self.devices@.len() - i,
        {
            if str_eq(self.devices[i].udid.as_str(), udid) {
                return Some(self.devices[i].duplicate());
            }
            i += 1;
        }
        None
    }

    /// Registers a workspace root. A root already present is left as it
    /// is; a new root is appended with no cached target.
    pub fn add_workspace(&mut self, root: String)
        requires
            old(self).wf(),
        ensures
            final(self).wf(),
            final(self).watchers@ == old(self).watchers@,
            final(self).clients@ == old(self).clients@,
            final(self).devices@ == old(self).devices@,
            final(self).next_watch_handle == old(self).next_watch_handle,
            forall|r: Seq<char>|
                final(self).has_workspace(r) <==> old(self).has_workspace(r) || r == root@,
            old(self).has_workspace(root@) ==> final(self).workspaces@ == old(self).workspaces@,
    {
        if !self.contains_workspace(root.as_str()) {
            let ghost r0 = root@;
            self.workspaces.push(Workspace { root, last_target: None });
            proof {
                let n = old(self).workspaces@.len() as int;
                assert forall|r: Seq<char>|
                    self.has_workspace(r) <==> old(self).has_workspace(r) || r == r0 by {
                    if old(self).has_workspace(r) {
                        let i = choose|i: int|
                            0 <= i < old(self).workspaces@.len() && (#[trigger] old(self).workspaces@[i]).root@ == r;
                        assert(self.workspaces@[i].root@ == r);
                    }
                    if r == r0 {
                        assert(self.workspaces@[n].root@ == r);
                    }
                    if self.has_workspace(r) {
                        let i = choose|i: int|
                            0 <= i < self.workspaces@.len() && (#[trigger] self.workspaces@[i]).root@
                                == r;
                        if i < n {
                            assert(old(self).workspaces@[i].root@ == r);
                        } else {
                            assert(r == r0);
                        }
                    }
                }
            }
        }
    }

    /// Registers a client's log sink under its process identifier. A pid
    /// already present keeps its existing sink.
    pub fn add_client(&mut self, pid: u64, sink: u64)
        requires
            old(self).wf(),
        ensures
            final(self).wf(),
            final(self).watchers@ == old(self).watchers@,
            final(self).workspaces@ == old(self).workspaces@,
            final(self).devices@ == old(self).devices@,
            final(self).next_watch_handle == old(self).next_watch_handle,
            forall|p: u64| final(self).has_client(p) <==> old(self).has_client(p) || p == pid,
            old(self).has_client(pid) ==> final(self).clients@ == old(self).clients@,
    {
        if !self.contains_client(pid) {
            self.clients.push(ClientEntry { pid, sink });
            proof {
                let n = old(self).clients@.len() as int;
                assert forall|p: u64|
                    self.has_client(p) <==> old(self).has_client(p) || p == pid by {
                    if old(self).has_client(p) {
                        let i = choose|i: int|
                            0 <= i < old(self).clients@.len() && (#[trigger] old(self).clients@[i]).pid == p;
                        assert(self.clients@[i].pid == p);
                    }
                    if p == pid {
                        assert(self.clients@[n].pid == p);
                    }
                    if self.has_client(p) {
                        let i = choose|i: int|
                            0 <= i < self.clients@.len() && (#[trigger] self.clients@[i]).pid == p;
                        if i < n {
                            assert(old(self).clients@[i].pid == p);
                        }
                    }
                }
            }
        }
    }

    /// Watcher reconciliation: starts a watch for every workspace root
    /// that is not watched yet, and records its handle. Roots already
    /// watched are never re-started and keep their handles; watches whose
    /// workspaces have disappeared are deliberately left in place. Returns
    /// the newly recorded entries so the embedding can spawn one watch
    /// task per returned root.
    pub fn update_watchers(&mut self) -> (started: Vec<WatcherEntry>)
        requires
            old(self).wf(),
        ensures
            final(self).wf(),
            final(self).workspaces@ == old(self).workspaces@,
            final(self).clients@ == old(self).clients@,
            final(self).devices@ == old(self).devices@,
            final(self).watchers@ == old(self).watchers@ + started@,
            forall|r: Seq<char>|
                final(self).has_watcher(r) <==> old(self).has_watcher(r) || old(self).has_workspace(
                    r,
                ),
            forall|k: int|
                0 <= k < started@.len() ==> old(self).has_workspace(
                    (#[trigger] started@[k]).root@,
                ) && !old(self).has_watcher(started@[k].root@),
    {
        let ghost orig = *self;
        let mut started: Vec<WatcherEntry> = Vec::new();
        let mut w: usize = 0;
        while w < self.workspaces.len()
            invariant
                orig.wf(),
                self.wf(),
                w <= self.workspaces@.len(),
                self.workspaces@ == orig.workspaces@,
                self.clients@ == orig.clients@,
                self.devices@ == orig.devices@,
                self.watchers@ == orig.watchers@ + started@,
                forall|k: int|
                    0 <= k < started@.len() ==> orig.has_workspace(
                        (#[trigger] started@[k]).root@,
                    ) && !orig.has_watcher(started@[k].root@),
                forall|i: int|
                    0 <= i < w ==> self.has_watcher((#[trigger] orig.workspaces@[i]).root@),
            decreases self.workspaces@.len() - w,
        {
            let root = self.workspaces[w].root.clone();
            let ghost pre = *self;
            if !self.contains_watcher(root.as_str()) {
                let handle = self.next_watch_handle;
                self.next_watch_handle = handle.wrapping_add(1);
                self.watchers.push(WatcherEntry { root: root.clone(), handle });
                started.push(WatcherEntry { root, handle });
                proof {
                    let n = pre.watchers@.len() as int;
                    assert(self.watchers@ =~= orig.watchers@ + started@);
                    assert(orig.workspaces@[w as int].root@ == root@);
                    lemma_has_watcher_extend(orig, pre);
                    assert(!orig.has_watcher(root@));
                    lemma_has_watcher_extend(pre, *self);
                    assert(self.watchers@[n].root@ == orig.workspaces@[w as int].root@);
                    assert forall|i: int|
                        0 <= i < w + 1 implies self.has_watcher(
                        (#[trigger] orig.workspaces@[i]).root@,
                    ) by {
                        if i < w {
                            assert(pre.has_watcher(orig.workspaces@[i].root@));
                        }
                    }
                    assert forall|i: int, j: int|
                        0 <= i < j < self.watchers@.len() implies (#[trigger] self.watchers@[i]).root@
                        != (#[trigger] self.watchers@[j]).root@ by {
                        if j < n {
                            assert(pre.watchers@[i].root@ != pre.watchers@[j].root@);
                        } else {
                            assert(self.watchers@[i] == pre.watchers@[i]);
                            if self.watchers@[i].root@ == root@ {
                                assert(pre.has_watcher(root@));
                            }
                        }
                    }
                }
            } else {
                proof {
                    assert(orig.workspaces@[w as int].root@ == root@);
                    assert(self.has_watcher(orig.workspaces@[w as int].root@));
                }
            }
            w += 1;
        }
        proof {
            assert forall|r: Seq<char>|
                self.has_watcher(r) <==> orig.has_watcher(r) || orig.has_workspace(r) by {
                if self.has_watcher(r) {
                    let j = choose|j: int|
                        0 <= j < self.watchers@.len() && (#[trigger] self.watchers@[j]).root@ == r;
                    if j < orig.watchers@.len() {
                        assert(orig.watchers@[j].root@ == r);
                    } else {
                        let k = j - orig.watchers@.len() as int;
                        assert(started@[k].root@ == r);
                    }
                }
                if orig.has_watcher(r) {
                    let j = choose|j: int|
                        0 <= j < orig.watchers@.len() && (#[trigger] orig.watchers@[j]).root@ == r;
                    assert(self.watchers@[j].root@ == r);
                }
                if orig.has_workspace(r) {
                    let i = choose|i: int|
                        0 <= i < orig.workspaces@.len() && (#[trigger] orig.workspaces@[i]).root@
                            == r;
                    assert(self.has_watcher(orig.workspaces@[i].root@));
                }
            }
        }
        started
    }
}

/// `has_workspace` reads only the workspace table: two states with equal
/// tables agree on it.
pub proof fn lemma_same_workspaces(a: DaemonState, b: DaemonState)
    requires
        a.workspaces@ == b.workspaces@,
    ensures
        forall|r: Seq<char>| #[trigger] a.has_workspace(r) == b.has_workspace(r),
{
    assert forall|r: Seq<char>| #[trigger] a.has_workspace(r) == b.has_workspace(r) by {
        if a.has_workspace(r) {
            let i = choose|i: int|
                0 <= i < a.workspaces@.len() && (#[trigger] a.workspaces@[i]).root@ == r;
            assert(b.workspaces@[i].root@ == r);
        }
        if b.has_workspace(r) {
            let i = choose|i: int|
                0 <= i < b.workspaces@.len() && (#[trigger] b.workspaces@[i]).root@ == r;
            assert(a.workspaces@[i].root@ == r);
        }
    }
}

/// `has_watcher` reads only the watcher table: two states with equal
/// tables agree on it.
pub proof fn lemma_same_watchers(a: DaemonState, b: DaemonState)
    requires
        a.watchers@ == b.watchers@,
    ensures
        forall|r: Seq<char>| #[trigger] a.has_watcher(r) == b.has_watcher(r),
{
    assert forall|r: Seq<char>| #[trigger] a.has_watcher(r) == b.has_watcher(r) by {
        if a.has_watcher(r) {
            let i = choose|i: int|
                0 <= i < a.watchers@.len() && (#[trigger] a.watchers@[i]).root@ == r;
            assert(b.watchers@[i].root@ == r);
        }
        if b.has_watcher(r) {
            let i = choose|i: int|
                0 <= i < b.watchers@.len() && (#[trigger] b.watchers@[i]).root@ == r;
            assert(a.watchers@[i].root@ == r);
        }
    }
}

/// `has_client` reads only the client table: two states with equal tables
/// agree on it.
pub proof fn lemma_same_clients(a: DaemonState, b: DaemonState)
    requires
        a.clients@ == b.clients@,
    ensures
        forall|p: u64| #[trigger] a.has_client(p) == b.has_client(p),
{
    assert forall|p: u64| #[trigger] a.has_client(p) == b.has_client(p) by {
        if a.has_client(p) {
            let i = choose|i: int| 0 <= i < a.clients@.len() && (#[trigger] a.clients@[i]).pid == p;
            assert(b.clients@[i].pid == p);
        }
        if b.has_client(p) {
            let i = choose|i: int| 0 <= i < b.clients@.len() && (#[trigger] b.clients@[i]).pid == p;
            assert(a.clients@[i].pid == p);
        }
    }
}

/// Watched roots are preserved when the watcher table only grows: every
/// root watched in `a` is still watched in `b`.
proof fn lemma_has_watcher_extend(a: DaemonState, b: DaemonState)
    requires
        a.watchers@.len() <= b.watchers@.len(),
        forall|j: int| 0 <= j < a.watchers@.len() ==> #[trigger] b.watchers@[j] == a.watchers@[j],
    ensures
        forall|r: Seq<char>| #[trigger] a.has_watcher(r) ==> b.has_watcher(r),
{
    assert forall|r: Seq<char>| #[trigger] a.has_watcher(r) implies b.has_watcher(r) by {
        let j = choose|j: int|
            0 <= j < a.watchers@.len() && (#[trigger] a.watchers@[j]).root@ == r;
        assert(b.watchers@[j].root@ == r);
    }
}

/// How many watcher entries a well-formed state holds for one root: one if
/// the root is watched, none otherwise. With the reconciliation contract
/// this says that after reconciliation every workspace root has exactly
/// one watcher entry, and that no root ever has more than one.
pub proof fn lemma_at_most_one_watcher(s: DaemonState, root: Seq<char>)
    requires
        s.wf(),
    ensures
        count_watchers_of(s.watchers@, root) == if s.has_watcher(root) {
            1nat
        } else {
            0nat
        },
{
    lemma_unique_count(s.watchers@, root);
}

/// After reconciliation every workspace root has exactly one watcher
/// entry. The premises are what reconciliation ensures of the state it
/// leaves behind: well-formedness, watched roots covering the workspace
/// roots, and an unchanged workspace table.
pub proof fn lemma_reconciliation_watches_each_root_once(
    pre: DaemonState,
    post: DaemonState,
    root: Seq<char>,
)
    requires
        post.wf(),
        forall|r: Seq<char>| post.has_watcher(r) <==> pre.has_watcher(r) || pre.has_workspace(r),
        post.workspaces@ == pre.workspaces@,
        post.has_workspace(root),
    ensures
        count_watchers_of(post.watchers@, root) == 1,
{
    lemma_same_workspaces(pre, post);
    assert(pre.has_workspace(root));
    assert(post.has_watcher(root));
    lemma_at_most_one_watcher(post, root);
}

/// Counting helper: in a run of entries with pairwise-distinct roots, the
/// number of entries for one root is one if present, zero if absent.
proof fn lemma_unique_count(s: Seq<WatcherEntry>, root: Seq<char>)
    requires
        forall|i: int, j: int| 0 <= i < j < s.len() ==> (#[trigger] s[i]).root@ != (#[trigger] s[j]).root@,
    ensures
        count_watchers_of(s, root) == if exists|i: int| 0 <= i < s.len() && (#[trigger] s[i]).root@
            == root {
            1nat
        } else {
            0nat
        },
    decreases s.len(),
{
    if s.len() == 0 {
    } else {
        let head = s.drop_last();
        lemma_unique_count(head, root);
        if s.last().root@ == root {
            assert forall|i: int| !(0 <= i < head.len() && (#[trigger] head[i]).root@ == root) by {
                if 0 <= i < head.len() {
                    assert(s[i].root@ != s[s.len() - 1].root@);
                    assert(head[i] == s[i]);
                }
            }
            assert(s[s.len() - 1].root@ == root);
        } else {
            if exists|i: int| 0 <= i < s.len() && (#[trigger] s[i]).root@ == root {
                let i = choose|i: int| 0 <= i < s.len() && (#[trigger] s[i]).root@ == root;
                assert(i < s.len() - 1);
                assert(head[i].root@ == root);
            } else {
                assert forall|i: int| !(0 <= i < head.len() && (#[trigger] head[i]).root@ == root) by {
                    if 0 <= i < head.len() {
                        assert(s[i].root@ != root);
                        assert(head[i] == s[i]);
                    }
                }
            }
        }
    }
}

} // verus!
