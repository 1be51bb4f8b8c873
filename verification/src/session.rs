//! Terminal session state: lifecycle, dimensions, scrollback lines and the
//! clients attached to a session.
//!
//! Session and client ids are UUIDs, held as their 128-bit value.

use crate::scrollback::RingBuffer;
use std::time::Instant;
use vstd::prelude::*;
use vstd::std_specs::iter::IteratorSpec;

verus! {

/// Lines of scrollback a session keeps.
pub const SCROLLBACK_LINES: usize = 10_000;

/// Session state machine: RUNNING, then TERMINATED.
#[derive(Debug, Clone, Copy, PartialEq, Eq, Structural)]
pub enum SessionState {
    /// Session created, PTY spawned, ready for clients
    Running,
    /// PTY terminated, cleanup pending
    Terminated,
}

/// Terminal dimensions.
#[derive(Debug, Clone, Copy, PartialEq, Eq, Structural)]
pub struct Dimensions {
    pub rows: u16,
    pub cols: u16,
}

/// A line of terminal output, kept in scrollback.
#[derive(Debug, Clone)]
pub struct Line {
    /// Raw line data (UTF-8 with ANSI escape codes)
    pub data: Vec<u8>,
    /// Sequential line number
    pub line_number: u64,
}

impl Line {
    /// A line holding a copy of `data`, numbered 0 (scrollback numbers it).
    pub fn from_bytes(data: &[u8]) -> (l: Self)
        ensures
            l.data@ == data@,
            l.line_number == 0,
    {
        Line { data: slice_to_vec(data), line_number: 0 }
    }

    /// A copy of the line.
    pub fn copy(&self) -> (l: Self)
        ensures
            l.data@ == self.data@,
            l.line_number == self.line_number,
    {
        Line { data: self.data.clone(), line_number: self.line_number }
    }
}

fn slice_to_vec(data: &[u8]) -> (v: Vec<u8>)
    ensures
        v@ == data@,
{
    let mut v: Vec<u8> = Vec::new();
    let mut i: usize = 0;
    while i < data.len()
        invariant
            i <= data@.len(),
            v@ == data@.take(i as int),
        decreases data@.len() - i,
    {
        v.push(data[i]);
        proof {
            assert(data@.take(i + 1) =~= data@.take(i as int).push(data@[i as int]));
        }
        i = i + 1;
    }
    proof {
        assert(data@.take(data@.len() as int) =~= data@);
    }
    v
}

/// Two lines hold the same bytes and number.
pub open spec fn same_line(a: Line, b: Line) -> bool {
    a.data@ == b.data@ && a.line_number == b.line_number
}

/// Session snapshot, returned on attach so a late joiner can catch up.
#[derive(Debug, Clone)]
pub struct SessionSnapshot {
    pub id: u128,
    pub scrollback: Vec<Line>,
    pub rows: u16,
    pub cols: u16,
    pub working_dir: String,
    pub shell_type: String,
}

/// Ids of a client list, in order.
pub open spec fn ids_of<S>(clients: Seq<(u128, S)>) -> Seq<u128> {
    clients.map_values(|p: (u128, S)| p.0)
}

/// The entries that detaching `id` keeps.
pub open spec fn keeps_client<S>(id: u128) -> spec_fn((u128, S)) -> bool {
    |p: (u128, S)| p.0 != id
}

/// What detaching `id` leaves of a client list.
pub open spec fn without_client<S>(clients: Seq<(u128, S)>, id: u128) -> Seq<(u128, S)> {
    clients.filter(keeps_client(id))
}

/// A terminal session (metadata and state; the PTY lives elsewhere). `S`
/// is the sending end of a client's output channel.
pub struct Session<S> {
    /// Session UUID
    pub id: u128,
    /// Current state
    pub state: SessionState,
    /// Shell process ID
    pub shell_pid: u32,
    /// Shell type (e.g. "pwsh.exe", "/bin/bash")
    pub shell_type: String,
    /// Terminal dimensions
    pub dimensions: Dimensions,
    /// Working directory
    pub working_dir: String,
    /// In-memory scrollback (10k lines)
    pub scrollback: RingBuffer<Line>,
    /// Attached clients and their output channels, each id at most once
    pub clients: Vec<(u128, S)>,
    pub created_at: Instant,
    pub last_activity: Instant,
    /// Whether a monomind project was detected in the working directory
    pub monomind_detected: bool,
    /// The pane this session renders in, once it belongs to a split layout
    pub pane_id: Option<String>,
}

impl<S> Session<S> {
    /// The attached clients, in the order they attached.
    pub open spec fn client_list(&self) -> Seq<(u128, S)> {
        self.clients@
    }

    /// The ids of the attached clients, in the order they attached.
    pub open spec fn client_seq(&self) -> Seq<u128> {
        ids_of(self.client_list())
    }

    /// Each client is attached at most once.
    pub open spec fn wf(&self) -> bool {
        self.client_seq().no_duplicates()
    }

    /// A running session with no clients, empty scrollback of 10k lines and
    /// the given dimensions.
    pub fn new(
        id: u128,
        shell_pid: u32,
        shell_type: String,
        working_dir: String,
        rows: u16,
        cols: u16,
    ) -> (s: Self)
        ensures
            s.id == id,
            s.state == SessionState::Running,
            s.shell_pid == shell_pid,
            s.shell_type == shell_type,
            s.working_dir == working_dir,
            s.dimensions == (Dimensions { rows, cols }),
            s.scrollback.items() == Seq::<Line>::empty(),
            s.scrollback.cap() == SCROLLBACK_LINES,
            s.client_list() == Seq::<(u128, S)>::empty(),
            !s.monomind_detected,
            s.pane_id is None,
            s.wf(),
    {
        let s = Session {
            id,
            state: SessionState::Running,
            shell_pid,
            shell_type,
            dimensions: Dimensions { rows, cols },
            working_dir,
            scrollback: RingBuffer::new(SCROLLBACK_LINES),
            clients: Vec::new(),
            created_at: Instant::now(),
            last_activity: Instant::now(),
            monomind_detected: false,
            pane_id: None,
        };
        proof {
            assert(s.client_seq() =~= Seq::<u128>::empty());
        }
        s
    }

    /// Snapshot for late-joiner sync: a copy of the scrollback, the
    /// dimensions, working directory and shell.
    pub fn snapshot(&self) -> (snap: SessionSnapshot)
        ensures
            snap.id == self.id,
            snap.rows == self.dimensions.rows,
            snap.cols == self.dimensions.cols,
            snap.working_dir@ == self.working_dir@,
            snap.shell_type@ == self.shell_type@,
            snap.scrollback@.len() == self.scrollback.items().len(),
            forall|i: int|
                0 <= i < snap.scrollback@.len() ==> same_line(
                    #[trigger] snap.scrollback@[i],
                    self.scrollback.items()[i],
                ),
    {
        let mut out: Vec<Line> = Vec::new();
        let ghost items = self.scrollback.items();
        for line in it: self.scrollback.iter()
            invariant
                it.seq() == items.as_ref(),
                out@.len() == it.index(),
                forall|i: int| 0 <= i < out@.len() ==> same_line(#[trigger] out@[i], items[i]),
        {
            out.push(line.copy());
        }
        SessionSnapshot {
            id: self.id,
            scrollback: out,
            rows: self.dimensions.rows,
            cols: self.dimensions.cols,
            working_dir: self.working_dir.clone(),
            shell_type: self.shell_type.clone(),
        }
    }

    /// Whether a client is attached.
    pub fn has_client(&self, client_id: u128) -> (b: bool)
        ensures
            b == self.client_seq().contains(client_id),
    {
        let mut i: usize = 0;
        while i < self.clients.len()
            invariant
                i <= self.clients@.len(),
                forall|j: int| 0 <= j < i ==> self.clients@[j].0 != client_id,
            decreases self.clients@.len() - i,
        {
            if self.clients[i].0 == client_id {
                proof {
                    assert(self.client_seq()[i as int] == client_id);
                }
                return true;
            }
            i = i + 1;
        }
        proof {
            if self.client_seq().contains(client_id) {
                let k = choose|k: int|
                    0 <= k < self.client_seq().len() && self.client_seq()[k] == client_id;
                assert(self.clients@[k].0 == client_id);
            }
        }
        false
    }

    /// Attach a client with its output channel; a client already attached
    /// stays attached once, with its first channel.
    pub fn attach_client(&mut self, client_id: u128, output_tx: S)
        ensures
            old(self).client_seq().contains(client_id) ==> final(self).client_list() == old(
                self,
            ).client_list(),
            !old(self).client_seq().contains(client_id) ==> final(self).client_list() == old(
                self,
            ).client_list().push((client_id, output_tx)),
            old(self).wf() ==> final(self).wf(),
            final(self).client_seq().contains(client_id),
    {
        if !self.has_client(client_id) {
            let ghost prev = self.clients@;
            self.clients.push((client_id, output_tx));
            proof {
                assert(ids_of(self.clients@) =~= ids_of(prev).push(client_id));
                assert(self.client_seq()[self.client_seq().len() - 1] == client_id);
            }
        }
    }

    /// Detach a client; the others keep their order.
    pub fn detach_client(&mut self, client_id: u128)
        ensures
            final(self).client_list() == without_client(old(self).client_list(), client_id),
    {
        let ghost orig = self.clients@;
        let ghost pred = keeps_client::<S>(client_id);
        let mut i: usize = 0;
        let ghost mut k: int = 0;
        while i < self.clients.len()
            invariant
                0 <= k <= orig.len(),
                i == orig.take(k).filter(pred).len(),
                self.clients@ == orig.take(k).filter(pred) + orig.skip(k),
                pred == keeps_client::<S>(client_id),
            decreases orig.len() - k,
        {
            proof {
                assert(orig.take(k + 1).drop_last() =~= orig.take(k));
                assert(orig.take(k + 1).last() == orig[k]);
                reveal(Seq::filter);
                assert(self.clients@[i as int] == orig[k]);
            }
            if self.clients[i].0 == client_id {
                let ghost before = self.clients@;
                let _ = self.clients.remove(i);
                proof {
                    assert(self.clients@ =~= orig.take(k + 1).filter(pred) + orig.skip(k + 1));
                }
            } else {
                proof {
                    assert(self.clients@ =~= orig.take(k + 1).filter(pred) + orig.skip(k + 1));
                }
                i = i + 1;
            }
            proof {
                k = k + 1;
            }
        }
        proof {
            assert(orig.take(k).filter(pred).len() + orig.skip(k).len() == self.clients@.len());
            if k < orig.len() {
                assert(orig.skip(k).len() > 0);
            }
            assert(k == orig.len());
            assert(orig.take(orig.len() as int) =~= orig);
            assert(orig.skip(orig.len() as int) =~= Seq::<(u128, S)>::empty());
            assert(self.clients@ =~= without_client(orig, client_id));
        }
    }

    /// Ids of the attached clients, in order.
    pub fn client_ids(&self) -> (ids: Vec<u128>)
        ensures
            ids@ == self.client_seq(),
    {
        let mut ids: Vec<u128> = Vec::new();
        let mut i: usize = 0;
        while i < self.clients.len()
            invariant
                i <= self.clients@.len(),
                ids@ == ids_of(self.clients@.take(i as int)),
            decreases self.clients@.len() - i,
        {
            ids.push(self.clients[i].0);
            proof {
                assert(ids_of(self.clients@.take(i + 1)) =~= ids_of(self.clients@.take(i as int)).push(
                    self.clients@[i as int].0,
                ));
            }
            i = i + 1;
        }
        proof {
            assert(self.clients@.take(self.clients@.len() as int) =~= self.clients@);
        }
        ids
    }

    /// The output channels of the attached clients, in order.
    pub fn client_channels(&self) -> (c: &Vec<(u128, S)>)
        ensures
            c@ == self.client_list(),
    {
        &self.clients
    }

    /// Record activity now: the last activity becomes a reading of the
    /// clock; nothing else changes.
    pub fn touch(&mut self)
        ensures
            call_ensures(Instant::now, (), final(self).last_activity),
            final(self).created_at == old(self).created_at,
            final(self).shell_pid == old(self).shell_pid,
            final(self).shell_type == old(self).shell_type,
            final(self).working_dir == old(self).working_dir,
            final(self).monomind_detected == old(self).monomind_detected,
            final(self).pane_id == old(self).pane_id,
            final(self).client_list() == old(self).client_list(),
            final(self).id == old(self).id,
            final(self).state == old(self).state,
            final(self).dimensions == old(self).dimensions,
            final(self).scrollback == old(self).scrollback,
    {
        self.last_activity = Instant::now();
    }
}

/// Detaching a client leaves it detached, and keeps every other client.
pub proof fn lemma_detach_removes_only_that_client<S>(clients: Seq<(u128, S)>, id: u128, other: u128)
    requires
        other != id,
    ensures
        !ids_of(without_client(clients, id)).contains(id),
        ids_of(without_client(clients, id)).contains(other) <==> ids_of(clients).contains(other),
{
    let pred = keeps_client::<S>(id);
    let f = clients.filter(pred);
    if ids_of(f).contains(id) {
        let k = choose|k: int| 0 <= k < ids_of(f).len() && ids_of(f)[k] == id;
        clients.lemma_filter_pred(pred, k);
        assert(pred(f[k]));
    }
    if ids_of(clients).contains(other) {
        let k = choose|k: int| 0 <= k < ids_of(clients).len() && ids_of(clients)[k] == other;
        assert(pred(clients[k]));
        clients.lemma_filter_contains(pred, k);
        assert(f.contains(clients[k]));
        let j = choose|j: int| 0 <= j < f.len() && f[j] == clients[k];
        assert(ids_of(f)[j] == other);
    }
    if ids_of(f).contains(other) {
        let j = choose|j: int| 0 <= j < ids_of(f).len() && ids_of(f)[j] == other;
        assert(f.contains(f[j]));
        clients.lemma_filter_contains_rev(pred, f[j]);
        assert(clients.contains(f[j]));
        let k = choose|k: int| 0 <= k < clients.len() && clients[k] == f[j];
        assert(ids_of(clients)[k] == other);
    }
}

} // verus!
