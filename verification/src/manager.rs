//! Session-manager decisions: dimension limits, the registry of named
//! sessions, the PTY output loop's flushing, and client pruning.

use crate::errors::SessionError;
use crate::ids::{uuid_text, uuid_to_string};
use crate::text::{str_eq, string_of};
use vstd::prelude::*;

verus! {

/// Largest accepted number of rows or columns.
pub const MAX_DIMENSION: u16 = 500;

/// Bytes of pending PTY output that force a flush.
pub const FLUSH_BYTES: usize = 4096;

/// Milliseconds after which pending PTY output is flushed.
pub const FLUSH_MS: u64 = 100;

/// Whether terminal dimensions are accepted: 1 to 500 rows and columns.
pub open spec fn dimensions_ok(rows: u16, cols: u16) -> bool {
    1 <= rows <= MAX_DIMENSION && 1 <= cols <= MAX_DIMENSION
}

/// Check terminal dimensions.
pub fn validate_dimensions(rows: u16, cols: u16) -> (r: Result<(), SessionError>)
    ensures
        r is Ok <==> dimensions_ok(rows, cols),
        r is Err ==> r == Err::<(), SessionError>(SessionError::InvalidDimensions(rows, cols)),
{
    if rows == 0 || cols == 0 || rows > MAX_DIMENSION || cols > MAX_DIMENSION {
        Err(SessionError::InvalidDimensions(rows, cols))
    } else {
        Ok(())
    }
}

/// The key a workspace layout is saved under: `<user>:<root session id>`.
pub fn layout_persistence_key(user_id: &str, root_session_id: u128) -> (k: String)
    ensures
        k@ == user_id@ + ":"@ + uuid_text(root_session_id),
{
    let id = uuid_to_string(root_session_id);
    let mut k = string_of(user_id);
    k.append(":");
    k.append(id.as_str());
    k
}

/// Working directory and size a new split pane starts with: those of the
/// pane it splits when its session is known, else no directory and 24x80.
pub fn split_source(pane_session: Option<(String, u16, u16)>) -> (r: (Option<String>, u16, u16))
    ensures
        match pane_session {
            Some((dir, rows, cols)) => r == (Some(dir), rows, cols),
            None => r == (None::<String>, 24u16, 80u16),
        },
{
    match pane_session {
        Some((dir, rows, cols)) => (Some(dir), rows, cols),
        None => (None, 24, 80),
    }
}

// ---------------------------------------------------------------------------
// Named sessions
// ---------------------------------------------------------------------------

/// Maps stable logical names (e.g. "computer/workspace/terminal") to the
/// session they currently resolve to, so clients naming the same terminal
/// share one session.
pub struct NamedSessions {
    entries: Vec<(String, u128)>,
}

/// The names of a list of entries.
pub open spec fn entry_names(e: Seq<(String, u128)>) -> Seq<Seq<char>> {
    e.map_values(|p: (String, u128)| p.0@)
}

/// The mapping a list of distinct-named entries stands for.
pub open spec fn entry_map(e: Seq<(String, u128)>) -> Map<Seq<char>, u128>
    decreases e.len(),
{
    if e.len() == 0 {
        Map::empty()
    } else {
        entry_map(e.drop_last()).insert(e.last().0@, e.last().1)
    }
}

proof fn lemma_entry_map_domain(e: Seq<(String, u128)>, k: Seq<char>)
    ensures
        entry_map(e).contains_key(k) <==> entry_names(e).contains(k),
    decreases e.len(),
{
    if e.len() > 0 {
        lemma_entry_map_domain(e.drop_last(), k);
        let n = entry_names(e);
        assert(entry_names(e.drop_last()) =~= n.drop_last());
        assert(n[n.len() - 1] == e.last().0@);
        if n.drop_last().contains(k) {
            let i = choose|i: int| 0 <= i < n.drop_last().len() && n.drop_last()[i] == k;
            assert(n[i] == k);
        }
        if n.contains(k) {
            let i = choose|i: int| 0 <= i < n.len() && n[i] == k;
            if i < n.len() - 1 {
                assert(n.drop_last()[i] == k);
            }
        }
    }
}

proof fn lemma_entry_map_at(e: Seq<(String, u128)>, i: int)
    requires
        0 <= i < e.len(),
        entry_names(e).no_duplicates(),
    ensures
        entry_map(e).contains_key(e[i].0@),
        entry_map(e)[e[i].0@] == e[i].1,
    decreases e.len(),
{
    lemma_entry_map_domain(e, e[i].0@);
    assert(entry_names(e)[i] == e[i].0@);
    if i < e.len() - 1 {
        assert(entry_names(e.drop_last()) =~= entry_names(e).drop_last());
        assert(e.drop_last()[i] == e[i]);
        lemma_entry_map_at(e.drop_last(), i);
        assert(entry_names(e)[i] != entry_names(e)[e.len() - 1]);
    }
}

proof fn lemma_entry_map_push(e: Seq<(String, u128)>, p: (String, u128))
    ensures
        entry_map(e.push(p)) == entry_map(e).insert(p.0@, p.1),
{
    assert(e.push(p).drop_last() =~= e);
}

proof fn lemma_entry_map_remove(e: Seq<(String, u128)>, i: int)
    requires
        0 <= i < e.len(),
        entry_names(e).no_duplicates(),
    ensures
        entry_map(e.remove(i)) == entry_map(e).remove(e[i].0@),
        entry_names(e.remove(i)).no_duplicates(),
    decreases e.len(),
{
    let r = e.remove(i);
    assert(entry_names(r) =~= entry_names(e).remove(i));
    if i == e.len() - 1 {
        assert(r =~= e.drop_last());
        lemma_entry_map_domain(e.drop_last(), e[i].0@);
        assert(!entry_names(e.drop_last()).contains(e[i].0@)) by {
            if entry_names(e.drop_last()).contains(e[i].0@) {
                let j = choose|j: int|
                    0 <= j < entry_names(e.drop_last()).len() && entry_names(e.drop_last())[j]
                        == e[i].0@;
                assert(entry_names(e)[j] == entry_names(e)[i]);
            }
        }
        assert(entry_map(r) =~= entry_map(e).remove(e[i].0@));
    } else {
        let d = e.drop_last();
        assert(entry_names(d) =~= entry_names(e).drop_last());
        lemma_entry_map_remove(d, i);
        assert(r =~= d.remove(i).push(e.last()));
        lemma_entry_map_push(d.remove(i), e.last());
        assert(entry_names(e)[i] != entry_names(e)[e.len() - 1]);
        assert(entry_map(r) =~= entry_map(e).remove(e[i].0@));
    }
}

impl NamedSessions {
    /// The name-to-session mapping.
    pub closed spec fn map(&self) -> Map<Seq<char>, u128> {
        entry_map(self.entries@)
    }

    /// Each name is held once.
    pub closed spec fn wf(&self) -> bool {
        entry_names(self.entries@).no_duplicates()
    }

    /// No names yet.
    pub fn new() -> (n: Self)
        ensures
            n.wf(),
            n.map() == Map::<Seq<char>, u128>::empty(),
    {
        NamedSessions { entries: Vec::new() }
    }

    fn position(&self, name: &str) -> (r: Option<usize>)
        requires
            self.wf(),
        ensures
            match r {
                Some(i) => i < self.entries@.len() && self.entries@[i as int].0@ == name@,
                None => !self.map().contains_key(name@),
            },
    {
        let mut i: usize = 0;
        while i < self.entries.len()
            invariant
                i <= self.entries@.len(),
                forall|j: int| 0 <= j < i ==> self.entries@[j].0@ != name@,
            decreases self.entries@.len() - i,
        {
            if str_eq(self.entries[i].0.as_str(), name) {
                return Some(i);
            }
            i = i + 1;
        }
        proof {
            lemma_entry_map_domain(self.entries@, name@);
            if entry_names(self.entries@).contains(name@) {
                let k = choose|k: int|
                    0 <= k < entry_names(self.entries@).len() && entry_names(self.entries@)[k]
                        == name@;
                assert(self.entries@[k].0@ == name@);
            }
        }
        None
    }

    /// The session a name resolves to.
    pub fn get(&self, name: &str) -> (r: Option<u128>)
        requires
            self.wf(),
        ensures
            r == (if self.map().contains_key(name@) {
                Some(self.map()[name@])
            } else {
                None
            }),
    {
        match self.position(name) {
            Some(i) => {
                proof {
                    lemma_entry_map_at(self.entries@, i as int);
                }
                Some(self.entries[i].1)
            },
            None => None,
        }
    }

    /// Map a name to a session (replacing what it mapped to).
    pub fn insert(&mut self, name: &str, id: u128)
        requires
            old(self).wf(),
        ensures
            final(self).wf(),
            final(self).map() == old(self).map().insert(name@, id),
    {
        let _ = self.remove(name);
        let ghost before = self.entries@;
        let n = string_of(name);
        let ghost g = n;
        self.entries.push((n, id));
        proof {
            lemma_entry_map_push(before, (g, id));
            assert(entry_names(self.entries@) =~= entry_names(before).push(name@));
            lemma_entry_map_domain(before, name@);
            assert(self.map() =~= old(self).map().insert(name@, id));
        }
    }

    /// Forget a name, returning the session it mapped to.
    pub fn remove(&mut self, name: &str) -> (r: Option<u128>)
        requires
            old(self).wf(),
        ensures
            final(self).wf(),
            final(self).map() == old(self).map().remove(name@),
            r == (if old(self).map().contains_key(name@) {
                Some(old(self).map()[name@])
            } else {
                None
            }),
    {
        match self.position(name) {
            Some(i) => {
                proof {
                    lemma_entry_map_at(self.entries@, i as int);
                    lemma_entry_map_remove(self.entries@, i as int);
                }
                let (_, id) = self.entries.remove(i);
                Some(id)
            },
            None => {
                proof {
                    assert(old(self).map().remove(name@) =~= old(self).map());
                }
                None
            },
        }
    }
}

/// A name maps to the session last registered under it until it is
/// removed; registering or removing one name leaves the others alone.
pub proof fn lemma_names_register_and_forget(
    m: Map<Seq<char>, u128>,
    name: Seq<char>,
    other: Seq<char>,
    id: u128,
)
    requires
        other != name,
    ensures
        m.insert(name, id).contains_key(name) && m.insert(name, id)[name] == id,
        !m.remove(name).contains_key(name),
        m.insert(name, id).contains_key(other) == m.contains_key(other),
        m.contains_key(other) ==> m.insert(name, id)[other] == m[other],
        m.remove(name).contains_key(other) == m.contains_key(other),
{
}

/// How a named session resolved.
#[derive(Debug, Clone, Copy, PartialEq, Eq, Structural)]
pub enum Resolution {
    /// The name already maps to this live session.
    Existing(u128),
    /// The previous name mapped to this live session, which now answers to
    /// the new name too.
    Renamed(u128),
    /// A new session must be created (and then registered under the name).
    Create,
}

/// Whether a session is among the live ones.
pub open spec fn is_live(live: Seq<u128>, id: u128) -> bool {
    live.contains(id)
}

fn contains_id(live: &Vec<u128>, id: u128) -> (b: bool)
    ensures
        b == is_live(live@, id),
{
    let mut i: usize = 0;
    while i < live.len()
        invariant
            i <= live@.len(),
            forall|j: int| 0 <= j < i ==> live@[j] != id,
        decreases live@.len() - i,
    {
        if live[i] == id {
            return true;
        }
        i = i + 1;
    }
    false
}

impl NamedSessions {
    /// Resolve `name` among the `live` sessions. A name that maps to a live
    /// session resolves to it. Otherwise, when the caller names a previous
    /// name (not empty, not `name`), that name is forgotten and, if it
    /// mapped to a live session, `name` now maps there too. Otherwise a new
    /// session is due.
    pub fn resolve(&mut self, name: &str, previous_name: Option<&str>, live: &Vec<u128>) -> (r:
        Resolution)
        requires
            old(self).wf(),
        ensures
            final(self).wf(),
            old(self).map().contains_key(name@) && is_live(live@, old(self).map()[name@]) ==> (r
                == Resolution::Existing(old(self).map()[name@]) && final(self).map() == old(
                self,
            ).map()),
            !(old(self).map().contains_key(name@) && is_live(live@, old(self).map()[name@])) ==> (
            match previous_name {
                Some(p) => if p@.len() > 0 && p@ != name@ {
                    if old(self).map().contains_key(p@) && is_live(live@, old(self).map()[p@]) {
                        r == Resolution::Renamed(old(self).map()[p@]) && final(self).map() == old(
                            self,
                        ).map().remove(p@).insert(name@, old(self).map()[p@])
                    } else {
                        r == Resolution::Create && final(self).map() == old(self).map().remove(p@)
                    }
                } else {
                    r == Resolution::Create && final(self).map() == old(self).map()
                },
                None => r == Resolution::Create && final(self).map() == old(self).map(),
            }),
    {
        match self.get(name) {
            Some(id) => {
                if contains_id(live, id) {
                    return Resolution::Existing(id);
                }
            },
            None => {},
        }
        match previous_name {
            Some(prev) => {
                if !prev.is_empty() && !str_eq(prev, name) {
                    match self.remove(prev) {
                        Some(id) => {
                            if contains_id(live, id) {
                                self.insert(name, id);
                                return Resolution::Renamed(id);
                            }
                        },
                        None => {},
                    }
                }
            },
            None => {},
        }
        Resolution::Create
    }
}

// ---------------------------------------------------------------------------
// PTY output
// ---------------------------------------------------------------------------

/// What reading the PTY produced.
#[derive(Debug, Clone)]
pub enum ReadEvent {
    /// End of output: the PTY terminated.
    Eof,
    /// Bytes read.
    Data(Vec<u8>),
    /// Reading failed.
    Error,
    /// Nothing arrived within 100 ms.
    Timeout,
}

/// Output to hand out: add it to scrollback as one line and send it to
/// the clients under `sequence`.
#[derive(Debug, Clone)]
pub struct Flush {
    pub data: Vec<u8>,
    pub sequence: u64,
    /// Record session activity too.
    pub touch: bool,
}

/// What the loop does after an event.
#[derive(Debug, Clone)]
pub struct OutputStep {
    pub flush: Option<Flush>,
    /// Leave the loop (the session then counts as terminated).
    pub stop: bool,
    /// Restart the flush timer.
    pub reset_timer: bool,
}

/// Whether pending output is due: 4 KiB gathered, a newline seen, or
/// 100 ms since the last flush.
pub open spec fn flush_due(pending: Seq<u8>, since_flush_ms: u64) -> bool {
    pending.len() >= FLUSH_BYTES || pending.contains(10u8) || since_flush_ms >= FLUSH_MS
}

/// The bytes a step hands out.
pub open spec fn flushed_bytes(s: OutputStep) -> Seq<u8> {
    match s.flush {
        Some(f) => f.data@,
        None => Seq::<u8>::empty(),
    }
}

/// The bytes an event brings.
pub open spec fn bytes_read(e: ReadEvent) -> Seq<u8> {
    match e {
        ReadEvent::Data(d) => d@,
        _ => Seq::<u8>::empty(),
    }
}

/// Output read from the PTY and not yet handed out, with the sequence
/// number of the next flush.
pub struct OutputBuffer {
    pending: Vec<u8>,
    sequence: u64,
}

fn contains_newline(v: &Vec<u8>) -> (b: bool)
    ensures
        b == v@.contains(10u8),
{
    let mut i: usize = 0;
    while i < v.len()
        invariant
            i <= v@.len(),
            forall|j: int| 0 <= j < i ==> v@[j] != 10u8,
        decreases v@.len() - i,
    {
        if v[i] == 10u8 {
            return true;
        }
        i = i + 1;
    }
    false
}

impl OutputBuffer {
    /// The pending bytes.
    pub closed spec fn pending(&self) -> Seq<u8> {
        self.pending@
    }

    /// The sequence number of the next flush.
    pub closed spec fn sequence(&self) -> u64 {
        self.sequence
    }

    /// Nothing pending, first sequence 0.
    pub fn new() -> (b: Self)
        ensures
            b.pending() == Seq::<u8>::empty(),
            b.sequence() == 0,
    {
        OutputBuffer { pending: Vec::new(), sequence: 0 }
    }

    /// Handle one PTY read event, `since_flush_ms` after the last flush.
    ///
    /// End of output flushes what is pending (same sequence) and stops; a
    /// read error stops; a timeout flushes what is pending and restarts the
    /// timer; data is appended and flushed (with activity recorded) once
    /// due. Each flush after data or a timeout advances the sequence.
    pub fn step(&mut self, event: ReadEvent, since_flush_ms: u64) -> (s: OutputStep)
        ensures
            flushed_bytes(s) + final(self).pending() == old(self).pending() + bytes_read(event),
            match event {
                ReadEvent::Eof => s.stop && !s.reset_timer && (if old(self).pending().len() > 0 {
                    s.flush matches Some(f) && f.data@ == old(self).pending() && f.sequence == old(
                        self,
                    ).sequence() && !f.touch
                } else {
                    s.flush is None
                }) && final(self).pending() == Seq::<u8>::empty() && final(self).sequence() == old(
                    self,
                ).sequence(),
                ReadEvent::Error => s.stop && s.flush is None && !s.reset_timer && final(self).pending()
                    == old(self).pending() && final(self).sequence() == old(self).sequence(),
                ReadEvent::Timeout => !s.stop && s.reset_timer && (if old(self).pending().len()
                    > 0 {
                    s.flush matches Some(f) && f.data@ == old(self).pending() && f.sequence == old(
                        self,
                    ).sequence() && !f.touch && final(self).sequence() == old(
                        self,
                    ).sequence().wrapping_add(1)
                } else {
                    s.flush is None && final(self).sequence() == old(self).sequence()
                }) && final(self).pending() == Seq::<u8>::empty(),
                ReadEvent::Data(d) => !s.stop && (if flush_due(
                    old(self).pending() + d@,
                    since_flush_ms,
                ) {
                    s.reset_timer && (s.flush matches Some(f) && f.data@ == old(self).pending() + d@
                        && f.sequence == old(self).sequence() && f.touch) && final(self).pending()
                        == Seq::<u8>::empty() && final(self).sequence() == old(
                        self,
                    ).sequence().wrapping_add(1)
                } else {
                    !s.reset_timer && s.flush is None && final(self).pending() == old(self).pending()
                        + d@ && final(self).sequence() == old(self).sequence()
                }),
            },
    {
        match event {
            ReadEvent::Eof => {
                let flush = if self.pending.len() > 0 {
                    let mut data: Vec<u8> = Vec::new();
                    std::mem::swap(&mut data, &mut self.pending);
                    Some(Flush { data, sequence: self.sequence, touch: false })
                } else {
                    None
                };
                OutputStep { flush, stop: true, reset_timer: false }
            },
            ReadEvent::Error => OutputStep { flush: None, stop: true, reset_timer: false },
            ReadEvent::Timeout => {
                let flush = if self.pending.len() > 0 {
                    let mut data: Vec<u8> = Vec::new();
                    std::mem::swap(&mut data, &mut self.pending);
                    let f = Flush { data, sequence: self.sequence, touch: false };
                    self.sequence = self.sequence.wrapping_add(1);
                    Some(f)
                } else {
                    None
                };
                OutputStep { flush, stop: false, reset_timer: true }
            },
            ReadEvent::Data(d) => {
                let mut d = d;
                let ghost dv = d@;
                self.pending.append(&mut d);
                if self.pending.len() >= FLUSH_BYTES || contains_newline(&self.pending)
                    || since_flush_ms >= FLUSH_MS {
                    let mut data: Vec<u8> = Vec::new();
                    std::mem::swap(&mut data, &mut self.pending);
                    let f = Flush { data, sequence: self.sequence, touch: true };
                    self.sequence = self.sequence.wrapping_add(1);
                    OutputStep { flush: Some(f), stop: false, reset_timer: true }
                } else {
                    OutputStep { flush: None, stop: false, reset_timer: false }
                }
            },
        }
    }
}

/// No byte is lost or duplicated over a run of steps: what the steps
/// handed out, followed by what is still pending, is what was pending at
/// the start followed by everything read, in order.
pub proof fn lemma_output_conserved(
    pending: Seq<Seq<u8>>,
    events: Seq<ReadEvent>,
    steps: Seq<OutputStep>,
)
    requires
        pending.len() == events.len() + 1,
        steps.len() == events.len(),
        forall|i: int|
            0 <= i < events.len() ==> flushed_bytes(#[trigger] steps[i]) + pending[i + 1] == pending[i]
                + bytes_read(events[i]),
    ensures
        all_flushed(steps) + pending.last() == pending[0] + all_read(events),
    decreases events.len(),
{
    if events.len() > 0 {
        let n = events.len() - 1;
        lemma_output_conserved(pending.drop_last(), events.drop_last(), steps.drop_last());
        let af = all_flushed(steps.drop_last());
        let ar = all_read(events.drop_last());
        let f = flushed_bytes(steps[n]);
        let r = bytes_read(events[n]);
        let p0 = pending[0];
        let pn = pending[n];
        let p1 = pending[n + 1];
        assert(f + p1 == pn + r);
        assert(pending.drop_last().last() == pn);
        assert(pending.drop_last()[0] == p0);
        assert(af + pn == p0 + ar);
        assert(all_flushed(steps) == af + f);
        assert(all_read(events) == ar + r);
        assert((af + f) + p1 =~= af + (f + p1));
        assert(af + (pn + r) =~= (af + pn) + r);
        assert((p0 + ar) + r =~= p0 + (ar + r));
    }
}

/// Everything a run of steps handed out, in order.
pub open spec fn all_flushed(steps: Seq<OutputStep>) -> Seq<u8>
    decreases steps.len(),
{
    if steps.len() == 0 {
        Seq::<u8>::empty()
    } else {
        all_flushed(steps.drop_last()) + flushed_bytes(steps.last())
    }
}

/// Everything a run of events brought, in order.
pub open spec fn all_read(events: Seq<ReadEvent>) -> Seq<u8>
    decreases events.len(),
{
    if events.len() == 0 {
        Seq::<u8>::empty()
    } else {
        all_read(events.drop_last()) + bytes_read(events.last())
    }
}

// ---------------------------------------------------------------------------
// Broadcast
// ---------------------------------------------------------------------------

/// How a non-blocking send to a client went.
#[derive(Debug, Clone, Copy, PartialEq, Eq, Structural)]
pub enum SendOutcome {
    Sent,
    /// The client's buffer is full (it lags): the data is dropped for it.
    Full,
    /// The client is gone.
    Closed,
}

/// The clients a broadcast found gone, in order.
pub open spec fn closed_ids(outcomes: Seq<(u128, SendOutcome)>) -> Seq<u128> {
    outcomes.filter(|p: (u128, SendOutcome)| p.1 == SendOutcome::Closed).map_values(
        |p: (u128, SendOutcome)| p.0,
    )
}

/// The clients to detach after a broadcast: those whose channel closed.
pub fn closed_clients(outcomes: &Vec<(u128, SendOutcome)>) -> (ids: Vec<u128>)
    ensures
        ids@ == closed_ids(outcomes@),
{
    let ghost pred = |p: (u128, SendOutcome)| p.1 == SendOutcome::Closed;
    let mut ids: Vec<u128> = Vec::new();
    let mut i: usize = 0;
    while i < outcomes.len()
        invariant
            i <= outcomes@.len(),
            pred == (|p: (u128, SendOutcome)| p.1 == SendOutcome::Closed),
            ids@ == outcomes@.take(i as int).filter(pred).map_values(|p: (u128, SendOutcome)| p.0),
        decreases outcomes@.len() - i,
    {
        proof {
            reveal(Seq::filter);
            assert(outcomes@.take(i + 1).drop_last() =~= outcomes@.take(i as int));
            assert(outcomes@.take(i + 1).last() == outcomes@[i as int]);
        }
        if outcomes[i].1 == SendOutcome::Closed {
            ids.push(outcomes[i].0);
            proof {
                let f = outcomes@.take(i as int).filter(pred);
                assert(outcomes@.take(i + 1).filter(pred) == f.push(outcomes@[i as int]));
                assert(ids@ =~= f.push(outcomes@[i as int]).map_values(
                    |p: (u128, SendOutcome)| p.0,
                ));
            }
        } else {
            proof {
                assert(outcomes@.take(i + 1).filter(pred) == outcomes@.take(i as int).filter(pred));
            }
        }
        i = i + 1;
    }
    proof {
        assert(outcomes@.take(outcomes@.len() as int) =~= outcomes@);
    }
    ids
}

} // verus!
