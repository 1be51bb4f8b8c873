//! Sidebar session list of the desktop window.

use vstd::prelude::*;

verus! {

/// Session item in the list.
#[derive(Debug, Clone)]
pub struct SessionItem {
    pub name: String,
}

/// Session list for the sidebar: the sessions in the order they were
/// added, and which one is selected.
pub struct SessionList {
    sessions: Vec<SessionItem>,
    selected: Option<usize>,
}

impl SessionList {
    /// Names of the listed sessions, in order.
    pub closed spec fn names(&self) -> Seq<Seq<char>> {
        self.sessions@.map_values(|i: SessionItem| i.name@)
    }

    /// The selected index.
    pub closed spec fn selection(&self) -> Option<usize> {
        self.selected
    }

    /// An empty list with nothing selected.
    pub fn new() -> (l: Self)
        ensures
            l.names() == Seq::<Seq<char>>::empty(),
            l.selection() is None,
    {
        let l = SessionList { sessions: Vec::new(), selected: None };
        proof {
            assert(l.names() =~= Seq::<Seq<char>>::empty());
        }
        l
    }

    /// Append a session to the list; the selection is unchanged.
    pub fn add_session(&mut self, name: String)
        ensures
            final(self).names() == old(self).names().push(name@),
            final(self).selection() == old(self).selection(),
    {
        let ghost n = name@;
        self.sessions.push(SessionItem { name });
        proof {
            assert(self.names() =~= old(self).names().push(n));
        }
    }

    /// The listed sessions, in order.
    pub fn sessions(&self) -> (s: &[SessionItem])
        ensures
            s@.map_values(|i: SessionItem| i.name@) == self.names(),
    {
        self.sessions.as_slice()
    }

    /// The selected index.
    pub fn selected(&self) -> (r: Option<usize>)
        ensures
            r == self.selection(),
    {
        self.selected
    }

    /// Select an index (or nothing); the list is unchanged. The index is
    /// stored as given.
    pub fn set_selected(&mut self, index: Option<usize>)
        ensures
            final(self).selection() == index,
            final(self).names() == old(self).names(),
    {
        self.selected = index;
    }
}

impl Default for SessionList {
    fn default() -> (l: Self)
        ensures
            l.names() == Seq::<Seq<char>>::empty(),
            l.selection() is None,
    {
        SessionList::new()
    }
}

} // verus!
