use vstd::prelude::*;
use crate::messages::{copy_states, ClientMessage, RemoteState};

verus! {

/// No two entries share an id.
pub open spec fn unique_ids(s: Seq<RemoteState>) -> bool {
    forall|i: int, j: int| 0 <= i < j < s.len() ==> s[i].id != s[j].id
}

/// The table after `st` is stored: it replaces the entry with the same id, or
/// is appended when there is none.
pub open spec fn upserted(s: Seq<RemoteState>, st: RemoteState) -> Seq<RemoteState> {
    if exists|i: int| 0 <= i < s.len() && s[i].id == st.id {
        s.update(choose|i: int| 0 <= i < s.len() && s[i].id == st.id, st)
    } else {
        s.push(st)
    }
}

/// The table without the entry that carries `id`, if there is one.
pub open spec fn without_id(s: Seq<RemoteState>, id: usize) -> Seq<RemoteState> {
    if exists|i: int| 0 <= i < s.len() && s[i].id == id {
        s.remove(choose|i: int| 0 <= i < s.len() && s[i].id == id)
    } else {
        s
    }
}

/// The latest reported state of each participant that has reported one.
pub struct StateTable {
    entries: Vec<RemoteState>,
}

impl View for StateTable {
    type V = Seq<RemoteState>;

    closed spec fn view(&self) -> Seq<RemoteState> {
        self.entries@
    }
}

impl StateTable {
    pub open spec fn wf(&self) -> bool {
        unique_ids(self@)
    }

    /// An empty table.
    pub fn new() -> (r: Self)
        ensures
            r.wf(),
            r@.len() == 0,
    {
        StateTable { entries: Vec::new() }
    }

    /// The number of entries.
    pub fn len(&self) -> (r: usize)
        ensures
            r == self@.len(),
    {
        self.entries.len()
    }

    /// Whether the table has no entry.
    pub fn is_empty(&self) -> (r: bool)
        ensures
            r == (self@.len() == 0),
    {
        self.entries.len() == 0
    }

    fn position(&self, id: usize) -> (r: Option<usize>)
        ensures
            r is None <==> !(exists|i: int| 0 <= i < self@.len() && self@[i].id == id),
            r matches Some(i) ==> i < self@.len() && self@[i as int].id == id,
    {
        let mut i: usize = 0;
        while i < self.entries.len()
            invariant
                i <= self@.len(),
                forall|k: int| 0 <= k < i ==> self@[k].id != id,
            decreases self@.len() - i,
        {
            if self.entries[i].id == id {
                return Some(i);
            }
            i = i + 1;
        }
        None
    }

    /// The entry with this id, if any.
    pub fn get(&self, id: usize) -> (r: Option<RemoteState>)
        ensures
            r is None <==> !(exists|i: int| 0 <= i < self@.len() && self@[i].id == id),
            r matches Some(st) ==> st.id == id && self@.contains(st),
    {
        match self.position(id) {
            Some(i) => Some(self.entries[i]),
            None => None,
        }
    }

    /// Stores `st` as the latest state of its participant.
    pub fn upsert(&mut self, st: RemoteState)
        requires
            old(self).wf(),
        ensures
            final(self).wf(),
            final(self)@ == upserted(old(self)@, st),
    {
        match self.position(st.id) {
            Some(i) => {
                proof {
                    let s = old(self)@;
                    let k = choose|k: int| 0 <= k < s.len() && s[k].id == st.id;
                    assert(k == i as int);
                }
                self.entries.set(i, st);
            },
            None => {
                self.entries.push(st);
            },
        }
    }

    /// Drops the entry with this id; an absent id leaves the table as it was.
    pub fn remove(&mut self, id: usize)
        requires
            old(self).wf(),
        ensures
            final(self).wf(),
            final(self)@ == without_id(old(self)@, id),
    {
        match self.position(id) {
            Some(i) => {
                proof {
                    let s = old(self)@;
                    let k = choose|k: int| 0 <= k < s.len() && s[k].id == id;
                    assert(k == i as int);
                }
                let _gone = self.entries.remove(i);
                proof {
                    let s = old(self)@;
                    assert forall|a: int, b: int| 0 <= a < b < self@.len() implies
                        self@[a].id != self@[b].id by {
                        let a0 = if a < i { a } else { a + 1 };
                        let b0 = if b < i { b } else { b + 1 };
                        assert(self@[a] == s[a0]);
                        assert(self@[b] == s[b0]);
                    }
                }
            },
            None => {},
        }
    }

    /// A copy of every entry, taken at once.
    pub fn snapshot(&self) -> (r: Vec<RemoteState>)
        ensures
            r@ == self@,
    {
        copy_states(&self.entries)
    }

    /// Applies a message from participant `id`: a state report replaces that
    /// participant's entry as a whole.
    pub fn user_message(&mut self, id: usize, msg: ClientMessage)
        requires
            old(self).wf(),
        ensures
            final(self).wf(),
            final(self)@ == upserted(
                old(self)@,
                match msg {
                    ClientMessage::State(s) => RemoteState { id, position: s.pos, rotation: s.r },
                },
            ),
    {
        match msg {
            ClientMessage::State(s) => {
                self.upsert(RemoteState { id, position: s.pos, rotation: s.r });
            },
        }
    }
}

} // verus!
