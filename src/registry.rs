use vstd::prelude::*;
use crate::messages::{MessageView, Outgoing, ServerMessage};

verus! {

/// One live participant and the path on which messages reach it.
pub struct Session<C> {
    pub id: usize,
    pub channel: C,
}

/// The ids of a sequence of sessions, in order.
pub open spec fn session_ids<C>(s: Seq<Session<C>>) -> Seq<usize> {
    s.map_values(|e: Session<C>| e.id)
}

/// The ids strictly increase along the sequence.
pub open spec fn strictly_increasing(ids: Seq<usize>) -> bool {
    forall|i: int, j: int| 0 <= i < j < ids.len() ==> ids[i] < ids[j]
}

/// The sessions left once `id` is removed: the one entry that carries it, if any.
pub open spec fn unregistered<C>(s: Seq<Session<C>>, id: usize) -> Seq<Session<C>> {
    if exists|i: int| 0 <= i < s.len() && s[i].id == id {
        s.remove(choose|i: int| 0 <= i < s.len() && s[i].id == id)
    } else {
        s
    }
}

/// The live sessions of a server, with the counter that hands out ids.
/// Ids start at 1, grow with each registration and are never handed out twice.
pub struct SessionRegistry<C> {
    next_id: usize,
    sessions: Vec<Session<C>>,
}

impl<C> View for SessionRegistry<C> {
    type V = Seq<Session<C>>;

    closed spec fn view(&self) -> Seq<Session<C>> {
        self.sessions@
    }
}

impl<C> SessionRegistry<C> {
    /// The id that the next registration receives.
    pub closed spec fn next_id_spec(&self) -> usize {
        self.next_id
    }

    /// The ids of the live sessions, in order of registration.
    pub open spec fn ids(&self) -> Seq<usize> {
        session_ids(self@)
    }

    /// Live ids are strictly increasing, at least 1, and below the next id.
    pub open spec fn wf(&self) -> bool {
        &&& strictly_increasing(self.ids())
        &&& 1 <= self.next_id_spec()
        &&& forall|i: int| 0 <= i < self@.len() ==> 1 <= #[trigger] self@[i].id < self.next_id_spec()
    }

    /// An empty registry whose first id is 1.
    pub fn new() -> (r: Self)
        ensures
            r.wf(),
            r@.len() == 0,
            r.next_id_spec() == 1,
    {
        SessionRegistry { next_id: 1, sessions: Vec::new() }
    }

    /// The id that the next registration receives.
    pub fn next_id(&self) -> (r: usize)
        ensures
            r == self.next_id_spec(),
    {
        self.next_id
    }

    /// The number of live sessions.
    pub fn len(&self) -> (r: usize)
        ensures
            r == self@.len(),
    {
        self.sessions.len()
    }

    /// Adds a session for `channel` under the next id and returns the welcome
    /// that must be delivered to it first. Fails only when the ids are used up.
    pub fn register(&mut self, channel: C) -> (r: Option<Outgoing>)
        requires
            old(self).wf(),
        ensures
            final(self).wf(),
            r is None <==> old(self).next_id_spec() == usize::MAX,
            r is None ==> *final(self) == *old(self),
            r matches Some(o) ==> {
                &&& o@ == (old(self).next_id_spec(), MessageView::Welcome(old(self).next_id_spec()))
                &&& forall|i: int| 0 <= i < old(self)@.len() ==> #[trigger] old(self)@[i].id < o.to
                &&& final(self).next_id_spec() == old(self).next_id_spec() + 1
                &&& final(self)@ == old(self)@.push(Session { id: o.to, channel })
            },
    {
        if self.next_id == usize::MAX {
            return None;
        }
        let id = self.next_id;
        self.sessions.push(Session { id, channel });
        self.next_id = id + 1;
        proof {
            let s = self.ids();
            assert(s =~= old(self).ids().push(id));
        }
        Some(Outgoing { to: id, msg: ServerMessage::Welcome(id) })
    }

    /// The position of the session with this id, if one is live.
    fn position(&self, id: usize) -> (r: Option<usize>)
        requires
            self.wf(),
        ensures
            r is None <==> !(exists|i: int| 0 <= i < self@.len() && self@[i].id == id),
            r matches Some(i) ==> i < self@.len() && self@[i as int].id == id,
    {
        let mut i: usize = 0;
        while i < self.sessions.len()
            invariant
                i <= self@.len(),
                forall|k: int| 0 <= k < i ==> self@[k].id != id,
            decreases self@.len() - i,
        {
            if self.sessions[i].id == id {
                return Some(i);
            }
            i = i + 1;
        }
        None
    }

    /// Whether a session with this id is live.
    pub fn contains(&self, id: usize) -> (r: bool)
        requires
            self.wf(),
        ensures
            r == self.ids().contains(id),
    {
        let r = self.position(id).is_some();
        proof {
            if r {
                let i = choose|i: int| 0 <= i < self@.len() && self@[i].id == id;
                assert(self.ids()[i] == id);
            } else {
                assert forall|i: int| 0 <= i < self.ids().len() implies self.ids()[i] != id by {
                    assert(self.ids()[i] == self@[i].id);
                }
            }
        }
        r
    }

    /// The channel of the session with this id, if one is live.
    pub fn channel(&self, id: usize) -> (r: Option<&C>)
        requires
            self.wf(),
        ensures
            r is None <==> !self.ids().contains(id),
            r matches Some(c) ==> exists|i: int|
                0 <= i < self@.len() && self@[i].id == id && self@[i].channel == *c,
    {
        match self.position(id) {
            Some(i) => {
                assert(self.ids()[i as int] == id);
                Some(&self.sessions[i].channel)
            },
            None => {
                assert forall|i: int| 0 <= i < self.ids().len() implies self.ids()[i] != id by {
                    assert(self.ids()[i] == self@[i].id);
                }
                None
            },
        }
    }

    /// Removes the session with this id; an absent id leaves the registry as it was.
    pub fn unregister(&mut self, id: usize)
        requires
            old(self).wf(),
        ensures
            final(self).wf(),
            final(self)@ == unregistered(old(self)@, id),
            final(self).next_id_spec() == old(self).next_id_spec(),
    {
        match self.position(id) {
            Some(i) => {
                proof {
                    let s = old(self)@;
                    let k = choose|k: int| 0 <= k < s.len() && s[k].id == id;
                    if k != i as int {
                        assert(old(self).ids()[k] == id);
                        assert(old(self).ids()[i as int] == id);
                    }
                }
                let _gone = self.sessions.remove(i);
                proof {
                    let s = old(self)@;
                    let n = self@;
                    assert(n == s.remove(i as int));
                    assert forall|a: int, b: int| 0 <= a < b < self.ids().len() implies
                        self.ids()[a] < self.ids()[b] by {
                        let a0 = if a < i { a } else { a + 1 };
                        let b0 = if b < i { b } else { b + 1 };
                        assert(old(self).ids()[a0] == s[a0].id);
                        assert(old(self).ids()[b0] == s[b0].id);
                    }
                    assert forall|a: int| 0 <= a < n.len() implies 1 <= #[trigger] n[a].id
                        < self.next_id by {
                        let a0 = if a < i { a } else { a + 1 };
                        assert(n[a] == s[a0]);
                    }
                }
            },
            None => {},
        }
    }

    /// The ids of the live sessions, in order of registration.
    pub fn recipients(&self) -> (r: Vec<usize>)
        ensures
            r@ == self.ids(),
    {
        let mut r: Vec<usize> = Vec::new();
        let mut i: usize = 0;
        while i < self.sessions.len()
            invariant
                i <= self@.len(),
                r@ == session_ids(self@.subrange(0, i as int)),
            decreases self@.len() - i,
        {
            r.push(self.sessions[i].id);
            i = i + 1;
            assert(r@ =~= session_ids(self@.subrange(0, i as int)));
        }
        assert(self@.subrange(0, i as int) =~= self@);
        r
    }

    /// One copy of `msg` for every live session, in order of registration.
    pub fn broadcast(&self, msg: &ServerMessage) -> (r: Vec<Outgoing>)
        ensures
            r@.len() == self@.len(),
            forall|i: int| 0 <= i < r@.len() ==> (#[trigger] r@[i])@ == (self@[i].id, msg@),
    {
        let mut r: Vec<Outgoing> = Vec::new();
        let mut i: usize = 0;
        while i < self.sessions.len()
            invariant
                i <= self@.len(),
                r@.len() == i,
                forall|k: int| 0 <= k < i ==> (#[trigger] r@[k])@ == (self@[k].id, msg@),
            decreases self@.len() - i,
        {
            r.push(Outgoing { to: self.sessions[i].id, msg: msg.duplicate() });
            i = i + 1;
        }
        r
    }

    /// `msg` addressed to the session with this id; nothing when it is not live.
    pub fn send_to(&self, id: usize, msg: ServerMessage) -> (r: Option<Outgoing>)
        requires
            self.wf(),
        ensures
            r is Some <==> self.ids().contains(id),
            r matches Some(o) ==> o.to == id && o.msg == msg,
    {
        if self.contains(id) {
            Some(Outgoing { to: id, msg })
        } else {
            None
        }
    }
}

} // verus!
