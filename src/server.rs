use vstd::prelude::*;
use crate::messages::{MessageView, Outgoing, RemoteState, ServerMessage};
use crate::registry::{session_ids, strictly_increasing, unregistered, Session, SessionRegistry};
use crate::state_table::{unique_ids, without_id, StateTable};

verus! {

/// The entries whose id differs from `id`, in their original order.
pub open spec fn others(s: Seq<RemoteState>, id: usize) -> Seq<RemoteState>
    decreases s.len(),
{
    if s.len() == 0 {
        Seq::empty()
    } else {
        let rest = others(s.drop_last(), id);
        if s.last().id == id {
            rest
        } else {
            rest.push(s.last())
        }
    }
}

/// What one tick sends, as (recipient, message) pairs in registry order: nothing
/// when the snapshot is empty, else to each recipient every other entry.
pub open spec fn tick_output(states: Seq<RemoteState>, ids: Seq<usize>) -> Seq<(usize, MessageView)> {
    if states.len() == 0 {
        Seq::empty()
    } else {
        ids.map_values(|id: usize| (id, MessageView::Update(others(states, id))))
    }
}

/// The pairs that a list of outgoing messages stands for.
pub open spec fn envelopes(r: Seq<Outgoing>) -> Seq<(usize, MessageView)> {
    r.map_values(|o: Outgoing| o@)
}

/// What leaving sends: a goodbye for `id` to each remaining session, in order.
pub open spec fn goodbyes(ids: Seq<usize>, id: usize) -> Seq<(usize, MessageView)> {
    ids.map_values(|to: usize| (to, MessageView::GoodBye(id)))
}

/// The entries of `states` that do not carry `id`, in order.
pub fn others_of(states: &Vec<RemoteState>, id: usize) -> (r: Vec<RemoteState>)
    ensures
        r@ == others(states@, id),
{
    let mut r: Vec<RemoteState> = Vec::new();
    let mut i: usize = 0;
    while i < states.len()
        invariant
            i <= states@.len(),
            r@ == others(states@.subrange(0, i as int), id),
        decreases states@.len() - i,
    {
        let st = states[i];
        proof {
            let next = states@.subrange(0, i + 1);
            assert(next.drop_last() =~= states@.subrange(0, i as int));
            assert(next.last() == st);
        }
        if st.id != id {
            r.push(st);
        }
        i = i + 1;
    }
    assert(states@.subrange(0, i as int) =~= states@);
    r
}

/// The updates of one broadcast tick: from one snapshot of the table, each
/// registered session gets every entry but its own. An empty table sends nothing.
pub fn update_messages<C>(states: &StateTable, users: &SessionRegistry<C>) -> (r: Vec<Outgoing>)
    ensures
        envelopes(r@) == tick_output(states@, users.ids()),
{
    let snapshot = states.snapshot();
    let mut r: Vec<Outgoing> = Vec::new();
    if snapshot.len() == 0 {
        assert(envelopes(r@) =~= tick_output(states@, users.ids()));
        return r;
    }
    let ids = users.recipients();
    assert(envelopes(r@) =~= tick_output(states@, ids@.subrange(0, 0)));
    let mut i: usize = 0;
    while i < ids.len()
        invariant
            snapshot@ == states@,
            snapshot@.len() > 0,
            ids@ == users.ids(),
            i <= ids@.len(),
            r@.len() == i,
            envelopes(r@) == tick_output(states@, ids@.subrange(0, i as int)),
        decreases ids@.len() - i,
    {
        let to = ids[i];
        let list = others_of(&snapshot, to);
        let ghost before = r@;
        r.push(Outgoing { to, msg: ServerMessage::Update(list) });
        proof {
            let t0 = tick_output(states@, ids@.subrange(0, i as int));
            let t1 = tick_output(states@, ids@.subrange(0, i + 1));
            assert(envelopes(before) == t0);
            assert forall|k: int| 0 <= k < i + 1 implies envelopes(r@)[k] == t1[k] by {
                if k < i {
                    assert(r@[k] == before[k]);
                    assert(envelopes(before)[k] == t0[k]);
                }
            }
            assert(envelopes(r@) =~= t1);
        }
        i = i + 1;
    }
    assert(ids@.subrange(0, i as int) =~= ids@);
    r
}

/// Tears down the session `id` once its connection has ended: the session and
/// its state entry go, and every remaining session is told goodbye.
pub fn disconnect<C>(users: &mut SessionRegistry<C>, states: &mut StateTable, id: usize) -> (r: Vec<
    Outgoing,
>)
    requires
        old(users).wf(),
        old(states).wf(),
    ensures
        final(users).wf(),
        final(states).wf(),
        final(users)@ == unregistered(old(users)@, id),
        final(users).next_id_spec() == old(users).next_id_spec(),
        final(states)@ == without_id(old(states)@, id),
        envelopes(r@) == goodbyes(final(users).ids(), id),
{
    users.unregister(id);
    states.remove(id);
    let r = users.broadcast(&ServerMessage::GoodBye(id));
    assert(envelopes(r@) =~= goodbyes(users.ids(), id));
    r
}

proof fn lemma_others_excludes(s: Seq<RemoteState>, id: usize)
    ensures
        forall|j: int| 0 <= j < others(s, id).len() ==> (#[trigger] others(s, id)[j]).id != id,
    decreases s.len(),
{
    if s.len() > 0 {
        lemma_others_excludes(s.drop_last(), id);
        let rest = others(s.drop_last(), id);
        assert forall|j: int| 0 <= j < others(s, id).len() implies (#[trigger] others(s, id)[j]).id
            != id by {
            if j < rest.len() {
                assert(others(s, id)[j] == rest[j]);
            }
        }
    }
}

proof fn lemma_others_keeps(s: Seq<RemoteState>, id: usize, st: RemoteState)
    requires
        s.contains(st),
        st.id != id,
    ensures
        others(s, id).contains(st),
    decreases s.len(),
{
    if s.last() != st {
        let k = choose|k: int| 0 <= k < s.len() && s[k] == st;
        assert(s.drop_last()[k] == st);
        lemma_others_keeps(s.drop_last(), id, st);
        let o = others(s.drop_last(), id);
        let j = choose|j: int| 0 <= j < o.len() && o[j] == st;
        if s.last().id != id {
            assert(others(s, id)[j] == st);
        }
    } else {
        assert(others(s, id).last() == st);
    }
}

/// An update never shows its recipient to itself: no entry of the list sent
/// to a session carries that session's id.
pub proof fn lemma_update_excludes_recipient(states: Seq<RemoteState>, ids: Seq<usize>, k: int, j: int)
    requires
        0 <= k < tick_output(states, ids).len(),
    ensures
        tick_output(states, ids)[k].1 is Update,
        0 <= j < tick_output(states, ids)[k].1->Update_0.len() ==>
            tick_output(states, ids)[k].1->Update_0[j].id != tick_output(states, ids)[k].0,
{
    lemma_others_excludes(states, ids[k]);
}

/// An update shows every other participant: each entry of the snapshot whose
/// id is not the recipient's appears in the list sent to it.
pub proof fn lemma_update_includes_others(states: Seq<RemoteState>, ids: Seq<usize>, k: int, st: RemoteState)
    requires
        0 <= k < tick_output(states, ids).len(),
        states.contains(st),
        st.id != ids[k],
    ensures
        tick_output(states, ids)[k].1->Update_0.contains(st),
{
    lemma_others_keeps(states, ids[k], st);
}

/// A tick over an empty state table sends no update at all.
pub proof fn lemma_empty_table_sends_nothing(states: Seq<RemoteState>, ids: Seq<usize>)
    requires
        states.len() == 0,
    ensures
        tick_output(states, ids).len() == 0,
{
}

/// A well-formed registry never holds two sessions with the same id.
pub proof fn lemma_registry_ids_distinct<C>(users: SessionRegistry<C>, i: int, j: int)
    requires
        users.wf(),
        0 <= i < users@.len(),
        0 <= j < users@.len(),
        i != j,
    ensures
        users@[i].id != users@[j].id,
{
    assert(users.ids()[i] == users@[i].id);
    assert(users.ids()[j] == users@[j].id);
}

/// Once a participant's entry is removed, no entry of the table carries its id,
/// so no later update can show it.
pub proof fn lemma_removed_id_absent(s: Seq<RemoteState>, id: usize)
    requires
        unique_ids(s),
    ensures
        forall|i: int| 0 <= i < without_id(s, id).len() ==> (#[trigger] without_id(s, id)[i]).id != id,
{
    if exists|i: int| 0 <= i < s.len() && s[i].id == id {
        let i = choose|i: int| 0 <= i < s.len() && s[i].id == id;
        let t = s.remove(i);
        assert forall|a: int| 0 <= a < t.len() implies t[a].id != id by {
            let a0 = if a < i { a } else { a + 1 };
            assert(t[a] == s[a0]);
        }
    }
}

/// Unregistering an id a second time changes nothing: the first call already
/// removed the only session that carried it.
pub proof fn lemma_unregister_idempotent<C>(s: Seq<Session<C>>, id: usize)
    requires
        strictly_increasing(session_ids(s)),
    ensures
        unregistered(unregistered(s, id), id) == unregistered(s, id),
{
    if exists|i: int| 0 <= i < s.len() && s[i].id == id {
        let i = choose|i: int| 0 <= i < s.len() && s[i].id == id;
        let t = s.remove(i);
        assert forall|a: int| 0 <= a < t.len() implies t[a].id != id by {
            let a0 = if a < i { a } else { a + 1 };
            assert(session_ids(s)[a0] == s[a0].id);
            assert(session_ids(s)[i] == s[i].id);
        }
    }
}

} // verus!
