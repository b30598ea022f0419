use game_sync::messages::{ClientMessage, Outgoing, RemoteState, ServerMessage, State, Vec2Bits};
use game_sync::registry::SessionRegistry;
use game_sync::server::{disconnect, others_of, update_messages};
use game_sync::state_table::StateTable;

fn at(x: f32, y: f32) -> Vec2Bits {
    Vec2Bits { x: x.to_bits(), y: y.to_bits() }
}

fn report(x: f32, y: f32, r: f32) -> ClientMessage {
    ClientMessage::State(State { pos: at(x, y), r: r.to_bits() })
}

#[test]
fn first_participant_is_welcomed_with_id_one() {
    let mut users: SessionRegistry<&str> = SessionRegistry::new();
    let states = StateTable::new();
    let welcome = users.register("a").unwrap();
    assert_eq!(welcome, Outgoing { to: 1, msg: ServerMessage::Welcome(1) });
    // nothing reported yet, so a tick sends no update after the welcome
    assert!(update_messages(&states, &users).is_empty());
}

#[test]
fn ids_increase_and_are_not_reused() {
    let mut users: SessionRegistry<u32> = SessionRegistry::new();
    assert_eq!(users.register(10).unwrap().to, 1);
    assert_eq!(users.register(20).unwrap().to, 2);
    users.unregister(2);
    assert_eq!(users.register(30).unwrap().to, 3);
    assert_eq!(users.recipients(), vec![1, 3]);
    assert_eq!(users.next_id(), 4);
    assert_eq!(users.channel(3), Some(&30));
    assert_eq!(users.channel(2), None);
}

#[test]
fn unregister_twice_is_unregister_once() {
    let mut once: SessionRegistry<u8> = SessionRegistry::new();
    let mut twice: SessionRegistry<u8> = SessionRegistry::new();
    for c in 0..3u8 {
        once.register(c).unwrap();
        twice.register(c).unwrap();
    }
    once.unregister(2);
    twice.unregister(2);
    twice.unregister(2);
    assert_eq!(once.recipients(), vec![1, 3]);
    assert_eq!(twice.recipients(), once.recipients());
    assert_eq!(twice.next_id(), once.next_id());
    assert!(!twice.contains(2));
}

#[test]
fn unregister_absent_id_is_a_no_op() {
    let mut users: SessionRegistry<u8> = SessionRegistry::new();
    users.register(0).unwrap();
    users.unregister(9);
    assert_eq!(users.recipients(), vec![1]);
}

#[test]
fn send_to_reaches_only_live_sessions() {
    let mut users: SessionRegistry<u8> = SessionRegistry::new();
    users.register(0).unwrap();
    assert_eq!(
        users.send_to(1, ServerMessage::GoodBye(5)),
        Some(Outgoing { to: 1, msg: ServerMessage::GoodBye(5) })
    );
    assert_eq!(users.send_to(2, ServerMessage::GoodBye(5)), None);
}

#[test]
fn broadcast_copies_message_to_every_session() {
    let mut users: SessionRegistry<u8> = SessionRegistry::new();
    users.register(0).unwrap();
    users.register(1).unwrap();
    let msg = ServerMessage::Update(vec![RemoteState { id: 1, position: at(1.0, 2.0), rotation: 0 }]);
    let out = users.broadcast(&msg);
    assert_eq!(out.len(), 2);
    assert_eq!(out[0].to, 1);
    assert_eq!(out[1].to, 2);
    assert_eq!(out[0].msg, msg);
    assert_eq!(out[1].msg, msg);
}

#[test]
fn only_reporting_participant_appears_in_updates() {
    let mut users: SessionRegistry<u8> = SessionRegistry::new();
    let mut states = StateTable::new();
    users.register(0).unwrap();
    users.register(1).unwrap();
    states.user_message(1, report(5.0, 5.0, 0.0));
    let out = update_messages(&states, &users);
    let one = RemoteState { id: 1, position: at(5.0, 5.0), rotation: 0.0f32.to_bits() };
    assert_eq!(
        out,
        vec![
            Outgoing { to: 1, msg: ServerMessage::Update(vec![]) },
            Outgoing { to: 2, msg: ServerMessage::Update(vec![one]) },
        ]
    );
}

#[test]
fn update_never_holds_recipient() {
    let mut users: SessionRegistry<u8> = SessionRegistry::new();
    let mut states = StateTable::new();
    for c in 0..4u8 {
        users.register(c).unwrap();
    }
    for id in 1..5usize {
        states.user_message(id, report(id as f32, 0.0, 1.5));
    }
    let out = update_messages(&states, &users);
    assert_eq!(out.len(), 4);
    for o in &out {
        match &o.msg {
            ServerMessage::Update(list) => {
                assert_eq!(list.len(), 3);
                assert!(list.iter().all(|s| s.id != o.to));
            }
            other => panic!("unexpected message {:?}", other),
        }
    }
}

#[test]
fn empty_table_sends_no_update() {
    let mut users: SessionRegistry<u8> = SessionRegistry::new();
    users.register(0).unwrap();
    users.register(1).unwrap();
    let states = StateTable::new();
    assert!(update_messages(&states, &users).is_empty());
}

#[test]
fn latest_report_replaces_the_entry() {
    let mut states = StateTable::new();
    states.user_message(3, report(1.0, 1.0, 0.0));
    states.user_message(4, report(2.0, 2.0, 0.0));
    states.user_message(3, report(7.0, 8.0, 0.5));
    assert_eq!(states.len(), 2);
    assert_eq!(
        states.get(3),
        Some(RemoteState { id: 3, position: at(7.0, 8.0), rotation: 0.5f32.to_bits() })
    );
    assert_eq!(states.snapshot()[0].id, 3);
    states.remove(3);
    states.remove(3);
    assert_eq!(states.get(3), None);
    assert_eq!(states.len(), 1);
}

#[test]
fn departing_participant_gets_goodbye_everywhere_and_leaves_updates() {
    let mut users: SessionRegistry<u8> = SessionRegistry::new();
    let mut states = StateTable::new();
    for c in 0..3u8 {
        users.register(c).unwrap();
    }
    for id in 1..4usize {
        states.user_message(id, report(0.0, id as f32, 0.0));
    }
    let bye = disconnect(&mut users, &mut states, 2);
    assert_eq!(
        bye,
        vec![
            Outgoing { to: 1, msg: ServerMessage::GoodBye(2) },
            Outgoing { to: 3, msg: ServerMessage::GoodBye(2) },
        ]
    );
    let out = update_messages(&states, &users);
    assert_eq!(out.len(), 2);
    for o in &out {
        match &o.msg {
            ServerMessage::Update(list) => assert!(list.iter().all(|s| s.id != 2)),
            other => panic!("unexpected message {:?}", other),
        }
    }
}

#[test]
fn others_of_keeps_order() {
    let v: Vec<RemoteState> = (1..5usize)
        .map(|id| RemoteState { id, position: at(0.0, 0.0), rotation: 0 })
        .collect();
    let ids: Vec<usize> = others_of(&v, 2).iter().map(|s| s.id).collect();
    assert_eq!(ids, vec![1, 3, 4]);
}

#[test]
fn duplicate_keeps_contents() {
    let m = ServerMessage::Update(vec![RemoteState { id: 9, position: at(3.0, 4.0), rotation: 7 }]);
    assert_eq!(m.duplicate(), m);
    assert_eq!(ServerMessage::Welcome(4).duplicate(), ServerMessage::Welcome(4));
}
