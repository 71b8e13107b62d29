use chat_relay::auth::{refuse, AuthError, Identity, UNAUTHORIZED};
use chat_relay::lifecycle::{advance, Effect, Event, Phase, Pump};
use chat_relay::pump::{ChatRecord, InboundStep, Incoming, OutboundStep, Outgoing};
use chat_relay::registry::RoomRegistry;
use chat_relay::session::Session;
use tokio::sync::broadcast::error::TryRecvError;

fn identity(name: &str, id: i32) -> Identity {
    Identity { username: name.to_string(), user_id: id, expiry: 4_102_444_800 }
}

fn joined(registry: &mut RoomRegistry, name: &str, id: i32, room: &str) -> Session {
    let mut session = Session::new(room.to_string());
    assert!(session.authenticate(Ok(identity(name, id))).is_none());
    let handle = registry.get_or_create(room);
    assert!(session.join(handle).is_some());
    session
}

#[test]
fn scenario_alice_joins_a_room_that_did_not_exist() {
    let mut registry = RoomRegistry::new();
    assert!(registry.lookup("general").is_none());
    let mut alice = Session::new("general".to_string());
    assert_eq!(alice.current_phase(), Phase::Connecting);
    assert!(alice.authenticate(Ok(identity("alice", 1))).is_none());
    assert_eq!(alice.current_phase(), Phase::Authenticated);
    let handle = registry.get_or_create("general");
    assert_eq!(registry.list_rooms(), vec!["general".to_string()]);
    let sent = alice.join(handle).unwrap();
    assert_eq!(sent.line, "[alice] has joined the room.");
    assert_eq!(sent.receivers, 1);
    assert_eq!(alice.current_phase(), Phase::Joined);
    let (_inbound, mut outbound) = alice.start().unwrap();
    assert_eq!(alice.current_phase(), Phase::Streaming);
    assert_eq!(outbound.subscriber.try_recv().unwrap(), "[alice] has joined the room.");
    assert_eq!(outbound.subscriber.try_recv(), Err(TryRecvError::Empty));
}

#[test]
fn scenario_bob_joins_after_alice() {
    let mut registry = RoomRegistry::new();
    let mut alice = joined(&mut registry, "alice", 1, "general");
    let (_alice_in, mut alice_out) = alice.start().unwrap();
    assert_eq!(alice_out.subscriber.try_recv().unwrap(), "[alice] has joined the room.");
    let mut bob = Session::new("general".to_string());
    assert!(bob.authenticate(Ok(identity("bob", 2))).is_none());
    let sent = bob.join(registry.get_or_create("general")).unwrap();
    assert_eq!(sent.line, "[bob] has joined the room.");
    assert_eq!(sent.receivers, 2);
    let (_bob_in, mut bob_out) = bob.start().unwrap();
    assert_eq!(alice_out.subscriber.try_recv().unwrap(), "[bob] has joined the room.");
    assert_eq!(bob_out.subscriber.try_recv().unwrap(), "[bob] has joined the room.");
    assert_eq!(alice_out.subscriber.try_recv(), Err(TryRecvError::Empty));
    assert_eq!(bob_out.subscriber.try_recv(), Err(TryRecvError::Empty));
    assert_eq!(registry.list_rooms().len(), 1);
}

#[test]
fn scenario_alice_says_hi() {
    let mut registry = RoomRegistry::new();
    let mut alice = joined(&mut registry, "alice", 1, "general");
    let mut bob = joined(&mut registry, "bob", 2, "general");
    let (alice_in, mut alice_out) = alice.start().unwrap();
    let (_bob_in, mut bob_out) = bob.start().unwrap();
    while alice_out.subscriber.try_recv().is_ok() {}
    while bob_out.subscriber.try_recv().is_ok() {}
    let mut persisted = Vec::new();
    match alice_in.on_read(Incoming::Text("hi".to_string())) {
        InboundStep::Relay(record) => {
            persisted.push((
                record.user_id,
                record.username.clone(),
                record.room.clone(),
                record.text.clone(),
            ));
            let sent = alice_in.publish(&record, true);
            assert_eq!(sent.line, "alice: hi");
            assert_eq!(sent.receivers, 2);
        }
        other => panic!("a text frame was not relayed: {:?}", other),
    }
    assert_eq!(persisted, vec![(1, "alice".to_string(), "general".to_string(), "hi".to_string())]);
    assert_eq!(alice_out.subscriber.try_recv().unwrap(), "alice: hi");
    assert_eq!(bob_out.subscriber.try_recv().unwrap(), "alice: hi");
    assert_eq!(alice_out.subscriber.try_recv(), Err(TryRecvError::Empty));
    assert_eq!(bob_out.subscriber.try_recv(), Err(TryRecvError::Empty));
}

#[test]
fn scenario_bob_goes_away() {
    let mut registry = RoomRegistry::new();
    let mut alice = joined(&mut registry, "alice", 1, "general");
    let mut bob = joined(&mut registry, "bob", 2, "general");
    let (_alice_in, mut alice_out) = alice.start().unwrap();
    let (bob_in, bob_out) = bob.start().unwrap();
    while alice_out.subscriber.try_recv().is_ok() {}
    assert!(matches!(bob_in.on_read(Incoming::Closed), InboundStep::Stop));
    assert_eq!(bob.pump_stopped(Pump::Inbound), Some(Pump::Outbound));
    assert_eq!(bob.current_phase(), Phase::Closing);
    drop(bob_in);
    drop(bob_out);
    let sent = bob.leave(registry.lookup("general")).unwrap();
    assert_eq!(sent.line, "[bob] has left the room.");
    assert_eq!(sent.receivers, 1);
    assert_eq!(bob.current_phase(), Phase::Closed);
    assert_eq!(alice_out.subscriber.try_recv().unwrap(), "[bob] has left the room.");
    assert_eq!(alice_out.subscriber.try_recv(), Err(TryRecvError::Empty));
    assert!(bob.leave(registry.lookup("general")).is_none());
    assert_eq!(alice_out.subscriber.try_recv(), Err(TryRecvError::Empty));
    assert_eq!(bob.current_phase(), Phase::Closed);
}

#[test]
fn scenario_an_expired_token_is_turned_away() {
    let mut registry = RoomRegistry::new();
    let watcher = registry.get_or_create("general");
    let mut watching = watcher.subscribe();
    let mut session = Session::new("general".to_string());
    let refusal = session.authenticate(Err(AuthError::Expired)).unwrap();
    assert_eq!(refusal.status, 401);
    assert_eq!(refusal.reason, AuthError::Expired);
    assert_eq!(refusal.message, "Invalid token");
    assert_eq!(session.current_phase(), Phase::Closed);
    assert!(session.username().is_none());
    assert!(session.join(registry.get_or_create("general")).is_none());
    assert!(session.start().is_none());
    assert!(session.pump_stopped(Pump::Inbound).is_none());
    assert!(session.leave(registry.lookup("general")).is_none());
    assert_eq!(watcher.receiver_count(), 1);
    assert_eq!(watching.try_recv(), Err(TryRecvError::Empty));
}

#[test]
fn replaying_the_first_scenario_makes_no_second_room() {
    let mut registry = RoomRegistry::new();
    let mut first = joined(&mut registry, "alice", 1, "general");
    let mut second = joined(&mut registry, "alice", 1, "general");
    assert_eq!(registry.list_rooms(), vec!["general".to_string()]);
    let (_first_in, mut first_out) = first.start().unwrap();
    let (_second_in, mut second_out) = second.start().unwrap();
    assert!(first_out.subscriber.same_channel(&second_out.subscriber));
    assert_eq!(first_out.subscriber.try_recv().unwrap(), "[alice] has joined the room.");
    assert_eq!(first_out.subscriber.try_recv().unwrap(), "[alice] has joined the room.");
    assert_eq!(second_out.subscriber.try_recv().unwrap(), "[alice] has joined the room.");
    assert_eq!(second_out.subscriber.try_recv(), Err(TryRecvError::Empty));
}

#[test]
fn a_session_sees_its_own_join_before_its_own_chat() {
    let mut registry = RoomRegistry::new();
    let mut alice = joined(&mut registry, "alice", 1, "general");
    let (inbound, mut outbound) = alice.start().unwrap();
    for text in ["one", "two"].iter() {
        match inbound.on_read(Incoming::Text(text.to_string())) {
            InboundStep::Relay(record) => {
                inbound.publish(&record, false);
            }
            other => panic!("a text frame was not relayed: {:?}", other),
        }
    }
    assert_eq!(outbound.subscriber.try_recv().unwrap(), "[alice] has joined the room.");
    assert_eq!(outbound.subscriber.try_recv().unwrap(), "alice: one");
    assert_eq!(outbound.subscriber.try_recv().unwrap(), "alice: two");
    assert_eq!(outbound.subscriber.try_recv(), Err(TryRecvError::Empty));
}

#[test]
fn chat_goes_out_whether_or_not_it_was_stored() {
    let mut registry = RoomRegistry::new();
    let mut alice = joined(&mut registry, "alice", 1, "general");
    let (inbound, mut outbound) = alice.start().unwrap();
    while outbound.subscriber.try_recv().is_ok() {}
    let record = match inbound.on_read(Incoming::Text("hi".to_string())) {
        InboundStep::Relay(record) => record,
        other => panic!("a text frame was not relayed: {:?}", other),
    };
    assert_eq!(inbound.publish(&record, false).line, "alice: hi");
    assert_eq!(inbound.publish(&record, true).line, "alice: hi");
    assert_eq!(outbound.subscriber.try_recv().unwrap(), "alice: hi");
    assert_eq!(outbound.subscriber.try_recv().unwrap(), "alice: hi");
}

#[test]
fn chat_goes_out_under_the_name_of_the_session() {
    let mut registry = RoomRegistry::new();
    let mut alice = joined(&mut registry, "alice", 1, "general");
    let (inbound, mut outbound) = alice.start().unwrap();
    while outbound.subscriber.try_recv().is_ok() {}
    let forged = ChatRecord {
        user_id: 2,
        username: "bob".to_string(),
        room: "general".to_string(),
        text: "hello".to_string(),
    };
    assert_eq!(inbound.publish(&forged, true).line, "alice: hello");
    assert_eq!(outbound.subscriber.try_recv().unwrap(), "alice: hello");
}

#[test]
fn part_is_skipped_when_the_room_is_gone() {
    let mut registry = RoomRegistry::new();
    let mut alice = joined(&mut registry, "alice", 1, "general");
    let (_inbound, mut outbound) = alice.start().unwrap();
    while outbound.subscriber.try_recv().is_ok() {}
    assert_eq!(alice.pump_stopped(Pump::Outbound), Some(Pump::Inbound));
    assert!(alice.leave(None).is_none());
    assert_eq!(alice.current_phase(), Phase::Closed);
    assert_eq!(outbound.subscriber.try_recv(), Err(TryRecvError::Empty));
}

#[test]
fn part_is_not_sent_while_a_pump_still_runs() {
    let mut registry = RoomRegistry::new();
    let mut alice = joined(&mut registry, "alice", 1, "general");
    assert!(alice.leave(registry.lookup("general")).is_none());
    assert_eq!(alice.current_phase(), Phase::Joined);
    let (_inbound, mut outbound) = alice.start().unwrap();
    assert!(alice.leave(registry.lookup("general")).is_none());
    assert_eq!(alice.current_phase(), Phase::Streaming);
    assert_eq!(outbound.subscriber.try_recv().unwrap(), "[alice] has joined the room.");
    assert_eq!(outbound.subscriber.try_recv(), Err(TryRecvError::Empty));
}

#[test]
fn methods_called_out_of_turn_change_nothing() {
    let mut registry = RoomRegistry::new();
    let mut session = Session::new("general".to_string());
    assert!(session.join(registry.get_or_create("general")).is_none());
    assert!(session.start().is_none());
    assert!(session.pump_stopped(Pump::Inbound).is_none());
    assert_eq!(session.current_phase(), Phase::Connecting);
    assert!(session.authenticate(Ok(identity("alice", 1))).is_none());
    assert!(session.authenticate(Err(AuthError::Missing)).is_none());
    assert_eq!(session.current_phase(), Phase::Authenticated);
    assert_eq!(session.username().unwrap(), "alice");
    assert_eq!(session.room_name(), "general");
    assert!(session.join(registry.get_or_create("general")).is_some());
    assert!(session.join(registry.get_or_create("general")).is_none());
    assert!(session.start().is_some());
    assert!(session.start().is_none());
    assert_eq!(session.pump_stopped(Pump::Inbound), Some(Pump::Outbound));
    assert!(session.pump_stopped(Pump::Outbound).is_none());
    assert_eq!(session.current_phase(), Phase::Closing);
}

#[test]
fn refusals_carry_the_unauthorized_status() {
    assert_eq!(UNAUTHORIZED, 401);
    let missing = refuse(AuthError::Missing);
    assert_eq!(missing.status, 401);
    assert_eq!(missing.reason, AuthError::Missing);
    assert_eq!(missing.message, "Token not provided");
    for reason in [AuthError::Malformed, AuthError::Expired, AuthError::BadSignature] {
        let refusal = refuse(reason);
        assert_eq!(refusal.status, 401);
        assert_eq!(refusal.reason, reason);
        assert_eq!(refusal.message, "Invalid token");
    }
}

#[test]
fn identity_duplicate_keeps_every_field() {
    let who = identity("alice", 7);
    let copy = who.duplicate();
    assert_eq!(copy.username, "alice");
    assert_eq!(copy.user_id, 7);
    assert_eq!(copy.expiry, who.expiry);
}

#[test]
fn the_lifecycle_takes_one_path() {
    let path = [
        (Phase::Connecting, Event::Verdict { accepted: true }, Phase::Authenticated, Effect::AcceptUpgrade),
        (Phase::Connecting, Event::Verdict { accepted: false }, Phase::Closed, Effect::RefuseUpgrade),
        (Phase::Authenticated, Event::RoomAcquired, Phase::Joined, Effect::SubscribeThenAnnounce),
        (Phase::Joined, Event::Start, Phase::Streaming, Effect::RunPumps),
        (Phase::Streaming, Event::TextFrame, Phase::Streaming, Effect::PersistThenBroadcast),
        (Phase::Streaming, Event::OtherFrame, Phase::Streaming, Effect::Nothing),
        (Phase::Streaming, Event::Delivered, Phase::Streaming, Effect::Forward),
        (Phase::Streaming, Event::Lagged, Phase::Streaming, Effect::Nothing),
        (
            Phase::Streaming,
            Event::PumpStopped { pump: Pump::Inbound },
            Phase::Closing,
            Effect::Cancel { pump: Pump::Outbound },
        ),
        (
            Phase::Streaming,
            Event::PumpStopped { pump: Pump::Outbound },
            Phase::Closing,
            Effect::Cancel { pump: Pump::Inbound },
        ),
        (Phase::Closing, Event::RoomChecked { exists: true }, Phase::Closed, Effect::AnnouncePart),
        (Phase::Closing, Event::RoomChecked { exists: false }, Phase::Closed, Effect::Nothing),
    ];
    for (phase, event, next, effect) in path {
        assert_eq!(advance(phase, event), (next, effect));
    }
}

#[test]
fn events_out_of_place_are_ignored() {
    let phases = [
        Phase::Connecting,
        Phase::Authenticated,
        Phase::Joined,
        Phase::Streaming,
        Phase::Closing,
        Phase::Closed,
    ];
    let events = [
        Event::Verdict { accepted: true },
        Event::Verdict { accepted: false },
        Event::RoomAcquired,
        Event::Start,
        Event::TextFrame,
        Event::OtherFrame,
        Event::Delivered,
        Event::Lagged,
        Event::PumpStopped { pump: Pump::Inbound },
        Event::PumpStopped { pump: Pump::Outbound },
        Event::RoomChecked { exists: true },
        Event::RoomChecked { exists: false },
    ];
    let mut moves = 0;
    let mut parts = 0;
    for phase in phases {
        for event in events {
            let (next, effect) = advance(phase, event);
            if next != phase {
                moves += 1;
            } else if phase != Phase::Streaming {
                assert_eq!(effect, Effect::Nothing);
            }
            if effect == Effect::AnnouncePart {
                parts += 1;
                assert_eq!(phase, Phase::Closing);
            }
            if phase == Phase::Closed {
                assert_eq!((next, effect), (Phase::Closed, Effect::Nothing));
            }
        }
    }
    assert_eq!(moves, 8);
    assert_eq!(parts, 1);
}

#[test]
fn a_trace_sends_one_join_and_one_part_in_order() {
    let events = [
        Event::TextFrame,
        Event::Verdict { accepted: true },
        Event::RoomChecked { exists: true },
        Event::RoomAcquired,
        Event::RoomAcquired,
        Event::TextFrame,
        Event::Start,
        Event::TextFrame,
        Event::Delivered,
        Event::PumpStopped { pump: Pump::Outbound },
        Event::TextFrame,
        Event::Delivered,
        Event::PumpStopped { pump: Pump::Inbound },
        Event::RoomChecked { exists: true },
        Event::RoomChecked { exists: true },
        Event::Verdict { accepted: true },
    ];
    let mut phase = Phase::Connecting;
    let mut effects = Vec::new();
    for event in events {
        let (next, effect) = advance(phase, event);
        phase = next;
        if effect != Effect::Nothing {
            effects.push(effect);
        }
    }
    assert_eq!(phase, Phase::Closed);
    assert_eq!(
        effects,
        vec![
            Effect::AcceptUpgrade,
            Effect::SubscribeThenAnnounce,
            Effect::RunPumps,
            Effect::PersistThenBroadcast,
            Effect::Forward,
            Effect::Cancel { pump: Pump::Inbound },
            Effect::AnnouncePart,
        ]
    );
}

#[test]
fn pump_sibling_is_the_other_direction() {
    assert_eq!(Pump::Inbound.other(), Pump::Outbound);
    assert_eq!(Pump::Outbound.other(), Pump::Inbound);
}

#[test]
fn inbound_pump_relays_text_and_ignores_the_rest() {
    let mut registry = RoomRegistry::new();
    let mut alice = joined(&mut registry, "alice", 42, "general");
    let (inbound, _outbound) = alice.start().unwrap();
    match inbound.on_read(Incoming::Text("hello there".to_string())) {
        InboundStep::Relay(record) => {
            assert_eq!(record.user_id, 42);
            assert_eq!(record.username, "alice");
            assert_eq!(record.room, "general");
            assert_eq!(record.text, "hello there");
        }
        other => panic!("a text frame was not relayed: {:?}", other),
    }
    assert!(matches!(inbound.on_read(Incoming::Text(String::new())), InboundStep::Relay(_)));
    assert!(matches!(inbound.on_read(Incoming::Other), InboundStep::Ignore));
    assert!(matches!(inbound.on_read(Incoming::Closed), InboundStep::Stop));
    assert!(matches!(inbound.on_read(Incoming::Failed), InboundStep::Stop));
}

#[test]
fn outbound_pump_forwards_lines_and_survives_a_lag() {
    let mut registry = RoomRegistry::new();
    let mut alice = joined(&mut registry, "alice", 1, "general");
    let (_inbound, mut outbound) = alice.start().unwrap();
    let line = outbound.subscriber.try_recv().unwrap();
    match outbound.on_event(Outgoing::Message(line)) {
        OutboundStep::Forward(text) => assert_eq!(text, "[alice] has joined the room."),
        other => panic!("a line was not forwarded: {:?}", other),
    }
    assert!(matches!(outbound.on_event(Outgoing::Lagged(3)), OutboundStep::Skip));
    assert!(matches!(outbound.on_event(Outgoing::ChannelClosed), OutboundStep::Stop));
    assert!(matches!(outbound.on_event(Outgoing::WriteFailed), OutboundStep::Stop));
}
