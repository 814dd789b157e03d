use std::collections::HashMap;

use modcraft::protocol::{Channel, ClientMessage, ServerMessage};
use modcraft::registry::{ServerAction, ServerWarning, SessionRegistry};

fn sorted(ids: &[u64]) -> Vec<u64> {
    let mut v = ids.to_vec();
    v.sort();
    v
}

fn join(r: &mut SessionRegistry, id: u64, name: &str) -> Vec<ServerAction> {
    r.handle_client_message(id, ClientMessage::Join { name: name.to_string() })
}

#[test]
fn host_disconnect_stops_everyone() {
    let mut r = SessionRegistry::new_embedded();
    join(&mut r, 1, "alice");
    join(&mut r, 2, "bob");
    join(&mut r, 3, "carol");
    assert_eq!(r.host(), Some(1));

    let acts = r.handle_client_message(1, ClientMessage::Disconnect {});
    assert_eq!(acts.len(), 5);
    assert_eq!(acts[0], ServerAction::CloseConnection { client_id: 1 });
    match &acts[1] {
        ServerAction::Broadcast { recipients, message } => {
            assert_eq!(sorted(recipients), vec![2, 3]);
            assert_eq!(*message, ServerMessage::ServerStopping {});
        }
        other => panic!("expected a broadcast, got {:?}", other),
    }
    let mut closed = Vec::new();
    for a in &acts[2..4] {
        match a {
            ServerAction::CloseConnection { client_id } => closed.push(*client_id),
            other => panic!("expected a close, got {:?}", other),
        }
    }
    assert_eq!(sorted(&closed), vec![2, 3]);
    assert_eq!(acts[4], ServerAction::StopEndpoint);
    for a in &acts {
        if let ServerAction::Broadcast { message, .. } = a {
            assert!(!matches!(message, ServerMessage::ClientDisconnected { .. }));
        }
    }
    assert_eq!(r.len(), 0);
    assert!(r.is_terminated());
    assert_eq!(r.host(), None);
}

#[test]
fn host_transport_loss_stops_everyone() {
    let mut r = SessionRegistry::new_embedded();
    join(&mut r, 10, "host");
    join(&mut r, 11, "guest");
    let acts = r.on_transport_lost(10);
    assert_eq!(acts.len(), 3);
    assert_eq!(
        acts[0],
        ServerAction::Broadcast { recipients: vec![11], message: ServerMessage::ServerStopping {} }
    );
    assert_eq!(acts[1], ServerAction::CloseConnection { client_id: 11 });
    assert_eq!(acts[2], ServerAction::StopEndpoint);
    assert_eq!(r.len(), 0);
    assert!(r.is_terminated());
}

#[test]
fn second_join_is_ignored() {
    let mut r = SessionRegistry::new();
    join(&mut r, 7, "first");
    let acts = join(&mut r, 7, "second");
    assert_eq!(acts, vec![ServerAction::Warn(ServerWarning::DuplicateJoin { client_id: 7 })]);
    assert_eq!(r.len(), 1);
    assert_eq!(r.username(7), Some("first".to_string()));
}

#[test]
fn join_sends_snapshot_then_announces() {
    let mut r = SessionRegistry::new();
    join(&mut r, 1, "alice");
    let acts = join(&mut r, 2, "bob");
    let mut expected = HashMap::new();
    expected.insert(1, "alice".to_string());
    expected.insert(2, "bob".to_string());
    assert_eq!(acts.len(), 2);
    assert_eq!(
        acts[0],
        ServerAction::Send {
            to: 2,
            message: ServerMessage::InitClient { client_id: 2, usernames: expected },
        }
    );
    match &acts[1] {
        ServerAction::Broadcast { recipients, message } => {
            assert_eq!(sorted(recipients), vec![1, 2]);
            assert_eq!(
                *message,
                ServerMessage::ClientConnected { client_id: 2, username: "bob".to_string() }
            );
        }
        other => panic!("expected a broadcast, got {:?}", other),
    }
}

#[test]
fn first_join_gets_own_snapshot() {
    let mut r = SessionRegistry::new();
    let acts = join(&mut r, 4, "solo");
    let mut expected = HashMap::new();
    expected.insert(4, "solo".to_string());
    assert_eq!(
        acts,
        vec![
            ServerAction::Send {
                to: 4,
                message: ServerMessage::InitClient { client_id: 4, usernames: expected },
            },
            ServerAction::Broadcast {
                recipients: vec![4],
                message: ServerMessage::ClientConnected { client_id: 4, username: "solo".to_string() },
            },
        ]
    );
}

#[test]
fn guest_departure_tells_the_others_once() {
    let mut r = SessionRegistry::new_embedded();
    join(&mut r, 1, "alice");
    join(&mut r, 2, "bob");
    join(&mut r, 3, "carol");
    let acts = r.handle_departure(2);
    assert_eq!(acts.len(), 1);
    match &acts[0] {
        ServerAction::Broadcast { recipients, message } => {
            assert_eq!(sorted(recipients), vec![1, 3]);
            assert_eq!(*message, ServerMessage::ClientDisconnected { client_id: 2 });
        }
        other => panic!("expected a broadcast, got {:?}", other),
    }
    assert_eq!(r.len(), 2);
    assert!(!r.is_terminated());
    assert_eq!(r.username(1), Some("alice".to_string()));
    assert_eq!(r.username(3), Some("carol".to_string()));
    assert_eq!(r.username(2), None);
    assert_eq!(r.host(), Some(1));
}

#[test]
fn guest_disconnect_request_closes_then_departs() {
    let mut r = SessionRegistry::new();
    join(&mut r, 1, "alice");
    join(&mut r, 2, "bob");
    let acts = r.on_disconnect_request(2);
    assert_eq!(
        acts,
        vec![
            ServerAction::CloseConnection { client_id: 2 },
            ServerAction::Broadcast {
                recipients: vec![1],
                message: ServerMessage::ClientDisconnected { client_id: 2 },
            },
        ]
    );
}

#[test]
fn unknown_departure_is_reported() {
    let mut r = SessionRegistry::new();
    join(&mut r, 1, "alice");
    let acts = r.on_transport_lost(99);
    assert_eq!(acts, vec![ServerAction::Warn(ServerWarning::UnknownDeparture { client_id: 99 })]);
    assert_eq!(r.len(), 1);
}

#[test]
fn late_disconnect_is_closed_and_reported() {
    let mut r = SessionRegistry::new();
    let acts = r.handle_client_message(5, ClientMessage::Disconnect {});
    assert_eq!(
        acts,
        vec![
            ServerAction::CloseConnection { client_id: 5 },
            ServerAction::Warn(ServerWarning::UnknownDeparture { client_id: 5 }),
        ]
    );
}

#[test]
fn chat_reaches_every_connection_once() {
    let mut r = SessionRegistry::new();
    join(&mut r, 1, "alice");
    join(&mut r, 2, "bob");
    join(&mut r, 3, "carol");
    let acts = r.handle_client_message(2, ClientMessage::ChatMessage { message: "hi".to_string() });
    assert_eq!(acts.len(), 1);
    match &acts[0] {
        ServerAction::Broadcast { recipients, message } => {
            assert_eq!(recipients.len(), 3);
            assert_eq!(sorted(recipients), vec![1, 2, 3]);
            assert_eq!(
                *message,
                ServerMessage::ChatMessage { client_id: 2, message: "hi".to_string() }
            );
            assert_eq!(message.channel(), Channel::UnorderedReliable);
        }
        other => panic!("expected a broadcast, got {:?}", other),
    }
}

#[test]
fn chat_with_nobody_joined_reaches_nobody() {
    let r = SessionRegistry::new();
    let acts = r.on_chat(1, "anyone?".to_string());
    assert_eq!(
        acts,
        vec![ServerAction::Broadcast {
            recipients: vec![],
            message: ServerMessage::ChatMessage { client_id: 1, message: "anyone?".to_string() },
        }]
    );
}

#[test]
fn dedicated_server_has_no_host() {
    let mut r = SessionRegistry::new();
    join(&mut r, 1, "alice");
    join(&mut r, 2, "bob");
    assert_eq!(r.host(), None);
    let acts = r.handle_departure(1);
    assert_eq!(
        acts,
        vec![ServerAction::Broadcast {
            recipients: vec![2],
            message: ServerMessage::ClientDisconnected { client_id: 1 },
        }]
    );
    assert!(!r.is_terminated());
}

#[test]
fn shutdown_stops_everyone_once() {
    let mut r = SessionRegistry::new();
    join(&mut r, 1, "alice");
    join(&mut r, 2, "bob");
    let acts = r.shutdown();
    assert_eq!(acts.len(), 4);
    match &acts[0] {
        ServerAction::Broadcast { recipients, message } => {
            assert_eq!(sorted(recipients), vec![1, 2]);
            assert_eq!(*message, ServerMessage::ServerStopping {});
        }
        other => panic!("expected a broadcast, got {:?}", other),
    }
    assert_eq!(acts[3], ServerAction::StopEndpoint);
    assert!(r.is_terminated());
    assert_eq!(r.len(), 0);
    assert!(r.shutdown().is_empty());
}

#[test]
fn ended_session_ignores_join_and_chat() {
    let mut r = SessionRegistry::new();
    r.shutdown();
    assert!(join(&mut r, 1, "late").is_empty());
    assert!(r.on_chat(1, "hello".to_string()).is_empty());
    assert_eq!(r.len(), 0);
}

#[test]
fn recipients_lists_each_joined_connection() {
    let mut r = SessionRegistry::new();
    join(&mut r, 30, "c");
    join(&mut r, 10, "a");
    join(&mut r, 20, "b");
    assert_eq!(sorted(&r.recipients()), vec![10, 20, 30]);
    assert!(r.contains(20));
    assert!(!r.contains(40));
}
