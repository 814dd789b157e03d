use modcraft::embedded::{EmbeddedPhase, EmbeddedServer};
use modcraft::protocol::{ClientMessage, ServerMessage};
use modcraft::registry::ServerAction;

fn running_with(ids: &[(u64, &str)]) -> EmbeddedServer {
    let mut s = EmbeddedServer::new();
    assert!(s.on_endpoint_bound());
    for (id, name) in ids {
        s.handle_client_message(*id, ClientMessage::Join { name: name.to_string() });
    }
    s
}

#[test]
fn client_left_flag_stops_the_server_on_the_next_tick() {
    let mut s = running_with(&[(1, "host"), (2, "guest"), (3, "other")]);
    assert!(s.on_tick(false).is_empty());
    assert_eq!(s.phase(), EmbeddedPhase::Running);
    let acts = s.on_tick(true);
    assert_eq!(s.phase(), EmbeddedPhase::Stopped);
    assert_eq!(acts.len(), 5);
    match &acts[0] {
        ServerAction::Broadcast { recipients, message } => {
            let mut r = recipients.clone();
            r.sort();
            assert_eq!(r, vec![1, 2, 3]);
            assert_eq!(*message, ServerMessage::ServerStopping {});
        }
        other => panic!("expected a broadcast, got {:?}", other),
    }
    let mut closed: Vec<u64> = acts[1..4]
        .iter()
        .map(|a| match a {
            ServerAction::CloseConnection { client_id } => *client_id,
            other => panic!("expected a close, got {:?}", other),
        })
        .collect();
    closed.sort();
    assert_eq!(closed, vec![1, 2, 3]);
    assert_eq!(acts[4], ServerAction::StopEndpoint);
    assert_eq!(s.registry().len(), 0);
    assert!(s.on_tick(true).is_empty());
}

#[test]
fn ready_is_signalled_once() {
    let mut s = EmbeddedServer::new();
    assert_eq!(s.phase(), EmbeddedPhase::Launching);
    assert!(s.on_endpoint_bound());
    assert_eq!(s.phase(), EmbeddedPhase::Running);
    assert!(!s.on_endpoint_bound());
}

#[test]
fn bind_failure_stops_without_ready() {
    let mut s = EmbeddedServer::new();
    s.on_bind_failed();
    assert_eq!(s.phase(), EmbeddedPhase::Stopped);
    assert!(!s.on_endpoint_bound());
}

#[test]
fn nothing_is_served_before_the_endpoint_is_bound() {
    let mut s = EmbeddedServer::new();
    let acts = s.handle_client_message(1, ClientMessage::Join { name: "early".to_string() });
    assert!(acts.is_empty());
    assert_eq!(s.registry().len(), 0);
    assert!(s.on_tick(true).is_empty());
    assert_eq!(s.phase(), EmbeddedPhase::Launching);
}

#[test]
fn first_joiner_is_host_and_its_loss_stops_the_server() {
    let mut s = running_with(&[(4, "host"), (5, "guest")]);
    assert_eq!(s.registry().host(), Some(4));
    let acts = s.on_transport_lost(4);
    assert_eq!(acts.len(), 3);
    assert_eq!(s.phase(), EmbeddedPhase::Stopped);
    assert!(s.registry().is_terminated());
    assert!(s.handle_client_message(5, ClientMessage::ChatMessage { message: "hi".to_string() }).is_empty());
}

#[test]
fn guest_loss_keeps_the_server_running() {
    let mut s = running_with(&[(4, "host"), (5, "guest")]);
    let acts = s.on_transport_lost(5);
    assert_eq!(
        acts,
        vec![ServerAction::Broadcast {
            recipients: vec![4],
            message: ServerMessage::ClientDisconnected { client_id: 5 },
        }]
    );
    assert_eq!(s.phase(), EmbeddedPhase::Running);
}
