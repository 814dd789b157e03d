use std::collections::HashMap;

use modcraft::protocol::{
    Channel, ClientMessage, ServerMessage, ANY_LOCAL_ADDR, LISTEN_ADDR, LOOPBACK_SERVER_ADDR,
};

#[test]
fn chat_travels_unordered_and_control_ordered() {
    assert_eq!(ClientMessage::ChatMessage { message: "x".to_string() }.channel(), Channel::UnorderedReliable);
    assert_eq!(ClientMessage::Join { name: "x".to_string() }.channel(), Channel::OrderedReliable);
    assert_eq!(ClientMessage::Disconnect {}.channel(), Channel::OrderedReliable);
    assert_eq!(
        ServerMessage::ChatMessage { client_id: 1, message: "x".to_string() }.channel(),
        Channel::UnorderedReliable
    );
    assert_eq!(
        ServerMessage::ClientConnected { client_id: 1, username: "x".to_string() }.channel(),
        Channel::OrderedReliable
    );
    assert_eq!(ServerMessage::ClientDisconnected { client_id: 1 }.channel(), Channel::OrderedReliable);
    assert_eq!(
        ServerMessage::InitClient { client_id: 1, usernames: HashMap::new() }.channel(),
        Channel::OrderedReliable
    );
    assert_eq!(ServerMessage::ServerStopping {}.channel(), Channel::OrderedReliable);
}

#[test]
fn default_addresses() {
    assert_eq!(LISTEN_ADDR, "0.0.0.0:6006");
    assert_eq!(LOOPBACK_SERVER_ADDR, "127.0.0.1:6006");
    assert_eq!(ANY_LOCAL_ADDR, "0.0.0.0:0");
}
