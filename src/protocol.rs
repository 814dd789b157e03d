//! Messages exchanged between clients and the server.
use std::collections::HashMap;
use vstd::prelude::*;
use vstd::std_specs::iter::IteratorSpec;

verus! {

broadcast use vstd::std_specs::hash::group_hash_axioms;

/// Identifier that the transport gives to one live connection.
pub type ClientId = u64;

/// Transport channel that a message travels on.
#[derive(Debug, Clone, Copy, PartialEq, Eq, Structural)]
pub enum Channel {
    /// Reliable, and delivered in the order sent.
    OrderedReliable,
    /// Reliable, with no ordering between messages.
    UnorderedReliable,
}

/// Messages that a client sends to the server.
#[derive(Debug, Clone, PartialEq, Eq)]
pub enum ClientMessage {
    Join { name: String },
    Disconnect {},
    ChatMessage { message: String },
}

/// Messages that the server sends to clients.
#[derive(Debug, Clone, PartialEq, Eq)]
pub enum ServerMessage {
    ClientConnected { client_id: ClientId, username: String },
    ClientDisconnected { client_id: ClientId },
    ChatMessage { client_id: ClientId, message: String },
    InitClient { client_id: ClientId, usernames: HashMap<ClientId, String> },
    ServerStopping {},
}

/// Address that a server listens on.
pub const LISTEN_ADDR: &'static str = "0.0.0.0:6006";

/// Address that a self-hosting client connects to.
pub const LOOPBACK_SERVER_ADDR: &'static str = "127.0.0.1:6006";

/// Local address that a client binds to: any interface, any port.
pub const ANY_LOCAL_ADDR: &'static str = "0.0.0.0:0";

/// `ids` lists every member of `dom` exactly once.
pub open spec fn lists_exactly(ids: Seq<ClientId>, dom: Set<ClientId>) -> bool {
    &&& ids.no_duplicates()
    &&& ids.to_set() == dom
    &&& ids.len() == dom.len()
}

/// Usernames as character sequences.
pub open spec fn names_view(m: Map<ClientId, String>) -> Map<ClientId, Seq<char>> {
    m.map_values(|s: String| s@)
}

/// The connections that `names` knows, each once.
pub fn ids_of(names: &HashMap<ClientId, String>) -> (ids: Vec<ClientId>)
    ensures
        lists_exactly(ids@, names@.dom()),
{
    let mut ids: Vec<ClientId> = Vec::new();
    let ghost keys = names.keys();
    let ghost mut complete: bool = keys.remaining().len() == 0;
    for id in it: names.keys()
        invariant
            it.seq() == keys.remaining(),
            ids@ == it.seq().take(it.index()).unref(),
            complete == (it.index() == it.seq().len()),
    {
        proof {
            complete = it.index() + 1 == it.seq().len();
        }
        ids.push(*id);
        proof {
            assert(it.seq().take(it.index() + 1).unref() =~= ids@);
        }
    }
    proof {
        assert(complete);
        assert(keys.remaining().take(keys.remaining().len() as int) =~= keys.remaining());
    }
    ids
}

/// Chat travels unordered; every control message travels ordered.
pub open spec fn client_channel_spec(m: ClientMessage) -> Channel {
    match m {
        ClientMessage::ChatMessage { .. } => Channel::UnorderedReliable,
        _ => Channel::OrderedReliable,
    }
}

/// Chat travels unordered; every control message travels ordered.
pub open spec fn server_channel_spec(m: ServerMessage) -> Channel {
    match m {
        ServerMessage::ChatMessage { .. } => Channel::UnorderedReliable,
        _ => Channel::OrderedReliable,
    }
}

impl ClientMessage {
    /// The channel this message is sent on.
    pub fn channel(&self) -> (c: Channel)
        ensures
            c == client_channel_spec(*self),
    {
        match self {
            ClientMessage::ChatMessage { .. } => Channel::UnorderedReliable,
            _ => Channel::OrderedReliable,
        }
    }
}

impl ServerMessage {
    /// The channel this message is sent on.
    pub fn channel(&self) -> (c: Channel)
        ensures
            c == server_channel_spec(*self),
    {
        match self {
            ServerMessage::ChatMessage { .. } => Channel::UnorderedReliable,
            _ => Channel::OrderedReliable,
        }
    }
}

} // verus!
