//! The server's session registry and the engine that reacts to client
//! messages and transport events.
//!
//! Each operation updates the registry and returns the transport work it
//! calls for, in order, as a list of [`ServerAction`]s.
use std::collections::HashMap;
use vstd::prelude::*;
use crate::protocol::{ids_of, lists_exactly, names_view, ClientId, ClientMessage, ServerMessage};

verus! {

broadcast use vstd::std_specs::hash::group_hash_axioms;

/// An event that the engine ignored, to be reported as a warning.
#[derive(Debug, Clone, Copy, PartialEq, Eq, Structural)]
pub enum ServerWarning {
    /// A `Join` from a connection that has already joined.
    DuplicateJoin { client_id: ClientId },
    /// A departure of a connection that is not registered.
    UnknownDeparture { client_id: ClientId },
}

/// Transport work requested by the engine.
#[derive(Debug, PartialEq, Eq)]
pub enum ServerAction {
    /// Send `message` to one connection.
    Send { to: ClientId, message: ServerMessage },
    /// Send `message` to each of `recipients`: one delivery attempt each.
    Broadcast { recipients: Vec<ClientId>, message: ServerMessage },
    /// Close the connection `client_id`.
    CloseConnection { client_id: ClientId },
    /// Stop the listening endpoint.
    StopEndpoint,
    /// Report a warning; nothing else changes.
    Warn(ServerWarning),
}

/// The abstract state of a [`SessionRegistry`].
pub struct RegistryView {
    /// Joined connections and their usernames.
    pub names: Map<ClientId, Seq<char>>,
    /// The connection whose departure ends the session, if any.
    pub host: Option<ClientId>,
    /// Whether the next connection to join becomes the host.
    pub awaiting_host: bool,
    /// Whether the session has ended.
    pub terminated: bool,
}

impl RegistryView {
    /// A designated host is a joined connection, and an ended session
    /// holds nobody.
    pub open spec fn wf(self) -> bool {
        &&& (self.host matches Some(h) ==> self.names.contains_key(h))
        &&& (self.terminated ==> self.names.is_empty() && self.host is None)
    }
}

/// `a` sends the personalised snapshot `names` to `to`.
pub open spec fn is_init_for(a: ServerAction, to: ClientId, names: Map<ClientId, Seq<char>>) -> bool {
    match a {
        ServerAction::Send { to: t, message: ServerMessage::InitClient { client_id, usernames } } =>
            t == to && client_id == to && names_view(usernames@) == names,
        _ => false,
    }
}

/// `a` broadcasts `ClientConnected { id, name }` to exactly `dom`.
pub open spec fn broadcasts_connected(a: ServerAction, dom: Set<ClientId>, id: ClientId, name: Seq<char>) -> bool {
    match a {
        ServerAction::Broadcast { recipients, message: ServerMessage::ClientConnected { client_id, username } } =>
            lists_exactly(recipients@, dom) && client_id == id && username@ == name,
        _ => false,
    }
}

/// `a` broadcasts `ClientDisconnected { id }` to exactly `dom`.
pub open spec fn broadcasts_disconnected(a: ServerAction, dom: Set<ClientId>, id: ClientId) -> bool {
    match a {
        ServerAction::Broadcast { recipients, message: ServerMessage::ClientDisconnected { client_id } } =>
            lists_exactly(recipients@, dom) && client_id == id,
        _ => false,
    }
}

/// `a` broadcasts `ChatMessage { id, text }` to exactly `dom`.
pub open spec fn broadcasts_chat(a: ServerAction, dom: Set<ClientId>, id: ClientId, text: Seq<char>) -> bool {
    match a {
        ServerAction::Broadcast { recipients, message: ServerMessage::ChatMessage { client_id, message } } =>
            lists_exactly(recipients@, dom) && client_id == id && message@ == text,
        _ => false,
    }
}

/// `a` broadcasts `ServerStopping` to exactly `dom`.
pub open spec fn broadcasts_stopping(a: ServerAction, dom: Set<ClientId>) -> bool {
    match a {
        ServerAction::Broadcast { recipients, message: ServerMessage::ServerStopping { } } =>
            lists_exactly(recipients@, dom),
        _ => false,
    }
}

/// The connections that a `Broadcast` action reaches.
pub open spec fn broadcast_recipients(a: ServerAction) -> Seq<ClientId> {
    match a {
        ServerAction::Broadcast { recipients, .. } => recipients@,
        _ => Seq::empty(),
    }
}

/// The message that a `Broadcast` action carries.
pub open spec fn broadcast_message(a: ServerAction) -> ServerMessage {
    match a {
        ServerAction::Broadcast { message, .. } => message,
        _ => ServerMessage::ServerStopping {  },
    }
}

/// The connection that a `CloseConnection` action closes.
pub open spec fn closed_by(a: ServerAction) -> ClientId {
    match a {
        ServerAction::CloseConnection { client_id } => client_id,
        _ => 0,
    }
}

/// `acts` closes each connection of `dom` once, and does nothing else.
pub open spec fn closes_exactly(acts: Seq<ServerAction>, dom: Set<ClientId>) -> bool {
    &&& forall|i: int| 0 <= i < acts.len() ==> (#[trigger] acts[i]) is CloseConnection
    &&& lists_exactly(acts.map_values(|a: ServerAction| closed_by(a)), dom)
}

/// The shutdown sequence towards the connections `dom`: `ServerStopping` to
/// all of them, then each connection closed, then the endpoint stopped.
pub open spec fn is_shutdown(acts: Seq<ServerAction>, dom: Set<ClientId>) -> bool {
    &&& acts.len() == dom.len() + 2
    &&& broadcasts_stopping(acts[0], dom)
    &&& closes_exactly(acts.subrange(1, acts.len() - 1), dom)
    &&& acts.last() is StopEndpoint
}

/// The state after the shutdown sequence.
pub open spec fn shut_down_view(v: RegistryView) -> RegistryView {
    RegistryView { names: Map::empty(), host: None, awaiting_host: false, terminated: true }
}

/// The state after `id` sends `Join { name }`.
pub open spec fn join_view(v: RegistryView, id: ClientId, name: Seq<char>) -> RegistryView {
    if v.terminated || v.names.contains_key(id) {
        v
    } else {
        RegistryView {
            names: v.names.insert(id, name),
            host: if v.awaiting_host { Some(id) } else { v.host },
            awaiting_host: false,
            terminated: false,
        }
    }
}

/// The work that `id` sending `Join { name }` calls for.
pub open spec fn join_actions(v: RegistryView, id: ClientId, name: Seq<char>, acts: Seq<ServerAction>) -> bool {
    if v.terminated {
        acts.len() == 0
    } else if v.names.contains_key(id) {
        acts == seq![ServerAction::Warn(ServerWarning::DuplicateJoin { client_id: id })]
    } else {
        let names = v.names.insert(id, name);
        &&& acts.len() == 2
        &&& is_init_for(acts[0], id, names)
        &&& broadcasts_connected(acts[1], names.dom(), id, name)
    }
}

/// The state after `id` departs.
pub open spec fn departure_view(v: RegistryView, id: ClientId) -> RegistryView {
    if !v.names.contains_key(id) {
        v
    } else if v.host == Some(id) {
        shut_down_view(v)
    } else {
        RegistryView { names: v.names.remove(id), ..v }
    }
}

/// The work that the departure of `id` calls for.
pub open spec fn departure_actions(v: RegistryView, id: ClientId, acts: Seq<ServerAction>) -> bool {
    if !v.names.contains_key(id) {
        acts == seq![ServerAction::Warn(ServerWarning::UnknownDeparture { client_id: id })]
    } else if v.host == Some(id) {
        is_shutdown(acts, v.names.remove(id).dom())
    } else {
        acts.len() == 1 && broadcasts_disconnected(acts[0], v.names.remove(id).dom(), id)
    }
}

/// The work that `id` sending `ChatMessage { text }` calls for.
pub open spec fn chat_actions(v: RegistryView, id: ClientId, text: Seq<char>, acts: Seq<ServerAction>) -> bool {
    if v.terminated {
        acts.len() == 0
    } else {
        acts.len() == 1 && broadcasts_chat(acts[0], v.names.dom(), id, text)
    }
}

/// The state after `id` sends `m`.
pub open spec fn message_view(v: RegistryView, id: ClientId, m: ClientMessage) -> RegistryView {
    match m {
        ClientMessage::Join { name } => join_view(v, id, name@),
        ClientMessage::Disconnect { } => departure_view(v, id),
        ClientMessage::ChatMessage { .. } => v,
    }
}

/// The work that `id` sending `m` calls for.
pub open spec fn message_actions(v: RegistryView, id: ClientId, m: ClientMessage, acts: Seq<ServerAction>) -> bool {
    match m {
        ClientMessage::Join { name } => join_actions(v, id, name@, acts),
        ClientMessage::Disconnect { } =>
            acts.len() >= 1
            && acts[0] == (ServerAction::CloseConnection { client_id: id })
            && departure_actions(v, id, acts.drop_first()),
        ClientMessage::ChatMessage { message } => chat_actions(v, id, message@, acts),
    }
}

/// Joining twice from one connection leaves one entry for it, the one that
/// the first join made: the second join is reported as a duplicate and
/// changes nothing. (A session that has ended registers nobody.)
pub proof fn join_is_idempotent(
    v: RegistryView,
    id: ClientId,
    first: Seq<char>,
    second: Seq<char>,
    acts: Seq<ServerAction>,
)
    requires
        !v.terminated,
        join_actions(join_view(v, id, first), id, second, acts),
    ensures
        join_view(join_view(v, id, first), id, second) == join_view(v, id, first),
        join_view(v, id, first).names.dom() == v.names.dom().insert(id),
        join_view(v, id, first).names[id] == if v.names.contains_key(id) { v.names[id] } else { first },
        acts == seq![ServerAction::Warn(ServerWarning::DuplicateJoin { client_id: id })],
{
    if !v.names.contains_key(id) {
        assert(v.names.insert(id, first).dom() =~= v.names.dom().insert(id));
    } else {
        assert(v.names.dom() =~= v.names.dom().insert(id));
    }
}

/// When the host departs, whether it lost its connection or sent
/// `Disconnect`, every other joined connection is told that the server
/// stops and is then closed, the endpoint stops, and the registry ends
/// empty and terminated.
pub proof fn host_departure_cascades(v: RegistryView, lost: Seq<ServerAction>, requested: Seq<ServerAction>)
    requires
        v.wf(),
        v.host is Some,
        departure_actions(v, v.host->Some_0, lost),
        message_actions(v, v.host->Some_0, ClientMessage::Disconnect {  }, requested),
    ensures
        ({
            let h = v.host->Some_0;
            let others = v.names.dom().remove(h);
            &&& departure_view(v, h).names.is_empty()
            &&& departure_view(v, h).terminated
            &&& message_view(v, h, ClientMessage::Disconnect {  }) == departure_view(v, h)
            &&& requested[0] == (ServerAction::CloseConnection { client_id: h })
            &&& is_shutdown(lost, others)
            &&& is_shutdown(requested.drop_first(), others)
        }),
{
    let h = v.host->Some_0;
    assert(v.names.remove(h).dom() =~= v.names.dom().remove(h));
}

/// When a connection other than the host departs, the others get exactly
/// one `ClientDisconnected` for it, and nothing else changes.
pub proof fn non_host_departure(v: RegistryView, id: ClientId, acts: Seq<ServerAction>)
    requires
        v.names.contains_key(id),
        v.host != Some(id),
        departure_actions(v, id, acts),
    ensures
        acts.len() == 1,
        broadcasts_disconnected(acts[0], v.names.dom().remove(id), id),
        departure_view(v, id) == (RegistryView { names: v.names.remove(id), ..v }),
        forall|other: ClientId| other != id && v.names.contains_key(other)
            ==> #[trigger] departure_view(v, id).names.contains_key(other)
                && departure_view(v, id).names[other] == v.names[other],
{
    assert(v.names.remove(id).dom() =~= v.names.dom().remove(id));
}

/// Server-side registry of joined connections.
pub struct SessionRegistry {
    names: HashMap<ClientId, String>,
    host: Option<ClientId>,
    awaiting_host: bool,
    terminated: bool,
}

impl View for SessionRegistry {
    type V = RegistryView;

    closed spec fn view(&self) -> RegistryView {
        RegistryView {
            names: names_view(self.names@),
            host: self.host,
            awaiting_host: self.awaiting_host,
            terminated: self.terminated,
        }
    }
}

impl SessionRegistry {
    /// The registry of a dedicated server: nobody is host.
    pub fn new() -> (r: Self)
        ensures
            r@ == (RegistryView { names: Map::empty(), host: None, awaiting_host: false, terminated: false }),
            r@.wf(),
    {
        let r = SessionRegistry { names: HashMap::new(), host: None, awaiting_host: false, terminated: false };
        proof {
            assert(names_view(r.names@) =~= Map::empty());
        }
        r
    }

    /// The registry of a server embedded in a client: the first connection
    /// to join is the host.
    pub fn new_embedded() -> (r: Self)
        ensures
            r@ == (RegistryView { names: Map::empty(), host: None, awaiting_host: true, terminated: false }),
            r@.wf(),
    {
        let r = SessionRegistry { names: HashMap::new(), host: None, awaiting_host: true, terminated: false };
        proof {
            assert(names_view(r.names@) =~= Map::empty());
        }
        r
    }

    /// Number of joined connections.
    pub fn len(&self) -> (n: usize)
        ensures
            n == self@.names.len(),
    {
        proof {
            assert(self@.names.dom() =~= self.names@.dom());
        }
        self.names.len()
    }

    /// Whether `id` has joined.
    pub fn contains(&self, id: ClientId) -> (b: bool)
        ensures
            b == self@.names.contains_key(id),
    {
        self.names.contains_key(&id)
    }

    /// The username that `id` joined with.
    pub fn username(&self, id: ClientId) -> (r: Option<String>)
        ensures
            match r {
                Some(s) => self@.names.contains_key(id) && s@ == self@.names[id],
                None => !self@.names.contains_key(id),
            },
    {
        match self.names.get(&id) {
            Some(s) => Some(s.clone()),
            None => None,
        }
    }

    /// The host, if one is designated.
    pub fn host(&self) -> (h: Option<ClientId>)
        ensures
            h == self@.host,
    {
        self.host
    }

    /// Whether the session has ended.
    pub fn is_terminated(&self) -> (b: bool)
        ensures
            b == self@.terminated,
    {
        self.terminated
    }

    /// Every joined connection, each once.
    pub fn recipients(&self) -> (ids: Vec<ClientId>)
        ensures
            lists_exactly(ids@, self@.names.dom()),
    {
        proof {
            assert(self@.names.dom() =~= self.names@.dom());
        }
        ids_of(&self.names)
    }

    /// The shutdown sequence: `ServerStopping` to every joined connection,
    /// each of them closed, the endpoint stopped; the registry ends empty
    /// and terminated.
    fn shut_down_all(&mut self) -> (acts: Vec<ServerAction>)
        ensures
            is_shutdown(acts@, old(self)@.names.dom()),
            final(self)@ == shut_down_view(old(self)@),
    {
        let ids = self.recipients();
        let targets = self.recipients();
        let mut acts: Vec<ServerAction> = Vec::new();
        acts.push(ServerAction::Broadcast { recipients: ids, message: ServerMessage::ServerStopping {  } });
        let mut i: usize = 0;
        while i < targets.len()
            invariant
                0 <= i <= targets.len(),
                acts.len() == i + 1,
                broadcasts_stopping(acts[0], old(self)@.names.dom()),
                lists_exactly(targets@, old(self)@.names.dom()),
                forall|j: int| 0 <= j < i ==> acts[j + 1] == (ServerAction::CloseConnection { client_id: targets[j] }),
            decreases targets.len() - i,
        {
            acts.push(ServerAction::CloseConnection { client_id: targets[i] });
            i = i + 1;
        }
        let ghost closing = acts@;
        acts.push(ServerAction::StopEndpoint);
        self.names.clear();
        self.host = None;
        self.awaiting_host = false;
        self.terminated = true;
        proof {
            let closes = acts@.subrange(1, acts@.len() - 1);
            assert(closes.len() == targets@.len());
            assert forall|j: int| 0 <= j < closes.len() implies (#[trigger] closes[j]) is CloseConnection by {
                assert(closes[j] == closing[j + 1]);
                assert(closing[j + 1] == (ServerAction::CloseConnection { client_id: targets[j] }));
            }
            assert(closes.map_values(|a: ServerAction| closed_by(a)) =~= targets@);
            assert(names_view(self.names@) =~= Map::empty());
        }
        acts
    }

    /// Ends the session: `ServerStopping` to every joined connection, each
    /// of them closed, the endpoint stopped. Does nothing once terminated.
    pub fn shutdown(&mut self) -> (acts: Vec<ServerAction>)
        ensures
            old(self)@.terminated ==> acts@.len() == 0 && final(self)@ == old(self)@,
            !old(self)@.terminated ==> is_shutdown(acts@, old(self)@.names.dom())
                && final(self)@ == shut_down_view(old(self)@),
            final(self)@.wf() || !old(self)@.wf(),
    {
        if self.terminated {
            return Vec::new();
        }
        self.shut_down_all()
    }

    /// `id` asks to join as `name`. A second `Join` from the same
    /// connection is reported and ignored. Otherwise `id` is registered,
    /// receives the full snapshot of usernames, and every joined connection,
    /// `id` included, is told of the newcomer.
    pub fn on_join(&mut self, id: ClientId, name: String) -> (acts: Vec<ServerAction>)
        ensures
            final(self)@ == join_view(old(self)@, id, name@),
            join_actions(old(self)@, id, name@, acts@),
            old(self)@.wf() ==> final(self)@.wf(),
    {
        let mut acts: Vec<ServerAction> = Vec::new();
        if self.terminated {
            return acts;
        }
        if self.names.contains_key(&id) {
            acts.push(ServerAction::Warn(ServerWarning::DuplicateJoin { client_id: id }));
            proof {
                assert(acts@ =~= seq![ServerAction::Warn(ServerWarning::DuplicateJoin { client_id: id })]);
            }
            return acts;
        }
        self.names.insert(id, name.clone());
        if self.awaiting_host {
            self.host = Some(id);
        }
        self.awaiting_host = false;
        proof {
            assert(names_view(self.names@) =~= old(self)@.names.insert(id, name@));
        }
        let snapshot = self.names.clone();
        let recipients = self.recipients();
        acts.push(ServerAction::Send {
            to: id,
            message: ServerMessage::InitClient { client_id: id, usernames: snapshot },
        });
        acts.push(ServerAction::Broadcast {
            recipients,
            message: ServerMessage::ClientConnected { client_id: id, username: name },
        });
        acts
    }

    /// The departure of `id`, however it was learnt. An unknown `id` is
    /// reported and ignored. When the host departs, everyone else is told
    /// that the server stops and is disconnected, and the session ends;
    /// otherwise the others are told that `id` left.
    pub fn handle_departure(&mut self, id: ClientId) -> (acts: Vec<ServerAction>)
        ensures
            final(self)@ == departure_view(old(self)@, id),
            departure_actions(old(self)@, id, acts@),
            old(self)@.wf() ==> final(self)@.wf(),
    {
        let mut acts: Vec<ServerAction> = Vec::new();
        match self.names.remove(&id) {
            None => {
                proof {
                    assert(self.names@ =~= old(self).names@);
                }
                acts.push(ServerAction::Warn(ServerWarning::UnknownDeparture { client_id: id }));
                proof {
                    assert(acts@ =~= seq![ServerAction::Warn(ServerWarning::UnknownDeparture { client_id: id })]);
                }
                acts
            },
            Some(_name) => {
                proof {
                    assert(names_view(self.names@) =~= old(self)@.names.remove(id));
                }
                let is_host = match self.host {
                    Some(h) => h == id,
                    None => false,
                };
                if is_host {
                    self.shut_down_all()
                } else {
                    let recipients = self.recipients();
                    acts.push(ServerAction::Broadcast {
                        recipients,
                        message: ServerMessage::ClientDisconnected { client_id: id },
                    });
                    acts
                }
            },
        }
    }

    /// The transport reports that the connection `id` is lost: handled as
    /// its departure.
    pub fn on_transport_lost(&mut self, id: ClientId) -> (acts: Vec<ServerAction>)
        ensures
            final(self)@ == departure_view(old(self)@, id),
            departure_actions(old(self)@, id, acts@),
            old(self)@.wf() ==> final(self)@.wf(),
    {
        self.handle_departure(id)
    }

    /// `id` sends `Disconnect`: its connection is closed, then it departs.
    pub fn on_disconnect_request(&mut self, id: ClientId) -> (acts: Vec<ServerAction>)
        ensures
            final(self)@ == departure_view(old(self)@, id),
            acts@.len() >= 1,
            acts@[0] == (ServerAction::CloseConnection { client_id: id }),
            departure_actions(old(self)@, id, acts@.drop_first()),
            old(self)@.wf() ==> final(self)@.wf(),
    {
        let mut acts: Vec<ServerAction> = Vec::new();
        acts.push(ServerAction::CloseConnection { client_id: id });
        let mut rest = self.handle_departure(id);
        let ghost rest_seq = rest@;
        acts.append(&mut rest);
        proof {
            assert(acts@.drop_first() =~= rest_seq);
        }
        acts
    }

    /// `id` sends a chat line: it goes to every joined connection, the
    /// sender included.
    pub fn on_chat(&self, id: ClientId, text: String) -> (acts: Vec<ServerAction>)
        ensures
            chat_actions(self@, id, text@, acts@),
    {
        let mut acts: Vec<ServerAction> = Vec::new();
        if self.terminated {
            return acts;
        }
        let recipients = self.recipients();
        acts.push(ServerAction::Broadcast {
            recipients,
            message: ServerMessage::ChatMessage { client_id: id, message: text },
        });
        acts
    }

    /// Dispatches one message received from `id`.
    pub fn handle_client_message(&mut self, id: ClientId, m: ClientMessage) -> (acts: Vec<ServerAction>)
        ensures
            final(self)@ == message_view(old(self)@, id, m),
            message_actions(old(self)@, id, m, acts@),
            old(self)@.wf() ==> final(self)@.wf(),
    {
        match m {
            ClientMessage::Join { name } => self.on_join(id, name),
            ClientMessage::Disconnect {  } => self.on_disconnect_request(id),
            ClientMessage::ChatMessage { message } => self.on_chat(id, message),
        }
    }
}

} // verus!
