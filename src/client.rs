//! The client's connection state machine and its local view of who is
//! online.
//!
//! Terminal lines, network messages and transport events are handed to a
//! [`Client`], which moves between its states and returns the work to do as
//! a list of [`ClientAction`]s.
use std::collections::HashMap;
use vstd::prelude::*;
use crate::registry::{broadcast_message, broadcast_recipients, chat_actions, RegistryView, ServerAction};
use crate::protocol::{
    ids_of, lists_exactly, names_view, ClientId, ClientMessage, ServerMessage, ANY_LOCAL_ADDR,
    LOOPBACK_SERVER_ADDR,
};

verus! {

broadcast use vstd::std_specs::hash::group_hash_axioms;

/// The terminal command that leaves a game.
pub const QUIT_COMMAND: &'static str = "/quit";

/// The terminal command that lists who is online.
pub const LIST_COMMAND: &'static str = "/list";

/// Length of a generated username.
pub const USERNAME_LEN: usize = 7;

/// Where the client is in its session.
#[derive(Debug, Clone, Copy, PartialEq, Eq, Structural)]
pub enum ClientState {
    /// Waiting for the user to choose a server.
    Menu,
    /// Waiting for the embedded server to open its endpoint.
    LaunchingEmbeddedServer,
    /// Waiting for the transport to establish the connection.
    ConnectingToServer,
    /// Joined; chatting.
    InGame,
}

/// Where to connect, and the local address to bind.
#[derive(Debug, PartialEq, Eq)]
pub struct ConnectionConfig {
    pub server_addr: String,
    pub local_bind_addr: String,
}

impl ConnectionConfig {
    pub open spec fn view_pair(&self) -> (Seq<char>, Seq<char>) {
        (self.server_addr@, self.local_bind_addr@)
    }

    fn duplicate(&self) -> (c: ConnectionConfig)
        ensures
            c.view_pair() == self.view_pair(),
    {
        ConnectionConfig { server_addr: self.server_addr.clone(), local_bind_addr: self.local_bind_addr.clone() }
    }
}

/// One line of the list of who is online.
#[derive(Debug, PartialEq, Eq)]
pub struct RosterEntry {
    pub client_id: ClientId,
    pub username: String,
    /// Whether this is the local client.
    pub is_self: bool,
}

/// Something to show the user.
#[derive(Debug, PartialEq, Eq)]
pub enum ClientOutput {
    /// Ask for an address, or a blank line to host.
    Prompt,
    /// `input` is not an address to connect to.
    InvalidAddress { input: String },
    /// The client joins under `name`.
    JoiningAs { name: String },
    /// `username` joined.
    Joined { username: String },
    /// `username` left.
    Left { username: String },
    /// `username` said `message`.
    Chat { username: String, message: String },
    /// Who is online.
    Roster { entries: Vec<RosterEntry> },
}

/// An event that the client ignored, to be reported as a warning.
#[derive(Debug, Clone, Copy, PartialEq, Eq, Structural)]
pub enum ClientWarning {
    /// A terminal line arrived while connecting or launching.
    NotAcceptingInput,
    /// A network message arrived outside a game.
    NotAcceptingMessages,
    /// `ClientDisconnected` for an id that the client does not know.
    UnknownDeparture { client_id: ClientId },
    /// A chat line from an id that the client does not know.
    ChatFromUnknown { client_id: ClientId },
}

/// Work requested by the client state machine.
#[derive(Debug, PartialEq, Eq)]
pub enum ClientAction {
    /// Start an embedded server, with fresh ready and left flags.
    LaunchEmbeddedServer,
    /// Open a connection.
    OpenConnection { config: ConnectionConfig },
    /// Send a message to the server.
    Send { message: ClientMessage },
    /// Close the connection to the server.
    CloseConnection,
    /// Tell the embedded server that its client has left.
    SignalClientLeft,
    /// Show something to the user.
    Show(ClientOutput),
    /// Report a warning; nothing else changes.
    Warn(ClientWarning),
}

/// The abstract state of a [`Client`].
pub struct ClientView {
    pub state: ClientState,
    /// The server address and local address chosen for this session.
    pub config: Option<(Seq<char>, Seq<char>)>,
    /// The id that the server gave this client.
    pub self_id: ClientId,
    /// Who is online, as far as this client knows.
    pub names: Map<ClientId, Seq<char>>,
    /// Whether this client runs the server it is connected to.
    pub self_hosting: bool,
}

impl ClientView {
    /// A session has a configuration exactly outside the menu, and only a
    /// session can be self-hosted.
    pub open spec fn wf(self) -> bool {
        &&& (self.config is Some <==> self.state != ClientState::Menu)
        &&& (self.self_hosting ==> self.state != ClientState::Menu)
    }
}

/// Whether bevy_quinnet accepts `server` and `local` as the two addresses of
/// a connection.
pub uninterp spec fn accepts_addresses(server: Seq<char>, local: Seq<char>) -> bool;

/// Relies on bevy_quinnet's `ConnectionConfiguration::from_strings`: it
/// succeeds exactly when both strings parse as socket addresses, which
/// depends on the strings alone.
#[verifier::external_body]
fn addresses_parse(server: &str, local: &str) -> (ok: bool)
    ensures
        ok == accepts_addresses(server@, local@),
{
    bevy_quinnet::client::connection::ConnectionConfiguration::from_strings(server, local).is_ok()
}

/// A character that may appear in a generated username.
pub open spec fn is_alphanumeric(c: char) -> bool {
    ('A' <= c && c <= 'Z') || ('a' <= c && c <= 'z') || ('0' <= c && c <= '9')
}

/// Relies on rand's `thread_rng` sampled with `Alphanumeric`, which draws
/// one byte out of `A-Z`, `a-z` and `0-9`.
#[verifier::external_body]
fn random_alphanumeric() -> (c: char)
    ensures
        is_alphanumeric(c),
{
    char::from(rand::Rng::sample(&mut rand::thread_rng(), rand::distributions::Alphanumeric))
}

/// Relies on `String`'s `FromIterator<char>`: the characters, in order.
#[verifier::external_body]
fn string_from_chars(chars: Vec<char>) -> (s: String)
    ensures
        s@ == chars@,
{
    String::from_iter(chars)
}

/// A fresh random username of `USERNAME_LEN` alphanumeric characters.
pub fn random_username() -> (name: String)
    ensures
        name@.len() == USERNAME_LEN,
        forall|i: int| 0 <= i < name@.len() ==> is_alphanumeric(#[trigger] name@[i]),
{
    let mut chars: Vec<char> = Vec::new();
    let mut i: usize = 0;
    while i < USERNAME_LEN
        invariant
            i <= USERNAME_LEN,
            chars@.len() == i,
            forall|j: int| 0 <= j < i ==> is_alphanumeric(#[trigger] chars@[j]),
        decreases USERNAME_LEN - i,
    {
        chars.push(random_alphanumeric());
        i = i + 1;
    }
    string_from_chars(chars)
}

/// The configuration of a self-hosted session.
pub open spec fn loopback_config() -> (Seq<char>, Seq<char>) {
    (LOOPBACK_SERVER_ADDR@, ANY_LOCAL_ADDR@)
}

/// `a` opens a connection with configuration `c`.
pub open spec fn opens(a: ClientAction, c: (Seq<char>, Seq<char>)) -> bool {
    a matches ClientAction::OpenConnection { config } && config.view_pair() == c
}

/// The state after leaving a game: back in the menu, with nothing kept of
/// the session but the last id.
pub open spec fn left_view(v: ClientView) -> ClientView {
    ClientView { state: ClientState::Menu, config: None, names: Map::empty(), self_hosting: false, ..v }
}

/// The state after the menu line `line`; `address_ok` says whether it is
/// an address to connect to.
pub open spec fn menu_view(v: ClientView, line: Seq<char>, address_ok: bool) -> ClientView {
    if line.len() == 0 {
        ClientView {
            state: ClientState::LaunchingEmbeddedServer,
            config: Some(loopback_config()),
            self_hosting: true,
            ..v
        }
    } else if address_ok {
        ClientView {
            state: ClientState::ConnectingToServer,
            config: Some((line, ANY_LOCAL_ADDR@)),
            self_hosting: false,
            ..v
        }
    } else {
        v
    }
}

/// The work that the menu line `line` calls for.
pub open spec fn menu_actions(line: Seq<char>, address_ok: bool, acts: Seq<ClientAction>) -> bool {
    if line.len() == 0 {
        acts == seq![ClientAction::LaunchEmbeddedServer]
    } else if address_ok {
        acts.len() == 1 && opens(acts[0], (line, ANY_LOCAL_ADDR@))
    } else {
        &&& acts.len() == 1
        &&& acts[0] matches ClientAction::Show(ClientOutput::InvalidAddress { input })
        &&& input@ == line
    }
}

/// `entries` lists everyone in `names` once, with their names, marking
/// `self_id`.
pub open spec fn is_roster(entries: Seq<RosterEntry>, names: Map<ClientId, Seq<char>>, self_id: ClientId) -> bool {
    &&& lists_exactly(entries.map_values(|e: RosterEntry| e.client_id), names.dom())
    &&& forall|i: int| 0 <= i < entries.len() ==> {
        &&& (#[trigger] entries[i]).username@ == names[entries[i].client_id]
        &&& entries[i].is_self == (entries[i].client_id == self_id)
    }
}

/// The work that `/quit` calls for.
pub open spec fn quit_actions(self_hosting: bool) -> Seq<ClientAction> {
    if self_hosting {
        seq![
            ClientAction::Send { message: ClientMessage::Disconnect {  } },
            ClientAction::CloseConnection,
            ClientAction::SignalClientLeft,
            ClientAction::Show(ClientOutput::Prompt),
        ]
    } else {
        seq![
            ClientAction::Send { message: ClientMessage::Disconnect {  } },
            ClientAction::CloseConnection,
            ClientAction::Show(ClientOutput::Prompt),
        ]
    }
}

/// The state after the in-game line `line`.
pub open spec fn game_view(v: ClientView, line: Seq<char>) -> ClientView {
    if line == QUIT_COMMAND@ {
        left_view(v)
    } else {
        v
    }
}

/// The work that the in-game line `line` calls for.
pub open spec fn game_actions(v: ClientView, line: Seq<char>, acts: Seq<ClientAction>) -> bool {
    if line == QUIT_COMMAND@ {
        acts == quit_actions(v.self_hosting)
    } else if line == LIST_COMMAND@ {
        &&& acts.len() == 1
        &&& acts[0] matches ClientAction::Show(ClientOutput::Roster { entries })
        &&& is_roster(entries@, v.names, v.self_id)
    } else if line.len() == 0 {
        acts.len() == 0
    } else {
        &&& acts.len() == 1
        &&& acts[0] matches ClientAction::Send { message: ClientMessage::ChatMessage { message } }
        &&& message@ == line
    }
}

/// The state after the terminal line `line`.
pub open spec fn line_view(v: ClientView, line: Seq<char>, address_ok: bool) -> ClientView {
    match v.state {
        ClientState::Menu => menu_view(v, line, address_ok),
        ClientState::InGame => game_view(v, line),
        _ => v,
    }
}

/// The work that the terminal line `line` calls for.
pub open spec fn line_actions(v: ClientView, line: Seq<char>, address_ok: bool, acts: Seq<ClientAction>) -> bool {
    match v.state {
        ClientState::Menu => menu_actions(line, address_ok, acts),
        ClientState::InGame => game_actions(v, line, acts),
        _ => acts == seq![ClientAction::Warn(ClientWarning::NotAcceptingInput)],
    }
}

/// The state once the embedded server's ready flag reads `ready`.
pub open spec fn ready_view(v: ClientView, ready: bool) -> ClientView {
    if v.state == ClientState::LaunchingEmbeddedServer && ready {
        ClientView { state: ClientState::ConnectingToServer, ..v }
    } else {
        v
    }
}

/// The work that reading `ready` calls for.
pub open spec fn ready_actions(v: ClientView, ready: bool, acts: Seq<ClientAction>) -> bool {
    if v.state == ClientState::LaunchingEmbeddedServer && ready {
        &&& acts.len() == 1
        &&& v.config matches Some(c) && opens(acts[0], c)
    } else {
        acts.len() == 0
    }
}

/// The state once the transport reports the connection established.
pub open spec fn connected_view(v: ClientView) -> ClientView {
    if v.state == ClientState::ConnectingToServer {
        ClientView { state: ClientState::InGame, ..v }
    } else {
        v
    }
}

/// The work of joining under `name` once connected.
pub open spec fn join_as_actions(v: ClientView, name: Seq<char>, acts: Seq<ClientAction>) -> bool {
    if v.state == ClientState::ConnectingToServer {
        &&& acts.len() == 2
        &&& acts[0] matches ClientAction::Show(ClientOutput::JoiningAs { name: shown })
        &&& shown@ == name
        &&& acts[1] matches ClientAction::Send { message: ClientMessage::Join { name: sent } }
        &&& sent@ == name
    } else {
        acts.len() == 0
    }
}

/// The state after the server message `m`.
pub open spec fn server_message_view(v: ClientView, m: ServerMessage) -> ClientView {
    if v.state != ClientState::InGame {
        v
    } else {
        match m {
            ServerMessage::ClientConnected { client_id, username } =>
                ClientView { names: v.names.insert(client_id, username@), ..v },
            ServerMessage::ClientDisconnected { client_id } =>
                ClientView { names: v.names.remove(client_id), ..v },
            ServerMessage::ChatMessage { .. } => v,
            ServerMessage::InitClient { client_id, usernames } =>
                ClientView { self_id: client_id, names: names_view(usernames@), ..v },
            ServerMessage::ServerStopping {  } => left_view(v),
        }
    }
}

/// The work that the server message `m` calls for.
pub open spec fn server_message_actions(v: ClientView, m: ServerMessage, acts: Seq<ClientAction>) -> bool {
    if v.state != ClientState::InGame {
        acts == seq![ClientAction::Warn(ClientWarning::NotAcceptingMessages)]
    } else {
        match m {
            ServerMessage::ClientConnected { client_id, username } => {
                &&& acts.len() == 1
                &&& acts[0] matches ClientAction::Show(ClientOutput::Joined { username: shown })
                &&& shown@ == username@
            },
            ServerMessage::ClientDisconnected { client_id } => if v.names.contains_key(client_id) {
                &&& acts.len() == 1
                &&& acts[0] matches ClientAction::Show(ClientOutput::Left { username })
                &&& username@ == v.names[client_id]
            } else {
                acts == seq![ClientAction::Warn(ClientWarning::UnknownDeparture { client_id })]
            },
            ServerMessage::ChatMessage { client_id, message } => if !v.names.contains_key(client_id) {
                acts == seq![ClientAction::Warn(ClientWarning::ChatFromUnknown { client_id })]
            } else if client_id == v.self_id {
                acts.len() == 0
            } else {
                &&& acts.len() == 1
                &&& acts[0] matches ClientAction::Show(ClientOutput::Chat { username, message: text })
                &&& username@ == v.names[client_id]
                &&& text@ == message@
            },
            ServerMessage::InitClient { .. } => acts.len() == 0,
            ServerMessage::ServerStopping {  } =>
                acts == seq![ClientAction::CloseConnection, ClientAction::Show(ClientOutput::Prompt)],
        }
    }
}

/// The work to do before the process exits.
pub open spec fn exit_actions(v: ClientView, acts: Seq<ClientAction>) -> bool {
    if v.state == ClientState::InGame || v.state == ClientState::ConnectingToServer {
        acts == seq![ClientAction::Send { message: ClientMessage::Disconnect {  } }, ClientAction::CloseConnection]
    } else {
        acts.len() == 0
    }
}

/// From the menu, a blank line leads to launching an embedded server, then,
/// once its ready flag is seen, to connecting, then, once connected, into
/// the game; until the flag is seen the client keeps waiting. A non-blank
/// line that is an address leads straight to connecting, and one that is
/// not leaves the client in the menu.
pub proof fn menu_paths(v: ClientView, line: Seq<char>, address_ok: bool)
    requires
        v.state == ClientState::Menu,
    ensures
        line.len() == 0 ==> {
            let launching = line_view(v, line, address_ok);
            let connecting = ready_view(launching, true);
            &&& launching.state == ClientState::LaunchingEmbeddedServer
            &&& launching.config == Some(loopback_config())
            &&& ready_view(launching, false) == launching
            &&& connecting.state == ClientState::ConnectingToServer
            &&& connected_view(connecting).state == ClientState::InGame
        },
        line.len() != 0 && address_ok ==> {
            let connecting = line_view(v, line, address_ok);
            &&& connecting.state == ClientState::ConnectingToServer
            &&& connecting.config == Some((line, ANY_LOCAL_ADDR@))
            &&& connected_view(connecting).state == ClientState::InGame
        },
        line.len() != 0 && !address_ok ==> line_view(v, line, address_ok) == v,
{
}

/// A client never shows its own chat lines when the server echoes them
/// back; it shows those of every other known sender.
pub proof fn own_chat_not_shown(v: ClientView, sender: ClientId, text: String, acts: Seq<ClientAction>)
    requires
        v.state == ClientState::InGame,
        v.names.contains_key(sender),
        server_message_actions(v, ServerMessage::ChatMessage { client_id: sender, message: text }, acts),
    ensures
        sender == v.self_id <==> acts.len() == 0,
{
}

/// A chat line from `sender` with N joined connections makes exactly N
/// delivery attempts, one to each of them, the sender included; and the
/// sender's own client shows nothing when its copy arrives.
pub proof fn chat_fan_out(
    registry: RegistryView,
    sender: ClientId,
    text: Seq<char>,
    acts: Seq<ServerAction>,
    own: ClientView,
    shown: Seq<ClientAction>,
)
    requires
        !registry.terminated,
        registry.names.contains_key(sender),
        chat_actions(registry, sender, text, acts),
        own.state == ClientState::InGame,
        own.self_id == sender,
        own.names.contains_key(sender),
        server_message_actions(own, broadcast_message(acts[0]), shown),
    ensures
        acts.len() == 1,
        broadcast_recipients(acts[0]).len() == registry.names.len(),
        broadcast_recipients(acts[0]).no_duplicates(),
        broadcast_recipients(acts[0]).to_set() == registry.names.dom(),
        broadcast_recipients(acts[0]).contains(sender),
        shown.len() == 0,
{
    assert(broadcast_recipients(acts[0]).to_set().contains(sender));
}

/// A game client.
pub struct Client {
    state: ClientState,
    config: Option<ConnectionConfig>,
    self_id: ClientId,
    names: HashMap<ClientId, String>,
    self_hosting: bool,
}

impl View for Client {
    type V = ClientView;

    closed spec fn view(&self) -> ClientView {
        ClientView {
            state: self.state,
            config: match self.config {
                Some(c) => Some(c.view_pair()),
                None => None,
            },
            self_id: self.self_id,
            names: names_view(self.names@),
            self_hosting: self.self_hosting,
        }
    }
}

impl Client {
    /// A client in the menu, knowing nobody.
    pub fn new() -> (c: Client)
        ensures
            c@ == (ClientView {
                state: ClientState::Menu,
                config: None,
                self_id: 0,
                names: Map::empty(),
                self_hosting: false,
            }),
            c@.wf(),
    {
        let c = Client { state: ClientState::Menu, config: None, self_id: 0, names: HashMap::new(), self_hosting: false };
        proof {
            assert(names_view(c.names@) =~= Map::empty());
        }
        c
    }

    /// The current state.
    pub fn state(&self) -> (s: ClientState)
        ensures
            s == self@.state,
    {
        self.state
    }

    /// The id that the server gave this client.
    pub fn self_id(&self) -> (id: ClientId)
        ensures
            id == self@.self_id,
    {
        self.self_id
    }

    /// Whether this client runs the server it is connected to.
    pub fn is_self_hosting(&self) -> (b: bool)
        ensures
            b == self@.self_hosting,
    {
        self.self_hosting
    }

    /// The username that this client knows for `id`.
    pub fn known_username(&self, id: ClientId) -> (r: Option<String>)
        ensures
            match r {
                Some(s) => self@.names.contains_key(id) && s@ == self@.names[id],
                None => !self@.names.contains_key(id),
            },
    {
        match self.names.get(&id) {
            Some(s) => Some(s.clone()),
            None => None,
        }
    }

    /// Number of connections that this client knows to be online.
    pub fn known_count(&self) -> (n: usize)
        ensures
            n == self@.names.len(),
    {
        proof {
            assert(self@.names.dom() =~= self.names@.dom());
        }
        self.names.len()
    }

    /// The session's server address and local address.
    pub fn config(&self) -> (r: Option<ConnectionConfig>)
        ensures
            match r {
                Some(c) => self@.config == Some(c.view_pair()),
                None => self@.config is None,
            },
    {
        match &self.config {
            Some(c) => Some(c.duplicate()),
            None => None,
        }
    }

    fn leave(&mut self)
        ensures
            final(self)@ == left_view(old(self)@),
    {
        self.state = ClientState::Menu;
        self.config = None;
        self.names = HashMap::new();
        self.self_hosting = false;
        proof {
            assert(names_view(self.names@) =~= Map::empty());
        }
    }

    /// Everyone this client knows to be online, marking itself.
    pub fn roster(&self) -> (entries: Vec<RosterEntry>)
        ensures
            is_roster(entries@, self@.names, self@.self_id),
    {
        let ids = ids_of(&self.names);
        let mut entries: Vec<RosterEntry> = Vec::new();
        let mut i: usize = 0;
        while i < ids.len()
            invariant
                i <= ids.len(),
                entries.len() == i,
                lists_exactly(ids@, self.names@.dom()),
                forall|j: int| 0 <= j < i ==> {
                    &&& (#[trigger] entries[j]).client_id == ids[j]
                    &&& entries[j].username@ == self@.names[ids[j]]
                    &&& entries[j].is_self == (ids[j] == self@.self_id)
                },
            decreases ids.len() - i,
        {
            let id = ids[i];
            proof {
                assert(ids@.to_set().contains(ids@[i as int]));
            }
            let username = match self.names.get(&id) {
                Some(n) => n.clone(),
                None => String::new(),
            };
            entries.push(RosterEntry { client_id: id, username, is_self: id == self.self_id });
            i = i + 1;
        }
        proof {
            assert(entries@.map_values(|e: RosterEntry| e.client_id) =~= ids@);
            assert(self@.names.dom() =~= self.names@.dom());
        }
        entries
    }

    fn handle_menu_line(&mut self, line: String, address_ok: bool) -> (acts: Vec<ClientAction>)
        requires
            old(self)@.state == ClientState::Menu,
        ensures
            final(self)@ == menu_view(old(self)@, line@, address_ok),
            menu_actions(line@, address_ok, acts@),
    {
        let mut acts: Vec<ClientAction> = Vec::new();
        if line.as_str().is_empty() {
            self.state = ClientState::LaunchingEmbeddedServer;
            self.config = Some(ConnectionConfig {
                server_addr: LOOPBACK_SERVER_ADDR.to_owned(),
                local_bind_addr: ANY_LOCAL_ADDR.to_owned(),
            });
            self.self_hosting = true;
            acts.push(ClientAction::LaunchEmbeddedServer);
            proof {
                assert(acts@ =~= seq![ClientAction::LaunchEmbeddedServer]);
            }
        } else if address_ok {
            let config = ConnectionConfig { server_addr: line, local_bind_addr: ANY_LOCAL_ADDR.to_owned() };
            acts.push(ClientAction::OpenConnection { config: config.duplicate() });
            self.state = ClientState::ConnectingToServer;
            self.config = Some(config);
            self.self_hosting = false;
        } else {
            acts.push(ClientAction::Show(ClientOutput::InvalidAddress { input: line }));
        }
        acts
    }

    fn handle_game_line(&mut self, line: String) -> (acts: Vec<ClientAction>)
        requires
            old(self)@.state == ClientState::InGame,
        ensures
            final(self)@ == game_view(old(self)@, line@),
            game_actions(old(self)@, line@, acts@),
    {
        let mut acts: Vec<ClientAction> = Vec::new();
        let quit = QUIT_COMMAND.to_owned();
        let list = LIST_COMMAND.to_owned();
        if line == quit {
            acts.push(ClientAction::Send { message: ClientMessage::Disconnect {  } });
            acts.push(ClientAction::CloseConnection);
            if self.self_hosting {
                acts.push(ClientAction::SignalClientLeft);
            }
            acts.push(ClientAction::Show(ClientOutput::Prompt));
            proof {
                assert(acts@ =~= quit_actions(old(self)@.self_hosting));
            }
            self.leave();
        } else if line == list {
            let entries = self.roster();
            acts.push(ClientAction::Show(ClientOutput::Roster { entries }));
        } else if line.as_str().is_empty() {
        } else {
            acts.push(ClientAction::Send { message: ClientMessage::ChatMessage { message: line } });
        }
        acts
    }

    /// Handles one terminal line; `address_ok` says whether bevy_quinnet
    /// accepts the line as a server address, which matters only for a
    /// non-blank line in the menu.
    pub fn handle_line(&mut self, line: String, address_ok: bool) -> (acts: Vec<ClientAction>)
        ensures
            final(self)@ == line_view(old(self)@, line@, address_ok),
            line_actions(old(self)@, line@, address_ok, acts@),
            old(self)@.wf() ==> final(self)@.wf(),
    {
        match self.state {
            ClientState::Menu => self.handle_menu_line(line, address_ok),
            ClientState::InGame => self.handle_game_line(line),
            _ => {
                let mut acts: Vec<ClientAction> = Vec::new();
                acts.push(ClientAction::Warn(ClientWarning::NotAcceptingInput));
                proof {
                    assert(acts@ =~= seq![ClientAction::Warn(ClientWarning::NotAcceptingInput)]);
                }
                acts
            },
        }
    }

    /// Handles one terminal line: in the menu a blank line starts an
    /// embedded server, and any other line is tried as a server address.
    pub fn on_terminal_line(&mut self, line: String) -> (acts: Vec<ClientAction>)
        ensures
            final(self)@ == line_view(old(self)@, line@, accepts_addresses(line@, ANY_LOCAL_ADDR@)),
            line_actions(old(self)@, line@, accepts_addresses(line@, ANY_LOCAL_ADDR@), acts@),
            old(self)@.wf() ==> final(self)@.wf(),
    {
        let address_ok = match self.state {
            ClientState::Menu => !line.as_str().is_empty() && addresses_parse(line.as_str(), ANY_LOCAL_ADDR),
            _ => false,
        };
        self.handle_line(line, address_ok)
    }

    /// Polls the embedded server's ready flag, read as `ready`; once it is
    /// set, the client connects.
    pub fn poll_server_ready(&mut self, ready: bool) -> (acts: Vec<ClientAction>)
        requires
            old(self)@.wf(),
        ensures
            final(self)@ == ready_view(old(self)@, ready),
            ready_actions(old(self)@, ready, acts@),
            final(self)@.wf(),
    {
        let mut acts: Vec<ClientAction> = Vec::new();
        if self.state == ClientState::LaunchingEmbeddedServer && ready {
            match &self.config {
                Some(c) => {
                    acts.push(ClientAction::OpenConnection { config: c.duplicate() });
                },
                None => {},
            }
            self.state = ClientState::ConnectingToServer;
        }
        acts
    }

    /// The transport reports the connection established: the client joins
    /// as `name` and is in the game.
    pub fn join_as(&mut self, name: String) -> (acts: Vec<ClientAction>)
        ensures
            final(self)@ == connected_view(old(self)@),
            join_as_actions(old(self)@, name@, acts@),
            old(self)@.wf() ==> final(self)@.wf(),
    {
        let mut acts: Vec<ClientAction> = Vec::new();
        if self.state == ClientState::ConnectingToServer {
            self.state = ClientState::InGame;
            acts.push(ClientAction::Show(ClientOutput::JoiningAs { name: name.clone() }));
            acts.push(ClientAction::Send { message: ClientMessage::Join { name } });
        }
        acts
    }

    /// The transport reports the connection established: the client joins
    /// under a fresh random name and is in the game.
    pub fn on_connected(&mut self) -> (acts: Vec<ClientAction>)
        ensures
            final(self)@ == connected_view(old(self)@),
            old(self)@.state != ClientState::ConnectingToServer ==> acts@.len() == 0,
            old(self)@.state == ClientState::ConnectingToServer ==> {
                &&& acts@.len() == 2
                &&& acts@[1] matches ClientAction::Send { message: ClientMessage::Join { name } }
                &&& join_as_actions(old(self)@, name@, acts@)
                &&& name@.len() == USERNAME_LEN
                &&& forall|i: int| 0 <= i < name@.len() ==> is_alphanumeric(#[trigger] name@[i])
            },
            old(self)@.wf() ==> final(self)@.wf(),
    {
        if self.state == ClientState::ConnectingToServer {
            let name = random_username();
            self.join_as(name)
        } else {
            Vec::new()
        }
    }

    /// Handles one message from the server. Outside a game every message
    /// is reported and ignored.
    pub fn on_server_message(&mut self, m: ServerMessage) -> (acts: Vec<ClientAction>)
        ensures
            final(self)@ == server_message_view(old(self)@, m),
            server_message_actions(old(self)@, m, acts@),
            old(self)@.wf() ==> final(self)@.wf(),
    {
        let mut acts: Vec<ClientAction> = Vec::new();
        if self.state != ClientState::InGame {
            acts.push(ClientAction::Warn(ClientWarning::NotAcceptingMessages));
            proof {
                assert(acts@ =~= seq![ClientAction::Warn(ClientWarning::NotAcceptingMessages)]);
            }
            return acts;
        }
        match m {
            ServerMessage::ClientConnected { client_id, username } => {
                self.names.insert(client_id, username.clone());
                proof {
                    assert(names_view(self.names@) =~= old(self)@.names.insert(client_id, username@));
                }
                acts.push(ClientAction::Show(ClientOutput::Joined { username }));
            },
            ServerMessage::ClientDisconnected { client_id } => {
                match self.names.remove(&client_id) {
                    Some(username) => {
                        proof {
                            assert(names_view(self.names@) =~= old(self)@.names.remove(client_id));
                        }
                        acts.push(ClientAction::Show(ClientOutput::Left { username }));
                    },
                    None => {
                        proof {
                            assert(self.names@ =~= old(self).names@);
                            assert(names_view(self.names@) =~= old(self)@.names.remove(client_id));
                        }
                        acts.push(ClientAction::Warn(ClientWarning::UnknownDeparture { client_id }));
                        proof {
                            assert(acts@ =~= seq![ClientAction::Warn(ClientWarning::UnknownDeparture { client_id })]);
                        }
                    },
                }
            },
            ServerMessage::ChatMessage { client_id, message } => {
                match self.names.get(&client_id) {
                    Some(username) => {
                        if client_id != self.self_id {
                            acts.push(ClientAction::Show(ClientOutput::Chat { username: username.clone(), message }));
                        }
                    },
                    None => {
                        acts.push(ClientAction::Warn(ClientWarning::ChatFromUnknown { client_id }));
                        proof {
                            assert(acts@ =~= seq![ClientAction::Warn(ClientWarning::ChatFromUnknown { client_id })]);
                        }
                    },
                }
            },
            ServerMessage::InitClient { client_id, usernames } => {
                self.self_id = client_id;
                self.names = usernames;
            },
            ServerMessage::ServerStopping {  } => {
                self.leave();
                acts.push(ClientAction::CloseConnection);
                acts.push(ClientAction::Show(ClientOutput::Prompt));
                proof {
                    assert(acts@ =~= seq![ClientAction::CloseConnection, ClientAction::Show(ClientOutput::Prompt)]);
                }
            },
        }
        acts
    }

    /// The work to do before the process exits: a best-effort `Disconnect`
    /// while a connection is open.
    pub fn on_exit(&self) -> (acts: Vec<ClientAction>)
        ensures
            exit_actions(self@, acts@),
    {
        let mut acts: Vec<ClientAction> = Vec::new();
        if self.state == ClientState::InGame || self.state == ClientState::ConnectingToServer {
            acts.push(ClientAction::Send { message: ClientMessage::Disconnect {  } });
            acts.push(ClientAction::CloseConnection);
            proof {
                assert(acts@ =~= seq![
                    ClientAction::Send { message: ClientMessage::Disconnect {  } },
                    ClientAction::CloseConnection,
                ]);
            }
        }
        acts
    }
}

} // verus!
