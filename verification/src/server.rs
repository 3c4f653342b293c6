//! The public side of the broker: the user table, the admission of control
//! connections, and the table of external connections that wait for the
//! client's dial-back.
//!
//! The server keeps no socket of its own. The connection type `C` stands for
//! whatever the driving program holds for an accepted external connection; the
//! server stores it under a session identifier and hands it back, once, to
//! the dial-back that presents the identifier.

use crate::id::Id;
use crate::protocols::{
    encode_new_tunnel, new_tunnel_frame, MSG_FIRST_CONNECTION, MSG_TUNNEL_CONNECTION,
};
use rand::Rng;
use std::collections::{HashMap, HashSet};
use vstd::prelude::*;

verus! {

broadcast use vstd::std_specs::hash::group_hash_axioms;

/// The control port of a server that was given none.
pub const DEFAULT_SERVER_PORT: i32 = 8077;

/// How many accepted connections may wait for the control loop of one user
/// before the user's listeners stop accepting.
pub const NEW_TUNNEL_QUEUE: usize = 16;

/// The address that the control port and the public ports are bound on: all
/// interfaces.
pub const LISTEN_HOST: &'static str = "0.0.0.0";

/// What can end a connection's handshake on the server.
#[derive(Clone, Copy, Debug, PartialEq, Eq, Structural)]
pub enum Error {
    /// The identifier already has a control connection.
    ConnectionDuplicate(Id),
    /// The identifier is not in the user table.
    UnknownUser(Id),
    /// The first byte of the connection is no handshake tag.
    UnknownMessageType(u8),
    /// No external connection waits under the session identifier.
    UnknownSessionId(Id),
}

/// A user and the ports the user may expose, as `(client_port, server_port)`.
#[derive(Debug)]
pub struct User {
    uuid: Id,
    ports: Vec<(i32, i32)>,
}

/// What a `User` stands for.
pub ghost struct UserView {
    pub uuid: u128,
    pub ports: Seq<(i32, i32)>,
}

impl View for User {
    type V = UserView;

    closed spec fn view(&self) -> UserView {
        UserView { uuid: self.uuid@, ports: self.ports@ }
    }
}

impl User {
    /// A user with no port pair yet.
    pub fn new(uuid: Id) -> (user: User)
        ensures
            user@.uuid == uuid@,
            user@.ports == Seq::<(i32, i32)>::empty(),
    {
        User { uuid, ports: Vec::new() }
    }

    /// Appends a port pair to the user's list.
    pub fn add_port(&mut self, client_port: i32, server_port: i32)
        ensures
            final(self)@.uuid == old(self)@.uuid,
            final(self)@.ports == old(self)@.ports.push((client_port, server_port)),
    {
        self.ports.push((client_port, server_port));
    }

    /// The user's identifier.
    pub fn uuid(&self) -> (uuid: Id)
        ensures
            uuid@ == self@.uuid,
    {
        self.uuid
    }

    /// The user's port pairs, in the order they were added.
    pub fn ports(&self) -> (ports: &Vec<(i32, i32)>)
        ensures
            ports@ == self@.ports,
    {
        &self.ports
    }
}

/// Which handshake a fresh connection begins.
#[derive(Clone, Copy, Debug, PartialEq, Eq, Structural)]
pub enum Handshake {
    /// A control connection: sixteen bytes of user identifier follow.
    First,
    /// A dial-back: sixteen bytes of session identifier follow.
    Tunnel,
}

/// The handshake that the first byte of a connection announces.
pub open spec fn handshake_of(tag: u8) -> Result<Handshake, Error> {
    if tag == MSG_FIRST_CONNECTION {
        Ok(Handshake::First)
    } else if tag == MSG_TUNNEL_CONNECTION {
        Ok(Handshake::Tunnel)
    } else {
        Err(Error::UnknownMessageType(tag))
    }
}

/// Reads the first byte of a connection.
pub fn dispatch(tag: u8) -> (handshake: Result<Handshake, Error>)
    ensures
        handshake == handshake_of(tag),
{
    if tag == MSG_FIRST_CONNECTION {
        Ok(Handshake::First)
    } else if tag == MSG_TUNNEL_CONNECTION {
        Ok(Handshake::Tunnel)
    } else {
        Err(Error::UnknownMessageType(tag))
    }
}

/// What the control loop does after a read on the control connection.
#[derive(Clone, Copy, Debug, PartialEq, Eq, Structural)]
pub enum ControlAction {
    /// Bytes arrived. They are reserved for a heartbeat and are ignored.
    Continue,
    /// The client closed: tell the user's listeners to stop and leave the loop.
    Shutdown,
}

/// Decides on a read of `read_len` bytes from the control connection.
pub fn control_read(read_len: usize) -> (action: ControlAction)
    ensures
        action == if read_len == 0 {
            ControlAction::Shutdown
        } else {
            ControlAction::Continue
        },
{
    if read_len == 0 {
        ControlAction::Shutdown
    } else {
        ControlAction::Continue
    }
}

/// What happens to a listener on a public port.
#[derive(Clone, Copy, Debug, PartialEq, Eq, Structural)]
pub enum ListenerEvent {
    /// An external connection was accepted.
    Accepted,
    /// Accepting failed.
    AcceptFailed,
    /// The control loop no longer takes new tunnels.
    QueueClosed,
    /// The user's control connection closed.
    Shutdown,
}

/// What a listener on a public port does next.
#[derive(Clone, Copy, Debug, PartialEq, Eq, Structural)]
pub enum ListenerAction {
    /// Hand the accepted connection to the control loop, with this client
    /// port, and go on accepting.
    Publish(i32),
    /// Close the listening socket and end without an error.
    Stop,
    /// Close the listening socket and report the failure.
    Fail,
}

/// The listener's rule.
pub open spec fn listener_action(client_port: i32, event: ListenerEvent) -> ListenerAction {
    match event {
        ListenerEvent::Accepted => ListenerAction::Publish(client_port),
        ListenerEvent::AcceptFailed => ListenerAction::Fail,
        ListenerEvent::QueueClosed => ListenerAction::Stop,
        ListenerEvent::Shutdown => ListenerAction::Stop,
    }
}

/// Decides what the listener that serves `client_port` does on `event`.
pub fn listener_step(client_port: i32, event: ListenerEvent) -> (action: ListenerAction)
    ensures
        action == listener_action(client_port, event),
{
    match event {
        ListenerEvent::Accepted => ListenerAction::Publish(client_port),
        ListenerEvent::AcceptFailed => ListenerAction::Fail,
        ListenerEvent::QueueClosed => ListenerAction::Stop,
        ListenerEvent::Shutdown => ListenerAction::Stop,
    }
}

/// A tunnel that was announced to the client.
pub struct NewTunnel<C> {
    /// The identifier under which the external connection waits.
    pub session: Id,
    /// The `NEW_TUNNEL` message to write on the control connection.
    pub frame: Vec<u8>,
    /// The connection that waited under the same identifier before, if any.
    pub displaced: Option<C>,
}

/// The state of a server.
#[derive(Debug)]
pub struct Server<C> {
    server_port: i32,
    users: HashMap<u128, User>,
    online_users: HashSet<u128>,
    waiting_tunnel: HashMap<u128, C>,
}

/// What a `Server` stands for.
#[verifier::ext_equal]
pub ghost struct ServerView<C> {
    /// The control port.
    pub server_port: i32,
    /// The port pairs of each configured user.
    pub users: Map<u128, Seq<(i32, i32)>>,
    /// The users that hold a control connection.
    pub online_users: Set<u128>,
    /// The external connections that wait for a dial-back, by session.
    pub waiting_tunnel: Map<u128, C>,
}

impl<C> ServerView<C> {
    /// The answer to a control connection that presents `uuid`.
    pub open spec fn admission(self, uuid: Id) -> Result<Seq<(i32, i32)>, Error> {
        if !self.users.contains_key(uuid@) {
            Err(Error::UnknownUser(uuid))
        } else if self.online_users.contains(uuid@) {
            Err(Error::ConnectionDuplicate(uuid))
        } else {
            Ok(self.users[uuid@])
        }
    }

    /// The state after a control connection presented `uuid`.
    pub open spec fn admitted(self, uuid: Id) -> ServerView<C> {
        if self.admission(uuid) is Ok {
            ServerView { online_users: self.online_users.insert(uuid@), ..self }
        } else {
            self
        }
    }

    /// The state after the control connection of `uuid` ended.
    pub open spec fn disconnected(self, uuid: Id) -> ServerView<C> {
        ServerView { online_users: self.online_users.remove(uuid@), ..self }
    }

    /// The state after `connection` was put to wait under `session`.
    pub open spec fn registered(self, session: Id, connection: C) -> ServerView<C> {
        ServerView { waiting_tunnel: self.waiting_tunnel.insert(session@, connection), ..self }
    }

    /// The answer to a dial-back that presents `session`.
    pub open spec fn redemption(self, session: Id) -> Result<C, Error> {
        if self.waiting_tunnel.contains_key(session@) {
            Ok(self.waiting_tunnel[session@])
        } else {
            Err(Error::UnknownSessionId(session))
        }
    }

    /// The state after a dial-back presented `session`.
    pub open spec fn redeemed(self, session: Id) -> ServerView<C> {
        ServerView { waiting_tunnel: self.waiting_tunnel.remove(session@), ..self }
    }
}

/// `rand::thread_rng().gen::<[u8; 16]>()`: sixteen bytes from the thread's
/// generator.
///
/// Trusted, with nothing claimed of the bytes: each call may give others.
#[verifier::external_body]
fn random_session_bytes() -> (bytes: [u8; 16]) {
    rand::thread_rng().gen()
}

impl<C> View for Server<C> {
    type V = ServerView<C>;

    closed spec fn view(&self) -> ServerView<C> {
        ServerView {
            server_port: self.server_port,
            users: Map::new(
                |k: u128| self.users@.contains_key(k),
                |k: u128| self.users@[k]@.ports,
            ),
            online_users: self.online_users@,
            waiting_tunnel: self.waiting_tunnel@,
        }
    }
}

impl<C> Server<C> {
    /// A server on the default control port, with no user.
    pub fn new() -> (server: Server<C>)
        ensures
            server@ == (ServerView::<C> {
                server_port: DEFAULT_SERVER_PORT,
                users: Map::empty(),
                online_users: Set::empty(),
                waiting_tunnel: Map::empty(),
            }),
    {
        Server {
            server_port: DEFAULT_SERVER_PORT,
            users: HashMap::new(),
            online_users: HashSet::new(),
            waiting_tunnel: HashMap::new(),
        }
    }

    /// Sets the control port.
    pub fn set_port(&mut self, port: i32)
        ensures
            final(self)@ == (ServerView { server_port: port, ..old(self)@ }),
    {
        self.server_port = port;
    }

    /// The control port.
    pub fn port(&self) -> (port: i32)
        ensures
            port == self@.server_port,
    {
        self.server_port
    }

    /// Files `user` under its identifier, in place of an earlier user with
    /// the same identifier.
    pub fn add_user(&mut self, user: User)
        ensures
            final(self)@ == (ServerView {
                users: old(self)@.users.insert(user@.uuid, user@.ports),
                ..old(self)@
            }),
    {
        let key = user.uuid.as_u128();
        self.users.insert(key, user);
    }

    /// Files the users of a configuration, in their order.
    pub fn load_users(&mut self, users: Vec<User>)
        ensures
            final(self)@ == old(self)@.add_users(users@.map_values(|user: User| user@)),
    {
        let ghost entries = users@.map_values(|user: User| user@);
        let ghost start = self@;
        for user in it: users
            invariant
                entries == it.seq().map_values(|user: User| user@),
                self@ == start.add_users(entries.subrange(0, it.index() as int)),
        {
            proof {
                let before = entries.subrange(0, it.index() as int);
                let after = entries.subrange(0, it.index() + 1);
                assert(after.drop_last() =~= before);
            }
            self.add_user(user);
        }
        assert(entries.subrange(0, entries.len() as int) =~= entries);
    }

    /// Whether `uuid` holds a control connection.
    pub fn is_online(&self, uuid: Id) -> (online: bool)
        ensures
            online == self@.online_users.contains(uuid@),
    {
        let key = uuid.as_u128();
        self.online_users.contains(&key)
    }

    /// Whether an external connection waits under `session`.
    pub fn is_waiting(&self, session: Id) -> (waiting: bool)
        ensures
            waiting == self@.waiting_tunnel.contains_key(session@),
    {
        let key = session.as_u128();
        self.waiting_tunnel.contains_key(&key)
    }

    /// Answers a control connection that presents `uuid`.
    ///
    /// An unknown identifier and one that is online already are refused, and
    /// nothing changes. Otherwise the user is online from now on, and the
    /// result lists the port pairs to listen for, in configuration order.
    pub fn connect(&mut self, uuid: Id) -> (ports: Result<Vec<(i32, i32)>, Error>)
        ensures
            final(self)@ == old(self)@.admitted(uuid),
            match ports {
                Ok(ports) => old(self)@.admission(uuid) == Ok::<Seq<(i32, i32)>, Error>(ports@),
                Err(e) => old(self)@.admission(uuid) == Err::<Seq<(i32, i32)>, Error>(e)
                    && final(self)@ == old(self)@,
            },
    {
        let key = uuid.as_u128();
        let ports = match self.users.get(&key) {
            None => {
                return Err(Error::UnknownUser(uuid));
            },
            Some(user) => copy_ports(&user.ports),
        };
        if self.online_users.insert(key) {
            Ok(ports)
        } else {
            Err(Error::ConnectionDuplicate(uuid))
        }
    }

    /// Ends the control connection of `uuid`: the user is offline from now
    /// on. Says whether the user was online.
    ///
    /// To be called when the control loop has ended, for whatever reason, and
    /// the user's listeners have released their ports.
    pub fn disconnect(&mut self, uuid: Id) -> (was_online: bool)
        ensures
            final(self)@ == old(self)@.disconnected(uuid),
            was_online == old(self)@.online_users.contains(uuid@),
    {
        let key = uuid.as_u128();
        self.online_users.remove(&key)
    }

    /// Puts `connection` to wait under `session` and encodes the message that
    /// tells the client to dial back to `client_port`.
    pub fn register_tunnel(&mut self, session: Id, client_port: i32, connection: C) -> (tunnel:
        NewTunnel<C>)
        ensures
            final(self)@ == old(self)@.registered(session, connection),
            tunnel.session == session,
            tunnel.frame@ == new_tunnel_frame(client_port, session@),
            tunnel.displaced == match old(self)@.redemption(session) {
                Ok(earlier) => Some(earlier),
                Err(_) => None,
            },
    {
        let frame = encode_new_tunnel(client_port, session);
        let displaced = self.waiting_tunnel.insert(session.as_u128(), connection);
        NewTunnel { session, frame, displaced }
    }

    /// Takes an accepted external connection: draws a session identifier,
    /// puts the connection to wait under it, and encodes the message that
    /// tells the client to dial back to `client_port`.
    pub fn open_tunnel(&mut self, client_port: i32, connection: C) -> (tunnel: NewTunnel<C>)
        ensures
            final(self)@ == old(self)@.registered(tunnel.session, connection),
            tunnel.frame@ == new_tunnel_frame(client_port, tunnel.session@),
            tunnel.displaced == match old(self)@.redemption(tunnel.session) {
                Ok(earlier) => Some(earlier),
                Err(_) => None,
            },
    {
        let session = Id::from_bytes(random_session_bytes());
        self.register_tunnel(session, client_port, connection)
    }

    /// Answers a dial-back that presents `session`: hands out the external
    /// connection that waits under it, which then waits no longer. Where
    /// none waits, the dial-back is refused and nothing changes.
    pub fn redeem(&mut self, session: Id) -> (connection: Result<C, Error>)
        ensures
            connection == old(self)@.redemption(session),
            final(self)@ == old(self)@.redeemed(session),
            connection is Err ==> final(self)@ == old(self)@,
    {
        let key = session.as_u128();
        match self.waiting_tunnel.remove(&key) {
            Some(connection) => Ok(connection),
            None => {
                Err(Error::UnknownSessionId(session))
            },
        }
    }
}

/// A copy of a list of port pairs.
fn copy_ports(ports: &Vec<(i32, i32)>) -> (copy: Vec<(i32, i32)>)
    ensures
        copy@ == ports@,
{
    let mut copy: Vec<(i32, i32)> = Vec::new();
    let mut i: usize = 0;
    while i < ports.len()
        invariant
            i <= ports@.len(),
            copy@ == ports@.subrange(0, i as int),
        decreases ports@.len() - i,
    {
        copy.push(ports[i]);
        i += 1;
    }
    copy
}

} // verus!
