//! The private side of the broker: the client's handshake, its reading of
//! the control connection, and the dial-back it owes for each new tunnel.

use crate::id::Id;
use crate::protocols::{
    decode_new_tunnel, encode_first_connection, encode_tunnel_connection, first_connection_frame,
    new_tunnel_fields, tunnel_connection_frame, MSG_NEW_TUNNEL, MSG_SERVER_BEAT,
};
use vstd::prelude::*;

verus! {

/// The address on which the client dials its own services.
pub const LOCAL_HOST: &'static str = "127.0.0.1";

/// What ends the client's control loop.
#[derive(Clone, Copy, Debug, PartialEq, Eq, Structural)]
pub enum Error {
    /// The server closed the control connection.
    MainConnectionClosed,
    /// The server sent a tag that is no message of the protocol.
    UnknownMessageType(u8),
}

/// What the client does after it has read a tag from the control connection.
#[derive(Clone, Copy, Debug, PartialEq, Eq, Structural)]
pub enum ControlStep {
    /// Read the twenty bytes of the message and hand them to
    /// `Client::dial_back`.
    ReadNewTunnel,
    /// The tag is reserved for a heartbeat: read the next tag.
    Ignore,
}

/// The client's rule for a read of `read_len` bytes, at most one, that gave
/// `tag`.
pub open spec fn control_step(read_len: usize, tag: u8) -> Result<ControlStep, Error> {
    if read_len == 0 {
        Err(Error::MainConnectionClosed)
    } else if tag == MSG_NEW_TUNNEL {
        Ok(ControlStep::ReadNewTunnel)
    } else if tag == MSG_SERVER_BEAT {
        Ok(ControlStep::Ignore)
    } else {
        Err(Error::UnknownMessageType(tag))
    }
}

/// Decides on a read of the control connection into a buffer of one byte:
/// `read_len` bytes were read, and the buffer then held `tag`.
pub fn control_read(read_len: usize, tag: u8) -> (step: Result<ControlStep, Error>)
    ensures
        step == control_step(read_len, tag),
{
    if read_len == 0 {
        Err(Error::MainConnectionClosed)
    } else if tag == MSG_NEW_TUNNEL {
        Ok(ControlStep::ReadNewTunnel)
    } else if tag == MSG_SERVER_BEAT {
        Ok(ControlStep::Ignore)
    } else {
        Err(Error::UnknownMessageType(tag))
    }
}

/// A dial-back that the client owes the server.
#[derive(Debug)]
pub struct DialBack {
    /// The local port to connect to, on the loopback address.
    pub client_port: i32,
    /// The session that the server announced.
    pub session: Id,
    /// The message to write first on the fresh connection to the server.
    pub frame: Vec<u8>,
}

/// A client: the server it dials and the identifier it presents.
#[derive(Debug)]
pub struct Client {
    server_addr: String,
    uuid: Id,
}

/// What a `Client` stands for.
pub ghost struct ClientView {
    pub server_addr: Seq<char>,
    pub uuid: u128,
}

impl View for Client {
    type V = ClientView;

    closed spec fn view(&self) -> ClientView {
        ClientView { server_addr: self.server_addr@, uuid: self.uuid@ }
    }
}

impl Client {
    /// A client of the server at `server_addr`, a `host:port` string, that
    /// presents `uuid`.
    pub fn new(server_addr: String, uuid: Id) -> (client: Client)
        ensures
            client@ == (ClientView { server_addr: server_addr@, uuid: uuid@ }),
    {
        Client { server_addr, uuid }
    }

    /// The address of the server.
    pub fn server_addr(&self) -> (server_addr: &str)
        ensures
            server_addr@ == self@.server_addr,
    {
        self.server_addr.as_str()
    }

    /// The identifier that the client presents.
    pub fn uuid(&self) -> (uuid: Id)
        ensures
            uuid@ == self@.uuid,
    {
        self.uuid
    }

    /// The message that opens the control connection.
    pub fn hello(&self) -> (frame: Vec<u8>)
        ensures
            frame@ == first_connection_frame(self@.uuid),
    {
        encode_first_connection(self.uuid)
    }

    /// Reads the twenty bytes that followed a `NEW_TUNNEL` tag: the local port
    /// to dial, the session, and the message that redeems the session on a
    /// fresh connection to the server.
    pub fn dial_back(&self, payload: &[u8; 20]) -> (dial: DialBack)
        ensures
            (dial.client_port, dial.session@) == new_tunnel_fields(payload@),
            dial.frame@ == tunnel_connection_frame(dial.session@),
    {
        let (client_port, session) = decode_new_tunnel(payload);
        DialBack { client_port, session, frame: encode_tunnel_connection(session) }
    }
}

} // verus!
