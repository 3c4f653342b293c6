//! The wire protocol: one tag byte, then fields of fixed width, all integers
//! most significant byte first.

use crate::endian::{
    be_bytes, be_value, i32_bits, i32_from_bits, lemma_be_bytes_len, lemma_be_value_of_bytes,
    lemma_pow256_values, read_i32_be, write_i32_be,
};
use crate::id::{be_id, Id};
use vstd::prelude::*;
use vstd::slice::slice_subrange;

verus! {

/// Client to server, first on a control connection: a user identifier follows.
pub const MSG_FIRST_CONNECTION: u8 = 0;

/// Client to server, first on a tunnel connection: a session identifier follows.
pub const MSG_TUNNEL_CONNECTION: u8 = 1;

/// Client to server, reserved for a heartbeat. Never sent, ignored on receipt.
pub const MSG_CLIENT_BEAT: u8 = 3;

/// Server to client: a local port and a session identifier follow.
pub const MSG_NEW_TUNNEL: u8 = 128;

/// Server to client, reserved for a heartbeat. Never sent, ignored on receipt.
pub const MSG_SERVER_BEAT: u8 = 129;

/// Bytes that follow the tag of a `NEW_TUNNEL` message.
pub const NEW_TUNNEL_PAYLOAD_LEN: usize = 20;

/// The `FIRST_CONNECTION` message of the user `uuid`.
pub open spec fn first_connection_frame(uuid: u128) -> Seq<u8> {
    seq![MSG_FIRST_CONNECTION] + be_bytes(uuid as nat, 16)
}

/// The `TUNNEL_CONNECTION` message that redeems `session`.
pub open spec fn tunnel_connection_frame(session: u128) -> Seq<u8> {
    seq![MSG_TUNNEL_CONNECTION] + be_bytes(session as nat, 16)
}

/// The `NEW_TUNNEL` message that asks for a dial-back to `client_port`.
pub open spec fn new_tunnel_frame(client_port: i32, session: u128) -> Seq<u8> {
    seq![MSG_NEW_TUNNEL] + be_bytes(i32_bits(client_port), 4) + be_bytes(session as nat, 16)
}

/// The port and the session that the twenty bytes after a `NEW_TUNNEL` tag carry.
pub open spec fn new_tunnel_fields(payload: Seq<u8>) -> (i32, u128) {
    (
        i32_from_bits(be_value(payload.subrange(0, 4))),
        be_value(payload.subrange(4, 20)) as u128,
    )
}

/// Appends `bytes` to `out`.
fn put(out: &mut Vec<u8>, bytes: &[u8])
    ensures
        final(out)@ == old(out)@ + bytes@,
{
    let mut i: usize = 0;
    while i < bytes.len()
        invariant
            i <= bytes@.len(),
            out@ == old(out)@ + bytes@.subrange(0, i as int),
        decreases bytes@.len() - i,
    {
        out.push(bytes[i]);
        i += 1;
    }
}

/// A tag followed by the sixteen bytes of an identifier.
fn tagged_id(tag: u8, id: Id) -> (frame: Vec<u8>)
    ensures
        frame@ == seq![tag] + be_bytes(id@ as nat, 16),
{
    let mut frame: Vec<u8> = Vec::new();
    frame.push(tag);
    let bytes = id.to_bytes();
    put(&mut frame, bytes.as_slice());
    frame
}

/// Encodes the message that opens a control connection.
pub fn encode_first_connection(uuid: Id) -> (frame: Vec<u8>)
    ensures
        frame@ == first_connection_frame(uuid@),
{
    tagged_id(MSG_FIRST_CONNECTION, uuid)
}

/// Encodes the message that opens a tunnel connection.
pub fn encode_tunnel_connection(session: Id) -> (frame: Vec<u8>)
    ensures
        frame@ == tunnel_connection_frame(session@),
{
    tagged_id(MSG_TUNNEL_CONNECTION, session)
}

/// Encodes the message that tells the client to dial back.
pub fn encode_new_tunnel(client_port: i32, session: Id) -> (frame: Vec<u8>)
    ensures
        frame@ == new_tunnel_frame(client_port, session@),
{
    let mut frame: Vec<u8> = Vec::new();
    frame.push(MSG_NEW_TUNNEL);
    let port = write_i32_be(client_port);
    put(&mut frame, port.as_slice());
    let id = session.to_bytes();
    put(&mut frame, id.as_slice());
    frame
}

/// Decodes the twenty bytes that follow the tag of a `NEW_TUNNEL` message.
pub fn decode_new_tunnel(payload: &[u8; 20]) -> (fields: (i32, Id))
    ensures
        (fields.0, fields.1@) == new_tunnel_fields(payload@),
{
    let bytes = payload.as_slice();
    let client_port = read_i32_be(bytes);
    let session = be_id(slice_subrange(bytes, 4, 20));
    (client_port, session)
}

/// Encoding a `NEW_TUNNEL` message and decoding what follows its tag gives
/// back the port and the session identifier.
pub proof fn lemma_new_tunnel_roundtrip(client_port: i32, session: u128)
    ensures
        new_tunnel_frame(client_port, session).len() == 1 + NEW_TUNNEL_PAYLOAD_LEN,
        new_tunnel_frame(client_port, session)[0] == MSG_NEW_TUNNEL,
        new_tunnel_fields(new_tunnel_frame(client_port, session).subrange(1, 21)) == (
            client_port,
            session,
        ),
{
    let port_bytes = be_bytes(i32_bits(client_port), 4);
    let id_bytes = be_bytes(session as nat, 16);
    let payload = new_tunnel_frame(client_port, session).subrange(1, 21);
    lemma_be_bytes_len(i32_bits(client_port), 4);
    lemma_be_bytes_len(session as nat, 16);
    assert(payload.subrange(0, 4) =~= port_bytes);
    assert(payload.subrange(4, 20) =~= id_bytes);
    lemma_pow256_values();
    lemma_be_value_of_bytes(i32_bits(client_port), 4);
    lemma_be_value_of_bytes(session as nat, 16);
}

/// The sixteen bytes after the tag of a handshake message spell the
/// identifier that was encoded.
pub proof fn lemma_handshake_roundtrip(id: u128)
    ensures
        first_connection_frame(id).len() == 17,
        first_connection_frame(id)[0] == MSG_FIRST_CONNECTION,
        be_value(first_connection_frame(id).subrange(1, 17)) == id,
        tunnel_connection_frame(id).len() == 17,
        tunnel_connection_frame(id)[0] == MSG_TUNNEL_CONNECTION,
        be_value(tunnel_connection_frame(id).subrange(1, 17)) == id,
{
    let id_bytes = be_bytes(id as nat, 16);
    lemma_be_bytes_len(id as nat, 16);
    assert(first_connection_frame(id).subrange(1, 17) =~= id_bytes);
    assert(tunnel_connection_frame(id).subrange(1, 17) =~= id_bytes);
    lemma_pow256_values();
    lemma_be_value_of_bytes(id as nat, 16);
}

} // verus!
