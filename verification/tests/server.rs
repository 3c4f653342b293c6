use port_forward::client::{control_read as client_read, Client, ControlStep};
use port_forward::id::Id;
use port_forward::server::{
    control_read, dispatch, listener_step, ControlAction, Error, Handshake, ListenerAction,
    ListenerEvent, Server, User, DEFAULT_SERVER_PORT, LISTEN_HOST, NEW_TUNNEL_QUEUE,
};

fn user_u() -> Id {
    Id::from_bytes([0x11; 16])
}

fn one_user_server() -> Server<&'static str> {
    let mut user = User::new(user_u());
    user.add_port(9000, 18000);
    let mut server = Server::new();
    server.add_user(user);
    server
}

#[test]
fn user_keeps_ports_in_order() {
    let mut user = User::new(user_u());
    assert_eq!(user.uuid(), user_u());
    assert!(user.ports().is_empty());
    user.add_port(9000, 18000);
    user.add_port(9001, 18001);
    user.add_port(9000, 18000);
    assert_eq!(user.ports(), &vec![(9000, 18000), (9001, 18001), (9000, 18000)]);
    assert_eq!(user.uuid(), user_u());
}

#[test]
fn server_port_defaults_and_can_be_set() {
    let mut server: Server<u8> = Server::new();
    assert_eq!(DEFAULT_SERVER_PORT, 8077);
    assert_eq!(server.port(), 8077);
    server.set_port(9999);
    assert_eq!(server.port(), 9999);
    assert!(!server.is_online(user_u()));
    assert!(!server.is_waiting(user_u()));
}

#[test]
fn server_constants() {
    assert_eq!(LISTEN_HOST, "0.0.0.0");
    assert_eq!(NEW_TUNNEL_QUEUE, 16);
    assert_eq!(DEFAULT_SERVER_PORT, 8077);
}

#[test]
fn dispatch_reads_the_first_byte() {
    assert_eq!(dispatch(0x00), Ok(Handshake::First));
    assert_eq!(dispatch(0x01), Ok(Handshake::Tunnel));
    assert_eq!(dispatch(0x02), Err(Error::UnknownMessageType(0x02)));
    assert_eq!(dispatch(0x03), Err(Error::UnknownMessageType(0x03)));
    assert_eq!(dispatch(0x80), Err(Error::UnknownMessageType(0x80)));
    assert_eq!(dispatch(0x81), Err(Error::UnknownMessageType(0x81)));
    assert_eq!(dispatch(0xff), Err(Error::UnknownMessageType(0xff)));
}

#[test]
fn control_read_of_nothing_shuts_down() {
    assert_eq!(control_read(0), ControlAction::Shutdown);
    assert_eq!(control_read(1), ControlAction::Continue);
    assert_eq!(control_read(usize::MAX), ControlAction::Continue);
}

#[test]
fn listener_publishes_until_told_to_stop() {
    assert_eq!(listener_step(9000, ListenerEvent::Accepted), ListenerAction::Publish(9000));
    assert_eq!(listener_step(-5, ListenerEvent::Accepted), ListenerAction::Publish(-5));
    assert_eq!(listener_step(9000, ListenerEvent::Shutdown), ListenerAction::Stop);
    assert_eq!(listener_step(9000, ListenerEvent::QueueClosed), ListenerAction::Stop);
    assert_eq!(listener_step(9000, ListenerEvent::AcceptFailed), ListenerAction::Fail);
}

#[test]
fn happy_path() {
    let mut server = one_user_server();
    let client = Client::new(String::from("example.org:8077"), user_u());

    // The client opens the control connection.
    let hello = client.hello();
    let mut expected = vec![0x00u8];
    expected.extend_from_slice(&[0x11; 16]);
    assert_eq!(hello, expected);
    assert_eq!(dispatch(hello[0]), Ok(Handshake::First));
    let uuid = Id::from_slice(&hello[1..]).unwrap();
    assert_eq!(server.connect(uuid), Ok(vec![(9000, 18000)]));
    assert!(server.is_online(user_u()));

    // An external peer connects to the public port.
    assert_eq!(listener_step(9000, ListenerEvent::Accepted), ListenerAction::Publish(9000));
    let tunnel = server.open_tunnel(9000, "HELLO\n");
    assert!(tunnel.displaced.is_none());
    assert!(server.is_waiting(tunnel.session));
    assert_eq!(tunnel.frame.len(), 21);
    assert_eq!(&tunnel.frame[..5], &[0x80, 0x00, 0x00, 0x23, 0x28]);
    assert_eq!(&tunnel.frame[5..], &tunnel.session.to_bytes());

    // The client reads the announcement and dials back.
    assert_eq!(client_read(1, tunnel.frame[0]), Ok(ControlStep::ReadNewTunnel));
    let mut payload = [0u8; 20];
    payload.copy_from_slice(&tunnel.frame[1..]);
    let dial = client.dial_back(&payload);
    assert_eq!(dial.client_port, 9000);
    assert_eq!(dial.session, tunnel.session);
    assert_eq!(dispatch(dial.frame[0]), Ok(Handshake::Tunnel));
    let session = Id::from_slice(&dial.frame[1..]).unwrap();

    // The server pairs the dial-back with the external connection.
    assert_eq!(server.redeem(session), Ok("HELLO\n"));
    assert!(!server.is_waiting(session));
    assert!(server.is_online(user_u()));
}

#[test]
fn duplicate_rejection() {
    let mut server = one_user_server();
    assert_eq!(server.connect(user_u()), Ok(vec![(9000, 18000)]));
    assert_eq!(server.connect(user_u()), Err(Error::ConnectionDuplicate(user_u())));
    assert_eq!(server.connect(user_u()), Err(Error::ConnectionDuplicate(user_u())));
    // The first connection is still online and still served.
    assert!(server.is_online(user_u()));
    let tunnel = server.open_tunnel(9000, "external");
    assert_eq!(server.redeem(tunnel.session), Ok("external"));
}

#[test]
fn unknown_user() {
    let mut server = one_user_server();
    let stranger = Id::from_bytes([0x22; 16]);
    assert_eq!(server.connect(stranger), Err(Error::UnknownUser(stranger)));
    assert!(!server.is_online(stranger));
    assert!(!server.is_online(user_u()));
    // A later connection of the configured user is not disturbed.
    assert_eq!(server.connect(user_u()), Ok(vec![(9000, 18000)]));
    assert_eq!(server.connect(stranger), Err(Error::UnknownUser(stranger)));
}

#[test]
fn unknown_user_is_told_before_duplicate() {
    let mut server: Server<u8> = Server::new();
    let stranger = Id::from_bytes([0x22; 16]);
    assert_eq!(server.connect(stranger), Err(Error::UnknownUser(stranger)));
    assert_eq!(server.connect(stranger), Err(Error::UnknownUser(stranger)));
}

#[test]
fn bad_session_id() {
    let mut server = one_user_server();
    assert_eq!(server.connect(user_u()), Ok(vec![(9000, 18000)]));
    let waiting = Id::from_bytes([0x33; 16]);
    let tunnel = server.register_tunnel(waiting, 9000, "external");
    assert!(tunnel.displaced.is_none());
    let guess = Id::from_bytes([0x44; 16]);
    assert_eq!(server.redeem(guess), Err(Error::UnknownSessionId(guess)));
    // No pending entry was consumed.
    assert!(server.is_waiting(waiting));
    assert_eq!(server.redeem(waiting), Ok("external"));
}

#[test]
fn session_is_redeemed_once() {
    let mut server = one_user_server();
    let session = Id::from_u128(7);
    server.register_tunnel(session, 9000, "external");
    assert_eq!(server.redeem(session), Ok("external"));
    assert_eq!(server.redeem(session), Err(Error::UnknownSessionId(session)));
    assert!(!server.is_waiting(session));
}

#[test]
fn client_disconnect() {
    let mut server = one_user_server();
    assert_eq!(server.connect(user_u()), Ok(vec![(9000, 18000)]));
    let tunnel = server.open_tunnel(9000, "in flight");

    // The client closes the control socket.
    assert_eq!(control_read(0), ControlAction::Shutdown);
    assert_eq!(listener_step(9000, ListenerEvent::Shutdown), ListenerAction::Stop);
    assert!(server.disconnect(user_u()));
    assert!(!server.is_online(user_u()));
    assert!(!server.disconnect(user_u()));

    // What was established before is left alone.
    assert_eq!(server.redeem(tunnel.session), Ok("in flight"));

    // The identifier is admitted again.
    assert_eq!(server.connect(user_u()), Ok(vec![(9000, 18000)]));
}

#[test]
fn multi_port_fan_out() {
    let mut user = User::new(user_u());
    user.add_port(9000, 18000);
    user.add_port(9001, 18001);
    let mut server: Server<&'static str> = Server::new();
    server.add_user(user);
    assert_eq!(server.connect(user_u()), Ok(vec![(9000, 18000), (9001, 18001)]));

    let first = server.register_tunnel(Id::from_u128(1), 9000, "to 18000");
    let second = server.register_tunnel(Id::from_u128(2), 9001, "to 18001");
    assert_eq!(&first.frame[..5], &[0x80, 0x00, 0x00, 0x23, 0x28]);
    assert_eq!(&second.frame[..5], &[0x80, 0x00, 0x00, 0x23, 0x29]);
    assert_ne!(first.session, second.session);

    // The dial-backs arrive in the other order; each gets its own connection.
    assert_eq!(server.redeem(second.session), Ok("to 18001"));
    assert_eq!(server.redeem(first.session), Ok("to 18000"));
}

#[test]
fn register_tunnel_writes_the_frame_and_hands_back_what_it_displaces() {
    let mut server: Server<u32> = Server::new();
    let session = Id::from_bytes([0xab; 16]);
    let tunnel = server.register_tunnel(session, 18000, 1);
    assert_eq!(tunnel.session, session);
    let mut expected = vec![0x80u8, 0x00, 0x00, 0x46, 0x50];
    expected.extend_from_slice(&[0xab; 16]);
    assert_eq!(tunnel.frame, expected);
    assert_eq!(tunnel.displaced, None);
    let again = server.register_tunnel(session, 18000, 2);
    assert_eq!(again.displaced, Some(1));
    assert_eq!(server.redeem(session), Ok(2));
}

#[test]
fn open_tunnel_draws_fresh_sessions() {
    let mut server: Server<usize> = Server::new();
    let mut sessions = Vec::new();
    for i in 0..64 {
        let tunnel = server.open_tunnel(9000, i);
        assert_eq!(tunnel.displaced, None);
        assert!(!sessions.contains(&tunnel.session));
        sessions.push(tunnel.session);
    }
    for (i, session) in sessions.iter().enumerate() {
        assert_eq!(server.redeem(*session), Ok(i));
    }
}

#[test]
fn add_user_replaces_a_user_with_the_same_identifier() {
    let mut server: Server<u8> = Server::new();
    let mut old = User::new(user_u());
    old.add_port(1, 2);
    server.add_user(old);
    let mut new = User::new(user_u());
    new.add_port(3, 4);
    new.add_port(5, 6);
    server.add_user(new);
    assert_eq!(server.connect(user_u()), Ok(vec![(3, 4), (5, 6)]));
}

#[test]
fn users_are_admitted_independently() {
    let mut server: Server<u8> = Server::new();
    let other = Id::from_bytes([0x55; 16]);
    let mut a = User::new(user_u());
    a.add_port(9000, 18000);
    server.add_user(a);
    server.add_user(User::new(other));
    assert_eq!(server.connect(other), Ok(vec![]));
    assert_eq!(server.connect(user_u()), Ok(vec![(9000, 18000)]));
    assert!(server.disconnect(other));
    assert!(server.is_online(user_u()));
    assert_eq!(server.connect(user_u()), Err(Error::ConnectionDuplicate(user_u())));
    assert_eq!(server.connect(other), Ok(vec![]));
}

#[test]
fn user_table_is_independent_of_insertion_order() {
    let other = Id::from_bytes([0x55; 16]);
    let build = |first_u: bool| {
        let mut server: Server<u8> = Server::new();
        let mut a = User::new(user_u());
        a.add_port(9000, 18000);
        let mut b = User::new(other);
        b.add_port(9001, 18001);
        if first_u {
            server.add_user(a);
            server.add_user(b);
        } else {
            server.add_user(b);
            server.add_user(a);
        }
        server
    };
    let mut one = build(true);
    let mut two = build(false);
    assert_eq!(one.connect(user_u()), two.connect(user_u()));
    assert_eq!(one.connect(other), two.connect(other));
}

#[test]
fn load_users_files_the_configuration_in_order() {
    let other = Id::from_bytes([0x55; 16]);
    let mut first = User::new(user_u());
    first.add_port(1, 2);
    let mut second = User::new(other);
    second.add_port(9001, 18001);
    let mut third = User::new(user_u());
    third.add_port(9000, 18000);
    third.add_port(9002, 18002);
    let mut server: Server<u8> = Server::new();
    server.load_users(vec![first, second, third]);
    // The last entry of an identifier is the one that counts.
    assert_eq!(server.connect(user_u()), Ok(vec![(9000, 18000), (9002, 18002)]));
    assert_eq!(server.connect(other), Ok(vec![(9001, 18001)]));
    assert_eq!(server.port(), 8077);
}

#[test]
fn load_users_of_nothing_changes_nothing() {
    let mut server = one_user_server();
    server.load_users(Vec::new());
    assert_eq!(server.connect(user_u()), Ok(vec![(9000, 18000)]));
}
