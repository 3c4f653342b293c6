use port_forward::client::{control_read, Client, ControlStep, Error, LOCAL_HOST};
use port_forward::id::Id;

fn client() -> Client {
    Client::new(String::from("127.0.0.1:8077"), Id::from_bytes([0x11; 16]))
}

#[test]
fn local_services_are_dialed_on_loopback() {
    assert_eq!(LOCAL_HOST, "127.0.0.1");
}

#[test]
fn client_keeps_what_it_was_given() {
    let client = client();
    assert_eq!(client.server_addr(), "127.0.0.1:8077");
    assert_eq!(client.uuid(), Id::from_bytes([0x11; 16]));
}

#[test]
fn client_hello_is_first_connection() {
    let mut expected = vec![0u8];
    expected.extend_from_slice(&[0x11; 16]);
    assert_eq!(client().hello(), expected);
}

#[test]
fn closed_control_connection_ends_the_client() {
    assert_eq!(control_read(0, 0), Err(Error::MainConnectionClosed));
    assert_eq!(control_read(0, 0x80), Err(Error::MainConnectionClosed));
}

#[test]
fn new_tunnel_tag_asks_for_the_payload() {
    assert_eq!(control_read(1, 0x80), Ok(ControlStep::ReadNewTunnel));
}

#[test]
fn reserved_heartbeat_is_ignored() {
    assert_eq!(control_read(1, 0x81), Ok(ControlStep::Ignore));
}

#[test]
fn other_tags_end_the_client() {
    for tag in [0x00u8, 0x01, 0x02, 0x03, 0x7f, 0x82, 0xff] {
        assert_eq!(control_read(1, tag), Err(Error::UnknownMessageType(tag)));
    }
}

#[test]
fn dial_back_reads_port_and_session() {
    let mut payload = [0x77u8; 20];
    payload[..4].copy_from_slice(&[0x00, 0x00, 0x23, 0x28]);
    let dial = client().dial_back(&payload);
    assert_eq!(dial.client_port, 9000);
    assert_eq!(dial.session, Id::from_bytes([0x77; 16]));
    let mut frame = vec![0x01u8];
    frame.extend_from_slice(&[0x77; 16]);
    assert_eq!(dial.frame, frame);
}

#[test]
fn dial_back_reads_a_negative_port() {
    let mut payload = [0u8; 20];
    payload[..4].copy_from_slice(&[0xff, 0xff, 0xff, 0xff]);
    payload[19] = 5;
    let dial = client().dial_back(&payload);
    assert_eq!(dial.client_port, -1);
    assert_eq!(dial.session, Id::from_u128(5));
}
