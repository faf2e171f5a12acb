use tuic::address::{IpAddress, SocketAddress};
use tuic::error::Error;
use tuic::server::{Server, Stage, Step, TransportError};

fn listen() -> SocketAddress {
    SocketAddress { ip: IpAddress::V4([127, 0, 0, 1]), port: 1080 }
}

fn open_server() -> Server {
    Server::new(listen(), None, 1500, None, None).ok().unwrap()
}

fn password_server() -> Server {
    Server::new(listen(), Some(true), 1500, Some(b"user".to_vec()), Some(b"pass".to_vec()))
        .ok()
        .unwrap()
}

fn sent(step: Step) -> (Vec<u8>, usize) {
    match step {
        Step::Send { bytes, consumed } => (bytes, consumed),
        _ => panic!("expected bytes to send"),
    }
}

fn sent_and_closed(step: Step) -> Vec<u8> {
    match step {
        Step::SendAndClose { bytes } => bytes,
        _ => panic!("expected a final write"),
    }
}

#[test]
fn connect_success() {
    let server = open_server();
    let mut conn = server.connection();
    assert!(matches!(conn.on_bytes(&[5, 1]), Step::NeedMore));
    assert_eq!(sent(conn.on_bytes(&[5, 1, 0])), (vec![5, 0], 3));
    assert!(!conn.may_relay());
    match conn.on_bytes(&[5, 1, 0, 1, 0x7f, 0, 0, 1, 0, 0x50]) {
        Step::Connect { target, consumed } => {
            assert_eq!(consumed, 10);
            assert!(matches!(target, tuic::address::Address::SocketAddress(s)
                if s.port == 80 && matches!(s.ip, IpAddress::V4([127, 0, 0, 1]))));
        }
        _ => panic!("expected a CONNECT"),
    }
    assert_eq!(conn.get_stage(), Stage::Connecting);
    assert_eq!(sent(conn.on_connect_result(Ok(()))), (vec![5, 0, 0, 1, 0, 0, 0, 0, 0, 0], 0));
    assert!(conn.may_relay());
}

#[test]
fn connect_failure_maps_reply_code() {
    let server = open_server();
    let mut conn = server.connection();
    sent(conn.on_bytes(&[5, 1, 0]));
    conn.on_bytes(&[5, 1, 0, 1, 1, 2, 3, 4, 0, 80]);
    let bytes = sent_and_closed(conn.on_connect_result(Err(TransportError::ConnectionRefused)));
    assert_eq!(bytes, vec![5, 5, 0, 1, 0, 0, 0, 0, 0, 0]);
    assert!(!conn.may_relay());
    let mut conn = server.connection();
    sent(conn.on_bytes(&[5, 1, 0]));
    conn.on_bytes(&[5, 1, 0, 1, 1, 2, 3, 4, 0, 80]);
    let bytes = sent_and_closed(conn.on_connect_result(Err(TransportError::ConnectionGuardLost)));
    assert_eq!(bytes[1], 1);
}

#[test]
fn password_failure() {
    let server = password_server();
    let mut conn = server.connection();
    assert_eq!(sent(conn.on_bytes(&[5, 1, 2])), (vec![5, 2], 3));
    let bytes = sent_and_closed(conn.on_bytes(&[1, 4, b'u', b's', b'e', b'r', 2, b'n', b'o']));
    assert_eq!(bytes, vec![1, 1]);
    assert_eq!(conn.get_stage(), Stage::Closed);
    assert!(!conn.may_relay());
}

#[test]
fn password_success() {
    let server = password_server();
    let mut conn = server.connection();
    sent(conn.on_bytes(&[5, 2, 0, 2]));
    let (bytes, n) = sent(conn.on_bytes(&[1, 4, b'u', b's', b'e', b'r', 4, b'p', b'a', b's', b's']));
    assert_eq!(bytes, vec![1, 0]);
    assert_eq!(n, 11);
    assert_eq!(conn.get_stage(), Stage::Requesting);
}

#[test]
fn no_acceptable_method() {
    let server = password_server();
    let mut conn = server.connection();
    assert_eq!(sent_and_closed(conn.on_bytes(&[5, 1, 0])), vec![5, 0xff]);
}

#[test]
fn bind_rejected() {
    let server = open_server();
    let mut conn = server.connection();
    sent(conn.on_bytes(&[5, 1, 0]));
    let bytes = sent_and_closed(conn.on_bytes(&[5, 2, 0, 1, 0, 0, 0, 0, 0, 0]));
    assert_eq!(&bytes[..2], &[5, 7]);
    assert_eq!(conn.get_stage(), Stage::Closed);
}

#[test]
fn associate_replies_bound_address() {
    let server = open_server();
    let mut conn = server.connection();
    sent(conn.on_bytes(&[5, 1, 0]));
    assert!(matches!(conn.on_bytes(&[5, 3, 0, 1, 0, 0, 0, 0, 0, 0]), Step::Associate { consumed: 10 }));
    let bound = SocketAddress { ip: IpAddress::V4([127, 0, 0, 1]), port: 40000 };
    let (bytes, _) = sent(conn.on_associated(Some(bound)));
    assert_eq!(bytes, vec![5, 0, 0, 1, 127, 0, 0, 1, 0x9c, 0x40]);
    assert!(conn.may_relay());
}

#[test]
fn malformed_greeting_closes() {
    let server = open_server();
    let mut conn = server.connection();
    assert!(matches!(conn.on_bytes(&[4, 1, 0]), Step::Close));
}

#[test]
fn one_credential_is_rejected() {
    assert!(matches!(
        Server::new(listen(), None, 1500, Some(b"u".to_vec()), None),
        Err(Error::InvalidSocks5Auth)
    ));
    assert!(matches!(
        Server::new(listen(), None, 1500, None, Some(b"p".to_vec())),
        Err(Error::InvalidSocks5Auth)
    ));
}

#[test]
fn assoc_ids_wrap() {
    let mut server = open_server();
    assert_eq!(server.next_assoc_id(), 0);
    assert_eq!(server.next_assoc_id(), 1);
    for _ in 2..0x10000u32 {
        server.next_assoc_id();
    }
    assert_eq!(server.next_assoc_id(), 0);
}

#[test]
fn listener_setup_follows_dual_stack() {
    let s = password_server().listener_setup();
    assert!(!s.ipv6);
    assert_eq!(s.only_v6, Some(false));
    assert_eq!(open_server().listener_setup().only_v6, None);
}
