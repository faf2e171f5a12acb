use tuic::address::{Address, IpAddress, SocketAddress};
use tuic::authenticated::Authenticated;
use tuic::codec::UdpHeader;
use tuic::error::Error;
use tuic::udp_session::{SessionTable, UdpSession};
use uuid::Uuid;

fn v4(o: [u8; 4], port: u16) -> SocketAddress {
    SocketAddress { ip: IpAddress::V4(o), port }
}

fn datagram(frag: u8, dst: SocketAddress, payload: &[u8]) -> Vec<u8> {
    let mut d = UdpHeader { frag, address: Address::SocketAddress(dst) }.encode();
    d.extend_from_slice(payload);
    d
}

fn session() -> UdpSession {
    UdpSession::new(7, v4([127, 0, 0, 1], 5000), 1500)
}

#[test]
fn associate_source_lock() {
    let mut s = session();
    let x = v4([127, 0, 0, 1], 6000);
    let y = v4([127, 0, 0, 2], 6000);
    let d1 = v4([1, 1, 1, 1], 53);
    let d2 = v4([8, 8, 8, 8], 53);
    let mut relayed = Vec::new();
    for (src, dst) in [(x, d1), (y, d1), (x, d2)] {
        if let Ok((payload, to)) = s.recv(src, &datagram(0, dst, b"q")) {
            assert_eq!(payload, b"q".to_vec());
            relayed.push(to);
        }
    }
    assert_eq!(relayed.len(), 2);
    assert!(matches!(relayed[0], Address::SocketAddress(a) if a.same_as(&d1)));
    assert!(matches!(relayed[1], Address::SocketAddress(a) if a.same_as(&d2)));
    assert!(s.get_peer().unwrap().same_as(&x));
    assert!(matches!(s.recv(y, &datagram(0, d1, b"q")), Err(Error::SourceAddressMismatch(a)) if a.same_as(&y)));
}

#[test]
fn fragmented_udp_rejected() {
    let mut s = session();
    let x = v4([127, 0, 0, 1], 6000);
    let d = v4([1, 1, 1, 1], 53);
    assert!(matches!(s.recv(x, &datagram(1, d, b"a")), Err(Error::FragmentedUdp)));
    assert!(s.get_peer().unwrap().same_as(&x));
    let (payload, _) = s.recv(x, &datagram(0, d, b"b")).ok().unwrap();
    assert_eq!(payload, b"b".to_vec());
}

#[test]
fn mapped_source_matches_locked_ipv4() {
    let mut s = session();
    let x = v4([10, 0, 0, 1], 6000);
    let d = v4([1, 1, 1, 1], 53);
    s.recv(x, &datagram(0, d, b"a")).ok().unwrap();
    let mut o = [0u8; 16];
    o[10] = 0xff;
    o[11] = 0xff;
    o[12] = 10;
    o[15] = 1;
    let mapped = SocketAddress { ip: IpAddress::V6(o), port: 6000 };
    assert!(s.recv(mapped, &datagram(0, d, b"b")).is_ok());
}

#[test]
fn malformed_datagram_does_not_lock() {
    let mut s = session();
    let x = v4([127, 0, 0, 1], 6000);
    assert!(matches!(s.recv(x, &[0, 0, 0, 9]), Err(Error::Decode(_))));
    assert!(s.get_peer().is_none());
}

#[test]
fn send_wraps_with_header() {
    let mut s = session();
    let src = Address::SocketAddress(v4([9, 9, 9, 9], 53));
    assert!(matches!(s.send(b"r", src.duplicate()), Err(Error::NotConnected)));
    s.recv(v4([127, 0, 0, 1], 6000), &datagram(0, v4([9, 9, 9, 9], 53), b"q")).ok().unwrap();
    let out = s.send(b"r", src).ok().unwrap();
    assert_eq!(out, vec![0, 0, 0, 1, 9, 9, 9, 9, 0, 53, b'r']);
    assert_eq!(s.get_assoc_id(), 7);
    assert_eq!(s.get_max_pkt_size(), 1500);
}

#[test]
fn session_table_lifecycle() {
    let mut t: SessionTable<u32> = SessionTable::new();
    assert!(t.insert(3, 30).is_ok());
    assert!(matches!(t.insert(3, 31), Err(Error::AssocIdInUse(3))));
    assert_eq!(t.get(3), Some(&30));
    assert_eq!(t.remove(3), Some(30));
    assert_eq!(t.get(3), None);
    assert_eq!(t.len(), 0);
    assert!(t.insert(3, 32).is_ok());
}

#[test]
fn auth_latch_race() {
    let mut latch = Authenticated::new();
    let waiters: Vec<bool> = (0..8).map(|_| latch.wait()).collect();
    assert!(waiters.iter().all(|ready| !ready));
    let u = Uuid::from_u128(0x1234);
    assert!(latch.set(u));
    assert!(latch.wait());
    assert!(!latch.set(Uuid::from_u128(0x5678)));
    assert_eq!(latch.get(), Some(u));
}
