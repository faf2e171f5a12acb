use tuic::address::{Address, DecodeError, IpAddress, SocketAddress};
use tuic::codec::{
    Command, HandshakeRequest, HandshakeResponse, PasswordRequest, PasswordResponse, Reply,
    ReplyCode, Request, UdpHeader,
};

fn v4(o: [u8; 4], port: u16) -> SocketAddress {
    SocketAddress { ip: IpAddress::V4(o), port }
}

fn same(a: &Address, b: &Address) -> bool {
    match (a, b) {
        (Address::SocketAddress(x), Address::SocketAddress(y)) => x.same_as(y),
        (Address::DomainAddress(n, p), Address::DomainAddress(m, q)) => n == m && p == q,
        _ => false,
    }
}

#[test]
fn connect_request_bytes_decode() {
    let buf = [5u8, 1, 0, 1, 0x7f, 0, 0, 1, 0, 0x50];
    let (req, n) = Request::decode(&buf).ok().unwrap();
    assert_eq!(n, 10);
    assert_eq!(req.command, Command::Connect);
    assert!(same(&req.address, &Address::SocketAddress(v4([127, 0, 0, 1], 80))));
    assert_eq!(req.encode(), buf.to_vec());
}

#[test]
fn greeting_decodes() {
    let (req, n) = HandshakeRequest::decode(&[5, 1, 0]).ok().unwrap();
    assert_eq!(n, 3);
    assert_eq!(req.methods, vec![0]);
    assert_eq!(HandshakeResponse { method: 0 }.encode(), vec![5, 0]);
}

#[test]
fn success_reply_bytes() {
    let r = Reply { reply: ReplyCode::Succeeded, address: Address::unspecified() };
    assert_eq!(r.encode(), vec![5, 0, 0, 1, 0, 0, 0, 0, 0, 0]);
}

#[test]
fn domain_round_trip() {
    let a = Address::DomainAddress(b"example.com".to_vec(), 443);
    let r = Reply { reply: ReplyCode::HostUnreachable, address: a.duplicate() };
    let bytes = r.encode();
    assert_eq!(&bytes[..5], &[5, 4, 0, 3, 11]);
    assert_eq!(&bytes[bytes.len() - 2..], &[1, 0xbb]);
    let (back, n) = Reply::decode(&bytes).ok().unwrap();
    assert_eq!(n, bytes.len());
    assert_eq!(back.reply, ReplyCode::HostUnreachable);
    assert!(same(&back.address, &a));
}

#[test]
fn ipv6_round_trip() {
    let mut o = [0u8; 16];
    o[15] = 1;
    let h = UdpHeader {
        frag: 0,
        address: Address::SocketAddress(SocketAddress { ip: IpAddress::V6(o), port: 53 }),
    };
    let mut bytes = h.encode();
    assert_eq!(bytes.len(), 3 + 1 + 16 + 2);
    bytes.extend_from_slice(b"payload");
    let (back, n) = UdpHeader::decode(&bytes).ok().unwrap();
    assert_eq!(n, 22);
    assert_eq!(back.frag, 0);
    assert!(same(&back.address, &h.address));
    assert_eq!(&bytes[n..], b"payload");
}

#[test]
fn password_round_trip() {
    let req = PasswordRequest { username: b"user".to_vec(), password: b"pw".to_vec() };
    let bytes = req.encode();
    assert_eq!(bytes, vec![1, 4, b'u', b's', b'e', b'r', 2, b'p', b'w']);
    let (back, n) = PasswordRequest::decode(&bytes).ok().unwrap();
    assert_eq!(n, 9);
    assert_eq!(back.username, b"user".to_vec());
    assert_eq!(back.password, b"pw".to_vec());
    assert_eq!(PasswordResponse { status: 1 }.encode(), vec![1, 1]);
    assert_eq!(PasswordResponse::decode(&[1, 0]), Ok((PasswordResponse { status: 0 }, 2)));
    assert_eq!(HandshakeResponse::decode(&[5, 2]), Ok((HandshakeResponse { method: 2 }, 2)));
}

#[test]
fn decode_errors() {
    assert!(matches!(HandshakeRequest::decode(&[4, 1, 0]), Err(DecodeError::Version(4))));
    assert!(matches!(HandshakeRequest::decode(&[5, 2, 0]), Err(DecodeError::Incomplete)));
    assert!(matches!(Request::decode(&[5, 9, 0, 1]), Err(DecodeError::Command(9))));
    assert!(matches!(Request::decode(&[5, 1, 0, 7, 0]), Err(DecodeError::AddressType(7))));
    assert!(matches!(Request::decode(&[5, 1, 0, 1, 127, 0]), Err(DecodeError::Incomplete)));
    assert!(matches!(Reply::decode(&[5, 9, 0, 1]), Err(DecodeError::Reply(9))));
    assert!(matches!(PasswordRequest::decode(&[5, 1, 0]), Err(DecodeError::Version(5))));
    assert!(matches!(UdpHeader::decode(&[0, 0]), Err(DecodeError::Incomplete)));
}

#[test]
fn canonical_unmaps_ipv4() {
    let mut o = [0u8; 16];
    o[10] = 0xff;
    o[11] = 0xff;
    o[12] = 10;
    o[15] = 7;
    let mapped = SocketAddress { ip: IpAddress::V6(o), port: 9 };
    assert!(mapped.canonical().same_as(&v4([10, 0, 0, 7], 9)));
    assert!(!mapped.same_as(&v4([10, 0, 0, 7], 9)));
    let mut plain = o;
    plain[0] = 0x20;
    let p = SocketAddress { ip: IpAddress::V6(plain), port: 9 };
    assert!(p.canonical().same_as(&p));
}

#[test]
fn domain_must_be_utf8() {
    let buf = [5u8, 1, 0, 3, 2, 0xff, 0xfe, 0, 80];
    assert!(matches!(Request::decode(&buf), Err(DecodeError::DomainNotUtf8)));
    let ok = [5u8, 1, 0, 3, 2, b'h', b'i', 0, 80];
    assert!(Request::decode(&ok).is_ok());
}
