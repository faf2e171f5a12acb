use vstd::prelude::*;
use vstd::utf8::valid_utf8;

verus! {

/// An IP address, by its octets in network order.
#[derive(Clone, Copy, Debug)]
pub enum IpAddress {
    V4([u8; 4]),
    V6([u8; 16]),
}

/// An IP address and a port.
#[derive(Clone, Copy, Debug)]
pub struct SocketAddress {
    pub ip: IpAddress,
    pub port: u16,
}

/// An endpoint as SOCKS5 names it: an IP address or a domain name, with a port.
#[derive(Debug)]
pub enum Address {
    SocketAddress(SocketAddress),
    DomainAddress(Vec<u8>, u16),
}

/// The mathematical form of an endpoint.
pub enum AddressView {
    V4(Seq<u8>, u16),
    V6(Seq<u8>, u16),
    Domain(Seq<u8>, u16),
}

impl View for SocketAddress {
    type V = AddressView;

    open spec fn view(&self) -> AddressView {
        match self.ip {
            IpAddress::V4(o) => AddressView::V4(o@, self.port),
            IpAddress::V6(o) => AddressView::V6(o@, self.port),
        }
    }
}

impl View for Address {
    type V = AddressView;

    open spec fn view(&self) -> AddressView {
        match self {
            Address::SocketAddress(s) => s@,
            Address::DomainAddress(name, port) => AddressView::Domain(name@, *port),
        }
    }
}

/// The endpoints that the wire format can carry: four or sixteen octets, or
/// a UTF-8 name of at most 255 bytes.
pub open spec fn address_wf(a: AddressView) -> bool {
    match a {
        AddressView::V4(o, _) => o.len() == 4,
        AddressView::V6(o, _) => o.len() == 16,
        AddressView::Domain(n, _) => n.len() <= 255 && valid_utf8(n),
    }
}

pub open spec fn port_bytes(p: u16) -> Seq<u8> {
    seq![(p / 256) as u8, (p % 256) as u8]
}

pub open spec fn port_of(hi: u8, lo: u8) -> u16 {
    (hi as int * 256 + lo as int) as u16
}

/// The SOCKS5 encoding of an endpoint: the address type (1, 3 or 4), the
/// address, then the port in network order.
pub open spec fn address_bytes(a: AddressView) -> Seq<u8> {
    match a {
        AddressView::V4(o, p) => seq![1u8] + o + port_bytes(p),
        AddressView::V6(o, p) => seq![4u8] + o + port_bytes(p),
        AddressView::Domain(n, p) => seq![3u8, n.len() as u8] + n + port_bytes(p),
    }
}

/// Why bytes did not decode.
#[derive(Clone, Copy, Debug, PartialEq, Eq, Structural)]
pub enum DecodeError {
    /// More bytes are needed.
    Incomplete,
    /// A version byte other than the protocol's.
    Version(u8),
    /// An address type other than 1, 3 and 4.
    AddressType(u8),
    /// A command other than CONNECT, BIND and UDP ASSOCIATE.
    Command(u8),
    /// A reply code outside 0 to 8.
    Reply(u8),
    /// A domain name that is not UTF-8.
    DomainNotUtf8,
}

/// Decodes an endpoint at the start of `s`, giving it and the number of bytes
/// it took.
pub open spec fn parse_address(s: Seq<u8>) -> Result<(AddressView, int), DecodeError> {
    if s.len() < 1 {
        Err(DecodeError::Incomplete)
    } else if s[0] == 1 {
        if s.len() < 7 {
            Err(DecodeError::Incomplete)
        } else {
            Ok((AddressView::V4(s.subrange(1, 5), port_of(s[5], s[6])), 7))
        }
    } else if s[0] == 4 {
        if s.len() < 19 {
            Err(DecodeError::Incomplete)
        } else {
            Ok((AddressView::V6(s.subrange(1, 17), port_of(s[17], s[18])), 19))
        }
    } else if s[0] == 3 {
        if s.len() < 2 || s.len() < 4 + s[1] {
            Err(DecodeError::Incomplete)
        } else {
            let n = s[1] as int;
            if valid_utf8(s.subrange(2, 2 + n)) {
                Ok((AddressView::Domain(s.subrange(2, 2 + n), port_of(s[2 + n], s[3 + n])), 4 + n))
            } else {
                Err(DecodeError::DomainNotUtf8)
            }
        }
    } else {
        Err(DecodeError::AddressType(s[0]))
    }
}

/// An IPv6 address that embeds an IPv4 one: `::ffff:a.b.c.d`.
pub open spec fn is_v4_mapped(o: Seq<u8>) -> bool {
    &&& o.len() == 16
    &&& forall|i: int| 0 <= i < 10 ==> o[i] == 0
    &&& o[10] == 0xff
    &&& o[11] == 0xff
}

/// The form in which two socket addresses are compared: an IPv4-mapped IPv6
/// address becomes the IPv4 address it embeds.
pub open spec fn canonical(a: AddressView) -> AddressView {
    match a {
        AddressView::V6(o, p) => if is_v4_mapped(o) {
            AddressView::V4(o.subrange(12, 16), p)
        } else {
            a
        },
        _ => a,
    }
}

pub proof fn lemma_port_round_trip(p: u16)
    ensures
        port_of(port_bytes(p)[0], port_bytes(p)[1]) == p,
{
}

/// Decoding the encoding of a well-formed endpoint, followed by any bytes,
/// gives back the endpoint and the length of its encoding.
pub proof fn lemma_address_round_trip(a: AddressView, rest: Seq<u8>)
    requires
        address_wf(a),
    ensures
        parse_address(address_bytes(a) + rest) == Ok::<(AddressView, int), DecodeError>(
            (a, address_bytes(a).len() as int),
        ),
{
    let s = address_bytes(a) + rest;
    match a {
        AddressView::V4(o, p) => {
            lemma_port_round_trip(p);
            assert(s.subrange(1, 5) =~= o);
        },
        AddressView::V6(o, p) => {
            lemma_port_round_trip(p);
            assert(s.subrange(1, 17) =~= o);
        },
        AddressView::Domain(n, p) => {
            lemma_port_round_trip(p);
            assert(s[1] == n.len());
            assert(s.subrange(2, 2 + n.len() as int) =~= n);
        },
    }
}

fn push_port(out: &mut Vec<u8>, p: u16)
    ensures
        final(out)@ == old(out)@ + port_bytes(p),
{
    out.push((p / 256) as u8);
    out.push((p % 256) as u8);
    assert(final(out)@ =~= old(out)@ + port_bytes(p));
}

/// Appends the SOCKS5 encoding of `a` to `out`.
pub fn encode_address(a: &Address, out: &mut Vec<u8>)
    requires
        address_wf(a@),
    ensures
        final(out)@ == old(out)@ + address_bytes(a@),
{
    let ghost start = out@;
    match a {
        Address::SocketAddress(s) => match s.ip {
            IpAddress::V4(o) => {
                out.push(1);
                let mut i: usize = 0;
                while i < 4
                    invariant
                        i <= 4,
                        out@ =~= start + seq![1u8] + o@.subrange(0, i as int),
                    decreases 4 - i,
                {
                    out.push(o[i]);
                    i = i + 1;
                    assert(out@ =~= start + seq![1u8] + o@.subrange(0, i as int));
                }
                push_port(out, s.port);
                assert(o@.subrange(0, 4) =~= o@);
                assert(out@ =~= start + address_bytes(a@));
            },
            IpAddress::V6(o) => {
                out.push(4);
                let mut i: usize = 0;
                while i < 16
                    invariant
                        i <= 16,
                        out@ =~= start + seq![4u8] + o@.subrange(0, i as int),
                    decreases 16 - i,
                {
                    out.push(o[i]);
                    i = i + 1;
                    assert(out@ =~= start + seq![4u8] + o@.subrange(0, i as int));
                }
                push_port(out, s.port);
                assert(o@.subrange(0, 16) =~= o@);
                assert(out@ =~= start + address_bytes(a@));
            },
        },
        Address::DomainAddress(name, port) => {
            out.push(3);
            out.push(name.len() as u8);
            let mut i: usize = 0;
            while i < name.len()
                invariant
                    i <= name@.len(),
                    out@ =~= start + seq![3u8, name@.len() as u8] + name@.subrange(0, i as int),
                decreases name@.len() - i,
            {
                out.push(name[i]);
                i = i + 1;
                assert(out@ =~= start + seq![3u8, name@.len() as u8] + name@.subrange(
                    0,
                    i as int,
                ));
            }
            push_port(out, *port);
            assert(name@.subrange(0, name@.len() as int) =~= name@);
            assert(out@ =~= start + address_bytes(a@));
        },
    }
}

/// Copies `n` bytes of `buf` from `pos` on.
pub fn copy_bytes(buf: &[u8], pos: usize, n: usize) -> (r: Vec<u8>)
    requires
        pos + n <= buf@.len(),
    ensures
        r@ == buf@.subrange(pos as int, pos + n),
{
    let total = buf.len();
    let mut r: Vec<u8> = Vec::new();
    let mut i: usize = 0;
    while i < n
        invariant
            i <= n,
            total == buf@.len(),
            pos + n <= buf@.len(),
            r@ =~= buf@.subrange(pos as int, pos + i),
        decreases n - i,
    {
        r.push(buf[pos + i]);
        i = i + 1;
        assert(r@ =~= buf@.subrange(pos as int, pos + i));
    }
    r
}

fn read_port(buf: &[u8], pos: usize) -> (r: u16)
    requires
        pos + 2 <= buf@.len(),
    ensures
        r == port_of(buf@[pos as int], buf@[pos + 1]),
{
    (buf[pos] as u16) * 256 + (buf[pos + 1] as u16)
}

/// Relies on `std::str::from_utf8`: it succeeds exactly on valid UTF-8.
#[verifier::external_body]
fn is_utf8(b: &[u8]) -> (r: bool)
    ensures
        r == valid_utf8(b@),
{
    std::str::from_utf8(b).is_ok()
}

/// Decodes an endpoint from `buf` at `pos`, giving it and the number of bytes
/// it took.
pub fn decode_address(buf: &[u8], pos: usize) -> (r: Result<(Address, usize), DecodeError>)
    requires
        pos <= buf@.len(),
    ensures
        match parse_address(buf@.subrange(pos as int, buf@.len() as int)) {
            Ok((v, n)) => r matches Ok((a, m)) && a@ == v && m == n && address_wf(v),
            Err(e) => r == Err::<(Address, usize), DecodeError>(e),
        },
{
    let ghost s = buf@.subrange(pos as int, buf@.len() as int);
    let left = buf.len() - pos;
    if left < 1 {
        return Err(DecodeError::Incomplete);
    }
    let atyp = buf[pos];
    if atyp == 1 {
        if left < 7 {
            return Err(DecodeError::Incomplete);
        }
        let o: [u8; 4] = [buf[pos + 1], buf[pos + 2], buf[pos + 3], buf[pos + 4]];
        assert(o@ =~= s.subrange(1, 5));
        let port = read_port(buf, pos + 5);
        Ok((Address::SocketAddress(SocketAddress { ip: IpAddress::V4(o), port }), 7))
    } else if atyp == 4 {
        if left < 19 {
            return Err(DecodeError::Incomplete);
        }
        let p = pos + 1;
        let o: [u8; 16] = [
            buf[p],
            buf[p + 1],
            buf[p + 2],
            buf[p + 3],
            buf[p + 4],
            buf[p + 5],
            buf[p + 6],
            buf[p + 7],
            buf[p + 8],
            buf[p + 9],
            buf[p + 10],
            buf[p + 11],
            buf[p + 12],
            buf[p + 13],
            buf[p + 14],
            buf[p + 15],
        ];
        assert(o@ =~= s.subrange(1, 17));
        let port = read_port(buf, pos + 17);
        Ok((Address::SocketAddress(SocketAddress { ip: IpAddress::V6(o), port }), 19))
    } else if atyp == 3 {
        if left < 2 {
            return Err(DecodeError::Incomplete);
        }
        let n = buf[pos + 1] as usize;
        if left < 4 + n {
            return Err(DecodeError::Incomplete);
        }
        let name = copy_bytes(buf, pos + 2, n);
        assert(name@ =~= s.subrange(2, 2 + n));
        if !is_utf8(name.as_slice()) {
            return Err(DecodeError::DomainNotUtf8);
        }
        let port = read_port(buf, pos + 2 + n);
        Ok((Address::DomainAddress(name, port), 4 + n))
    } else {
        Err(DecodeError::AddressType(atyp))
    }
}

fn is_v4_mapped_exec(o: &[u8; 16]) -> (r: bool)
    ensures
        r == is_v4_mapped(o@),
{
    let mut i: usize = 0;
    while i < 10
        invariant
            i <= 10,
            forall|j: int| 0 <= j < i ==> o@[j] == 0,
        decreases 10 - i,
    {
        if o[i] != 0 {
            return false;
        }
        i = i + 1;
    }
    o[10] == 0xff && o[11] == 0xff
}

impl SocketAddress {
    /// The address in the form used for comparison: an IPv4-mapped IPv6
    /// address becomes the IPv4 address it embeds.
    pub fn canonical(&self) -> (r: SocketAddress)
        ensures
            r@ == canonical(self@),
    {
        match self.ip {
            IpAddress::V4(_) => *self,
            IpAddress::V6(o) => if is_v4_mapped_exec(&o) {
                let v: [u8; 4] = [o[12], o[13], o[14], o[15]];
                assert(v@ =~= o@.subrange(12, 16));
                SocketAddress { ip: IpAddress::V4(v), port: self.port }
            } else {
                *self
            },
        }
    }

    /// Whether two socket addresses are the same address.
    pub fn same_as(&self, other: &SocketAddress) -> (r: bool)
        ensures
            r == (self@ == other@),
    {
        if self.port != other.port {
            return false;
        }
        match (&self.ip, &other.ip) {
            (IpAddress::V4(a), IpAddress::V4(b)) => {
                assert(self@ == AddressView::V4(a@, self.port));
                assert(other@ == AddressView::V4(b@, other.port));
                let mut i: usize = 0;
                while i < 4
                    invariant
                        i <= 4,
                        self@ == AddressView::V4(a@, self.port),
                        other@ == AddressView::V4(b@, other.port),
                        forall|j: int| 0 <= j < i ==> a@[j] == b@[j],
                    decreases 4 - i,
                {
                    if a[i] != b[i] {
                        assert(a@[i as int] != b@[i as int]);
                        assert(self@ != other@);
                        return false;
                    }
                    i = i + 1;
                }
                assert(a@ =~= b@);
                true
            },
            (IpAddress::V6(a), IpAddress::V6(b)) => {
                assert(self@ == AddressView::V6(a@, self.port));
                assert(other@ == AddressView::V6(b@, other.port));
                let mut i: usize = 0;
                while i < 16
                    invariant
                        i <= 16,
                        self@ == AddressView::V6(a@, self.port),
                        other@ == AddressView::V6(b@, other.port),
                        forall|j: int| 0 <= j < i ==> a@[j] == b@[j],
                    decreases 16 - i,
                {
                    if a[i] != b[i] {
                        assert(a@[i as int] != b@[i as int]);
                        assert(self@ != other@);
                        return false;
                    }
                    i = i + 1;
                }
                assert(a@ =~= b@);
                true
            },
            _ => false,
        }
    }
}

impl Address {
    /// The unspecified IPv4 endpoint `0.0.0.0:0`.
    pub fn unspecified() -> (r: Address)
        ensures
            r@ == AddressView::V4(seq![0u8, 0, 0, 0], 0),
    {
        let o: [u8; 4] = [0, 0, 0, 0];
        assert(o@ =~= seq![0u8, 0, 0, 0]);
        Address::SocketAddress(SocketAddress { ip: IpAddress::V4(o), port: 0 })
    }

    /// A copy of the endpoint.
    pub fn duplicate(&self) -> (r: Address)
        ensures
            r@ == self@,
    {
        match self {
            Address::SocketAddress(s) => Address::SocketAddress(*s),
            Address::DomainAddress(name, port) => {
                let n = copy_bytes(name.as_slice(), 0, name.len());
                assert(n@ =~= name@);
                Address::DomainAddress(n, *port)
            },
        }
    }
}

} // verus!
