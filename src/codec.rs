use vstd::prelude::*;
use crate::address::{
    address_bytes, address_wf, copy_bytes, decode_address, encode_address, lemma_address_round_trip,
    parse_address, Address, AddressView, DecodeError,
};

verus! {

/// The SOCKS protocol version.
pub const SOCKS_VERSION: u8 = 5;

/// The version of the username/password sub-negotiation.
pub const PASSWORD_VERSION: u8 = 1;

/// Method byte: no authentication.
pub const METHOD_NONE: u8 = 0;

/// Method byte: username and password.
pub const METHOD_PASSWORD: u8 = 2;

/// Method byte: none of the offered methods is acceptable.
pub const METHOD_UNACCEPTABLE: u8 = 0xff;

/// A SOCKS5 command.
#[derive(Clone, Copy, Debug, PartialEq, Eq, Structural)]
pub enum Command {
    Connect,
    Bind,
    Associate,
}

pub open spec fn command_byte(c: Command) -> u8 {
    match c {
        Command::Connect => 1,
        Command::Bind => 2,
        Command::Associate => 3,
    }
}

pub open spec fn command_of(b: u8) -> Option<Command> {
    if b == 1 {
        Some(Command::Connect)
    } else if b == 2 {
        Some(Command::Bind)
    } else if b == 3 {
        Some(Command::Associate)
    } else {
        None
    }
}

/// A SOCKS5 reply code.
#[derive(Clone, Copy, Debug, PartialEq, Eq, Structural)]
pub enum ReplyCode {
    Succeeded,
    GeneralFailure,
    ConnectionNotAllowed,
    NetworkUnreachable,
    HostUnreachable,
    ConnectionRefused,
    TtlExpired,
    CommandNotSupported,
    AddressTypeNotSupported,
}

pub open spec fn reply_byte(r: ReplyCode) -> u8 {
    match r {
        ReplyCode::Succeeded => 0,
        ReplyCode::GeneralFailure => 1,
        ReplyCode::ConnectionNotAllowed => 2,
        ReplyCode::NetworkUnreachable => 3,
        ReplyCode::HostUnreachable => 4,
        ReplyCode::ConnectionRefused => 5,
        ReplyCode::TtlExpired => 6,
        ReplyCode::CommandNotSupported => 7,
        ReplyCode::AddressTypeNotSupported => 8,
    }
}

pub open spec fn reply_of(b: u8) -> Option<ReplyCode> {
    if b == 0 {
        Some(ReplyCode::Succeeded)
    } else if b == 1 {
        Some(ReplyCode::GeneralFailure)
    } else if b == 2 {
        Some(ReplyCode::ConnectionNotAllowed)
    } else if b == 3 {
        Some(ReplyCode::NetworkUnreachable)
    } else if b == 4 {
        Some(ReplyCode::HostUnreachable)
    } else if b == 5 {
        Some(ReplyCode::ConnectionRefused)
    } else if b == 6 {
        Some(ReplyCode::TtlExpired)
    } else if b == 7 {
        Some(ReplyCode::CommandNotSupported)
    } else if b == 8 {
        Some(ReplyCode::AddressTypeNotSupported)
    } else {
        None
    }
}

impl Command {
    pub fn to_byte(&self) -> (r: u8)
        ensures
            r == command_byte(*self),
    {
        match self {
            Command::Connect => 1,
            Command::Bind => 2,
            Command::Associate => 3,
        }
    }

    pub fn from_byte(b: u8) -> (r: Option<Command>)
        ensures
            r == command_of(b),
    {
        if b == 1 {
            Some(Command::Connect)
        } else if b == 2 {
            Some(Command::Bind)
        } else if b == 3 {
            Some(Command::Associate)
        } else {
            None
        }
    }
}

impl ReplyCode {
    pub fn to_byte(&self) -> (r: u8)
        ensures
            r == reply_byte(*self),
    {
        match self {
            ReplyCode::Succeeded => 0,
            ReplyCode::GeneralFailure => 1,
            ReplyCode::ConnectionNotAllowed => 2,
            ReplyCode::NetworkUnreachable => 3,
            ReplyCode::HostUnreachable => 4,
            ReplyCode::ConnectionRefused => 5,
            ReplyCode::TtlExpired => 6,
            ReplyCode::CommandNotSupported => 7,
            ReplyCode::AddressTypeNotSupported => 8,
        }
    }

    pub fn from_byte(b: u8) -> (r: Option<ReplyCode>)
        ensures
            r == reply_of(b),
    {
        if b == 0 {
            Some(ReplyCode::Succeeded)
        } else if b == 1 {
            Some(ReplyCode::GeneralFailure)
        } else if b == 2 {
            Some(ReplyCode::ConnectionNotAllowed)
        } else if b == 3 {
            Some(ReplyCode::NetworkUnreachable)
        } else if b == 4 {
            Some(ReplyCode::HostUnreachable)
        } else if b == 5 {
            Some(ReplyCode::ConnectionRefused)
        } else if b == 6 {
            Some(ReplyCode::TtlExpired)
        } else if b == 7 {
            Some(ReplyCode::CommandNotSupported)
        } else if b == 8 {
            Some(ReplyCode::AddressTypeNotSupported)
        } else {
            None
        }
    }
}

/// The client's greeting: the authentication methods it offers.
pub struct HandshakeRequest {
    pub methods: Vec<u8>,
}

/// The server's choice of method.
#[derive(Clone, Copy, Debug, PartialEq, Eq, Structural)]
pub struct HandshakeResponse {
    pub method: u8,
}

/// A username/password authentication request (RFC 1929).
pub struct PasswordRequest {
    pub username: Vec<u8>,
    pub password: Vec<u8>,
}

/// The answer to a username/password request: status 0 is success.
#[derive(Clone, Copy, Debug, PartialEq, Eq, Structural)]
pub struct PasswordResponse {
    pub status: u8,
}

/// A command request and its destination.
pub struct Request {
    pub command: Command,
    pub address: Address,
}

/// A reply to a command, with the bound address.
pub struct Reply {
    pub reply: ReplyCode,
    pub address: Address,
}

/// The header in front of every datagram of a UDP association.
pub struct UdpHeader {
    pub frag: u8,
    pub address: Address,
}

impl View for HandshakeRequest {
    type V = Seq<u8>;

    open spec fn view(&self) -> Seq<u8> {
        self.methods@
    }
}

impl View for PasswordRequest {
    type V = (Seq<u8>, Seq<u8>);

    open spec fn view(&self) -> (Seq<u8>, Seq<u8>) {
        (self.username@, self.password@)
    }
}

impl View for Request {
    type V = (Command, AddressView);

    open spec fn view(&self) -> (Command, AddressView) {
        (self.command, self.address@)
    }
}

impl View for Reply {
    type V = (ReplyCode, AddressView);

    open spec fn view(&self) -> (ReplyCode, AddressView) {
        (self.reply, self.address@)
    }
}

impl View for UdpHeader {
    type V = (u8, AddressView);

    open spec fn view(&self) -> (u8, AddressView) {
        (self.frag, self.address@)
    }
}

pub open spec fn handshake_request_bytes(methods: Seq<u8>) -> Seq<u8> {
    seq![SOCKS_VERSION, methods.len() as u8] + methods
}

pub open spec fn handshake_response_bytes(r: HandshakeResponse) -> Seq<u8> {
    seq![SOCKS_VERSION, r.method]
}

pub open spec fn password_request_bytes(v: (Seq<u8>, Seq<u8>)) -> Seq<u8> {
    seq![PASSWORD_VERSION, v.0.len() as u8] + v.0 + seq![v.1.len() as u8] + v.1
}

pub open spec fn password_response_bytes(r: PasswordResponse) -> Seq<u8> {
    seq![PASSWORD_VERSION, r.status]
}

pub open spec fn request_bytes(v: (Command, AddressView)) -> Seq<u8> {
    seq![SOCKS_VERSION, command_byte(v.0), 0u8] + address_bytes(v.1)
}

pub open spec fn reply_bytes(v: (ReplyCode, AddressView)) -> Seq<u8> {
    seq![SOCKS_VERSION, reply_byte(v.0), 0u8] + address_bytes(v.1)
}

pub open spec fn udp_header_bytes(v: (u8, AddressView)) -> Seq<u8> {
    seq![0u8, 0u8, v.0] + address_bytes(v.1)
}

pub open spec fn parse_handshake_request(s: Seq<u8>) -> Result<(Seq<u8>, int), DecodeError> {
    if s.len() < 1 {
        Err(DecodeError::Incomplete)
    } else if s[0] != SOCKS_VERSION {
        Err(DecodeError::Version(s[0]))
    } else if s.len() < 2 || s.len() < 2 + s[1] {
        Err(DecodeError::Incomplete)
    } else {
        Ok((s.subrange(2, 2 + s[1]), 2 + s[1]))
    }
}

pub open spec fn parse_handshake_response(s: Seq<u8>) -> Result<
    (HandshakeResponse, int),
    DecodeError,
> {
    if s.len() < 1 {
        Err(DecodeError::Incomplete)
    } else if s[0] != SOCKS_VERSION {
        Err(DecodeError::Version(s[0]))
    } else if s.len() < 2 {
        Err(DecodeError::Incomplete)
    } else {
        Ok((HandshakeResponse { method: s[1] }, 2))
    }
}

pub open spec fn parse_password_request(s: Seq<u8>) -> Result<
    ((Seq<u8>, Seq<u8>), int),
    DecodeError,
> {
    if s.len() < 1 {
        Err(DecodeError::Incomplete)
    } else if s[0] != PASSWORD_VERSION {
        Err(DecodeError::Version(s[0]))
    } else if s.len() < 2 || s.len() < 3 + s[1] {
        Err(DecodeError::Incomplete)
    } else {
        let u = s[1] as int;
        let p = s[2 + u] as int;
        if s.len() < 3 + u + p {
            Err(DecodeError::Incomplete)
        } else {
            Ok(((s.subrange(2, 2 + u), s.subrange(3 + u, 3 + u + p)), 3 + u + p))
        }
    }
}

pub open spec fn parse_password_response(s: Seq<u8>) -> Result<(PasswordResponse, int), DecodeError> {
    if s.len() < 1 {
        Err(DecodeError::Incomplete)
    } else if s[0] != PASSWORD_VERSION {
        Err(DecodeError::Version(s[0]))
    } else if s.len() < 2 {
        Err(DecodeError::Incomplete)
    } else {
        Ok((PasswordResponse { status: s[1] }, 2))
    }
}

pub open spec fn parse_request(s: Seq<u8>) -> Result<((Command, AddressView), int), DecodeError> {
    if s.len() < 1 {
        Err(DecodeError::Incomplete)
    } else if s[0] != SOCKS_VERSION {
        Err(DecodeError::Version(s[0]))
    } else if s.len() < 2 {
        Err(DecodeError::Incomplete)
    } else if command_of(s[1]) is None {
        Err(DecodeError::Command(s[1]))
    } else if s.len() < 3 {
        Err(DecodeError::Incomplete)
    } else {
        match parse_address(s.subrange(3, s.len() as int)) {
            Ok((a, n)) => Ok(((command_of(s[1])->0, a), 3 + n)),
            Err(e) => Err(e),
        }
    }
}

pub open spec fn parse_reply(s: Seq<u8>) -> Result<((ReplyCode, AddressView), int), DecodeError> {
    if s.len() < 1 {
        Err(DecodeError::Incomplete)
    } else if s[0] != SOCKS_VERSION {
        Err(DecodeError::Version(s[0]))
    } else if s.len() < 2 {
        Err(DecodeError::Incomplete)
    } else if reply_of(s[1]) is None {
        Err(DecodeError::Reply(s[1]))
    } else if s.len() < 3 {
        Err(DecodeError::Incomplete)
    } else {
        match parse_address(s.subrange(3, s.len() as int)) {
            Ok((a, n)) => Ok(((reply_of(s[1])->0, a), 3 + n)),
            Err(e) => Err(e),
        }
    }
}

/// The two reserved bytes of a UDP header are not checked.
pub open spec fn parse_udp_header(s: Seq<u8>) -> Result<((u8, AddressView), int), DecodeError> {
    if s.len() < 3 {
        Err(DecodeError::Incomplete)
    } else {
        match parse_address(s.subrange(3, s.len() as int)) {
            Ok((a, n)) => Ok(((s[2], a), 3 + n)),
            Err(e) => Err(e),
        }
    }
}

fn push_all(out: &mut Vec<u8>, b: &Vec<u8>)
    ensures
        final(out)@ == old(out)@ + b@,
{
    let mut i: usize = 0;
    while i < b.len()
        invariant
            i <= b@.len(),
            out@ =~= old(out)@ + b@.subrange(0, i as int),
        decreases b@.len() - i,
    {
        out.push(b[i]);
        i = i + 1;
        assert(out@ =~= old(out)@ + b@.subrange(0, i as int));
    }
    assert(b@.subrange(0, b@.len() as int) =~= b@);
}

impl HandshakeRequest {
    pub fn encode(&self) -> (r: Vec<u8>)
        requires
            self.methods@.len() <= 255,
        ensures
            r@ == handshake_request_bytes(self@),
    {
        let mut out: Vec<u8> = Vec::new();
        out.push(SOCKS_VERSION);
        out.push(self.methods.len() as u8);
        push_all(&mut out, &self.methods);
        assert(out@ =~= handshake_request_bytes(self@));
        out
    }

    /// Decodes a greeting at the start of `buf`, with the number of bytes it took.
    pub fn decode(buf: &[u8]) -> (r: Result<(HandshakeRequest, usize), DecodeError>)
        ensures
            match parse_handshake_request(buf@) {
                Ok((v, n)) => r matches Ok((x, m)) && x@ == v && m == n,
                Err(e) => r == Err::<(HandshakeRequest, usize), DecodeError>(e),
            },
    {
        if buf.len() < 1 {
            return Err(DecodeError::Incomplete);
        }
        if buf[0] != SOCKS_VERSION {
            return Err(DecodeError::Version(buf[0]));
        }
        if buf.len() < 2 {
            return Err(DecodeError::Incomplete);
        }
        let n = buf[1] as usize;
        if buf.len() < 2 + n {
            return Err(DecodeError::Incomplete);
        }
        let methods = copy_bytes(buf, 2, n);
        Ok((HandshakeRequest { methods }, 2 + n))
    }
}

impl HandshakeResponse {
    pub fn encode(&self) -> (r: Vec<u8>)
        ensures
            r@ == handshake_response_bytes(*self),
    {
        let mut out: Vec<u8> = Vec::new();
        out.push(SOCKS_VERSION);
        out.push(self.method);
        assert(out@ =~= handshake_response_bytes(*self));
        out
    }

    pub fn decode(buf: &[u8]) -> (r: Result<(HandshakeResponse, usize), DecodeError>)
        ensures
            match parse_handshake_response(buf@) {
                Ok((v, n)) => r == Ok::<(HandshakeResponse, usize), DecodeError>((v, n as usize)),
                Err(e) => r == Err::<(HandshakeResponse, usize), DecodeError>(e),
            },
    {
        if buf.len() < 1 {
            return Err(DecodeError::Incomplete);
        }
        if buf[0] != SOCKS_VERSION {
            return Err(DecodeError::Version(buf[0]));
        }
        if buf.len() < 2 {
            return Err(DecodeError::Incomplete);
        }
        Ok((HandshakeResponse { method: buf[1] }, 2))
    }
}

impl PasswordRequest {
    pub fn encode(&self) -> (r: Vec<u8>)
        requires
            self.username@.len() <= 255,
            self.password@.len() <= 255,
        ensures
            r@ == password_request_bytes(self@),
    {
        let mut out: Vec<u8> = Vec::new();
        out.push(PASSWORD_VERSION);
        out.push(self.username.len() as u8);
        push_all(&mut out, &self.username);
        out.push(self.password.len() as u8);
        push_all(&mut out, &self.password);
        assert(out@ =~= password_request_bytes(self@));
        out
    }

    pub fn decode(buf: &[u8]) -> (r: Result<(PasswordRequest, usize), DecodeError>)
        ensures
            match parse_password_request(buf@) {
                Ok((v, n)) => r matches Ok((x, m)) && x@ == v && m == n,
                Err(e) => r == Err::<(PasswordRequest, usize), DecodeError>(e),
            },
    {
        if buf.len() < 1 {
            return Err(DecodeError::Incomplete);
        }
        if buf[0] != PASSWORD_VERSION {
            return Err(DecodeError::Version(buf[0]));
        }
        if buf.len() < 2 {
            return Err(DecodeError::Incomplete);
        }
        let u = buf[1] as usize;
        if buf.len() < 3 + u {
            return Err(DecodeError::Incomplete);
        }
        let p = buf[2 + u] as usize;
        if buf.len() < 3 + u + p {
            return Err(DecodeError::Incomplete);
        }
        let username = copy_bytes(buf, 2, u);
        let password = copy_bytes(buf, 3 + u, p);
        Ok((PasswordRequest { username, password }, 3 + u + p))
    }
}

impl PasswordResponse {
    pub fn encode(&self) -> (r: Vec<u8>)
        ensures
            r@ == password_response_bytes(*self),
    {
        let mut out: Vec<u8> = Vec::new();
        out.push(PASSWORD_VERSION);
        out.push(self.status);
        assert(out@ =~= password_response_bytes(*self));
        out
    }

    pub fn decode(buf: &[u8]) -> (r: Result<(PasswordResponse, usize), DecodeError>)
        ensures
            match parse_password_response(buf@) {
                Ok((v, n)) => r == Ok::<(PasswordResponse, usize), DecodeError>((v, n as usize)),
                Err(e) => r == Err::<(PasswordResponse, usize), DecodeError>(e),
            },
    {
        if buf.len() < 1 {
            return Err(DecodeError::Incomplete);
        }
        if buf[0] != PASSWORD_VERSION {
            return Err(DecodeError::Version(buf[0]));
        }
        if buf.len() < 2 {
            return Err(DecodeError::Incomplete);
        }
        Ok((PasswordResponse { status: buf[1] }, 2))
    }
}

impl Request {
    pub fn encode(&self) -> (r: Vec<u8>)
        requires
            address_wf(self.address@),
        ensures
            r@ == request_bytes(self@),
    {
        let mut out: Vec<u8> = Vec::new();
        out.push(SOCKS_VERSION);
        out.push(self.command.to_byte());
        out.push(0);
        encode_address(&self.address, &mut out);
        assert(out@ =~= request_bytes(self@));
        out
    }

    pub fn decode(buf: &[u8]) -> (r: Result<(Request, usize), DecodeError>)
        ensures
            match parse_request(buf@) {
                Ok((v, n)) => r matches Ok((x, m)) && x@ == v && m == n && address_wf(v.1),
                Err(e) => r == Err::<(Request, usize), DecodeError>(e),
            },
    {
        if buf.len() < 1 {
            return Err(DecodeError::Incomplete);
        }
        if buf[0] != SOCKS_VERSION {
            return Err(DecodeError::Version(buf[0]));
        }
        if buf.len() < 2 {
            return Err(DecodeError::Incomplete);
        }
        let command = match Command::from_byte(buf[1]) {
            Some(c) => c,
            None => return Err(DecodeError::Command(buf[1])),
        };
        if buf.len() < 3 {
            return Err(DecodeError::Incomplete);
        }
        match decode_address(buf, 3) {
            Ok((address, n)) => Ok((Request { command, address }, 3 + n)),
            Err(e) => Err(e),
        }
    }
}

impl Reply {
    pub fn encode(&self) -> (r: Vec<u8>)
        requires
            address_wf(self.address@),
        ensures
            r@ == reply_bytes(self@),
    {
        let mut out: Vec<u8> = Vec::new();
        out.push(SOCKS_VERSION);
        out.push(self.reply.to_byte());
        out.push(0);
        encode_address(&self.address, &mut out);
        assert(out@ =~= reply_bytes(self@));
        out
    }

    pub fn decode(buf: &[u8]) -> (r: Result<(Reply, usize), DecodeError>)
        ensures
            match parse_reply(buf@) {
                Ok((v, n)) => r matches Ok((x, m)) && x@ == v && m == n && address_wf(v.1),
                Err(e) => r == Err::<(Reply, usize), DecodeError>(e),
            },
    {
        if buf.len() < 1 {
            return Err(DecodeError::Incomplete);
        }
        if buf[0] != SOCKS_VERSION {
            return Err(DecodeError::Version(buf[0]));
        }
        if buf.len() < 2 {
            return Err(DecodeError::Incomplete);
        }
        let reply = match ReplyCode::from_byte(buf[1]) {
            Some(c) => c,
            None => return Err(DecodeError::Reply(buf[1])),
        };
        if buf.len() < 3 {
            return Err(DecodeError::Incomplete);
        }
        match decode_address(buf, 3) {
            Ok((address, n)) => Ok((Reply { reply, address }, 3 + n)),
            Err(e) => Err(e),
        }
    }
}

impl UdpHeader {
    pub fn encode(&self) -> (r: Vec<u8>)
        requires
            address_wf(self.address@),
        ensures
            r@ == udp_header_bytes(self@),
    {
        let mut out: Vec<u8> = Vec::new();
        out.push(0);
        out.push(0);
        out.push(self.frag);
        encode_address(&self.address, &mut out);
        assert(out@ =~= udp_header_bytes(self@));
        out
    }

    /// Decodes the header at the start of a datagram; the payload follows
    /// at the offset returned with it.
    pub fn decode(buf: &[u8]) -> (r: Result<(UdpHeader, usize), DecodeError>)
        ensures
            match parse_udp_header(buf@) {
                Ok((v, n)) => r matches Ok((x, m)) && x@ == v && m == n && address_wf(v.1),
                Err(e) => r == Err::<(UdpHeader, usize), DecodeError>(e),
            },
    {
        if buf.len() < 3 {
            return Err(DecodeError::Incomplete);
        }
        match decode_address(buf, 3) {
            Ok((address, n)) => Ok((UdpHeader { frag: buf[2], address }, 3 + n)),
            Err(e) => Err(e),
        }
    }
}

/// Decoding an encoded greeting, followed by any bytes, gives back the
/// offered methods and the length of the encoding.
pub proof fn lemma_handshake_request_round_trip(methods: Seq<u8>, rest: Seq<u8>)
    requires
        methods.len() <= 255,
    ensures
        parse_handshake_request(handshake_request_bytes(methods) + rest) == Ok::<
            (Seq<u8>, int),
            DecodeError,
        >((methods, handshake_request_bytes(methods).len() as int)),
{
    let s = handshake_request_bytes(methods) + rest;
    assert(s.subrange(2, 2 + methods.len() as int) =~= methods);
}

/// Decoding an encoded method choice gives it back.
pub proof fn lemma_handshake_response_round_trip(r: HandshakeResponse, rest: Seq<u8>)
    ensures
        parse_handshake_response(handshake_response_bytes(r) + rest) == Ok::<
            (HandshakeResponse, int),
            DecodeError,
        >((r, 2)),
{
}

/// Decoding an encoded username/password request gives back both fields.
pub proof fn lemma_password_request_round_trip(v: (Seq<u8>, Seq<u8>), rest: Seq<u8>)
    requires
        v.0.len() <= 255,
        v.1.len() <= 255,
    ensures
        parse_password_request(password_request_bytes(v) + rest) == Ok::<
            ((Seq<u8>, Seq<u8>), int),
            DecodeError,
        >((v, password_request_bytes(v).len() as int)),
{
    let s = password_request_bytes(v) + rest;
    let u = v.0.len() as int;
    let p = v.1.len() as int;
    assert(s[1] == u);
    assert(s[2 + u] == p);
    assert(s.subrange(2, 2 + u) =~= v.0);
    assert(s.subrange(3 + u, 3 + u + p) =~= v.1);
}

/// Decoding an encoded authentication status gives it back.
pub proof fn lemma_password_response_round_trip(r: PasswordResponse, rest: Seq<u8>)
    ensures
        parse_password_response(password_response_bytes(r) + rest) == Ok::<
            (PasswordResponse, int),
            DecodeError,
        >((r, 2)),
{
}

pub proof fn lemma_command_round_trip(c: Command)
    ensures
        command_of(command_byte(c)) == Some(c),
{
}

pub proof fn lemma_reply_code_round_trip(c: ReplyCode)
    ensures
        reply_of(reply_byte(c)) == Some(c),
{
}

/// Decoding an encoded command request gives back its command and
/// destination.
pub proof fn lemma_request_round_trip(v: (Command, AddressView), rest: Seq<u8>)
    requires
        address_wf(v.1),
    ensures
        parse_request(request_bytes(v) + rest) == Ok::<((Command, AddressView), int), DecodeError>(
            (v, request_bytes(v).len() as int),
        ),
{
    let s = request_bytes(v) + rest;
    lemma_address_round_trip(v.1, rest);
    assert(s.subrange(3, s.len() as int) =~= address_bytes(v.1) + rest);
}

/// Decoding an encoded reply gives back its code and bound address.
pub proof fn lemma_reply_round_trip(v: (ReplyCode, AddressView), rest: Seq<u8>)
    requires
        address_wf(v.1),
    ensures
        parse_reply(reply_bytes(v) + rest) == Ok::<((ReplyCode, AddressView), int), DecodeError>(
            (v, reply_bytes(v).len() as int),
        ),
{
    let s = reply_bytes(v) + rest;
    lemma_address_round_trip(v.1, rest);
    assert(s.subrange(3, s.len() as int) =~= address_bytes(v.1) + rest);
}

/// Decoding an encoded UDP header, followed by its payload, gives back the
/// fragment number and address, and the payload starts right after it.
pub proof fn lemma_udp_header_round_trip(v: (u8, AddressView), payload: Seq<u8>)
    requires
        address_wf(v.1),
    ensures
        parse_udp_header(udp_header_bytes(v) + payload) == Ok::<((u8, AddressView), int), DecodeError>(
            (v, udp_header_bytes(v).len() as int),
        ),
{
    let s = udp_header_bytes(v) + payload;
    lemma_address_round_trip(v.1, payload);
    assert(s.subrange(3, s.len() as int) =~= address_bytes(v.1) + payload);
}

} // verus!
