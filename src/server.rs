use vstd::prelude::*;
use crate::address::{address_wf, Address, AddressView, DecodeError, SocketAddress};
use crate::codec::{
    handshake_response_bytes, parse_handshake_request, parse_password_request, parse_request,
    password_response_bytes, reply_bytes, Command, HandshakeRequest, HandshakeResponse,
    PasswordRequest, PasswordResponse, Reply, ReplyCode, Request, METHOD_NONE, METHOD_PASSWORD,
    METHOD_UNACCEPTABLE,
};
use crate::error::Error;

verus! {

/// How a client must authenticate.
pub enum Socks5Auth {
    NoAuth,
    Password { username: Vec<u8>, password: Vec<u8> },
}

pub enum Socks5AuthView {
    NoAuth,
    Password(Seq<u8>, Seq<u8>),
}

impl View for Socks5Auth {
    type V = Socks5AuthView;

    open spec fn view(&self) -> Socks5AuthView {
        match self {
            Socks5Auth::NoAuth => Socks5AuthView::NoAuth,
            Socks5Auth::Password { username, password } => Socks5AuthView::Password(
                username@,
                password@,
            ),
        }
    }
}

/// The method byte a server with this authentication advertises.
pub open spec fn advertised_method(a: Socks5AuthView) -> u8 {
    match a {
        Socks5AuthView::NoAuth => METHOD_NONE,
        Socks5AuthView::Password(_, _) => METHOD_PASSWORD,
    }
}

/// The method chosen for a client that offers `offered`.
pub open spec fn chosen_method(a: Socks5AuthView, offered: Seq<u8>) -> u8 {
    if offered.contains(advertised_method(a)) {
        advertised_method(a)
    } else {
        METHOD_UNACCEPTABLE
    }
}

/// Whether the presented credentials are the configured ones.
pub open spec fn credentials_match(a: Socks5AuthView, user: Seq<u8>, pass: Seq<u8>) -> bool {
    match a {
        Socks5AuthView::NoAuth => false,
        Socks5AuthView::Password(u, p) => u == user && p == pass,
    }
}

/// How a listening or associated socket is to be set up.
#[derive(Clone, Copy, Debug)]
pub struct SocketSetup {
    /// Whether the socket is of the IPv6 family.
    pub ipv6: bool,
    /// The IPV6_V6ONLY option to set, if any.
    pub only_v6: Option<bool>,
    /// The address to bind.
    pub bind: SocketAddress,
}

pub open spec fn is_v6(a: AddressView) -> bool {
    a is V6
}

/// The socket for `addr`: of its family, binding it, and with IPV6_V6ONLY set
/// to the opposite of `dual_stack` where that is given.
pub fn socket_setup(addr: SocketAddress, dual_stack: Option<bool>) -> (r: SocketSetup)
    ensures
        r.ipv6 == is_v6(addr@),
        r.bind@ == addr@,
        r.only_v6 == (match dual_stack {
            Some(d) => Some(!d),
            None => None::<bool>,
        }),
{
    let ipv6 = match addr.ip {
        crate::address::IpAddress::V4(_) => false,
        crate::address::IpAddress::V6(_) => true,
    };
    let only_v6 = match dual_stack {
        Some(d) => Some(!d),
        None => None,
    };
    SocketSetup { ipv6, only_v6, bind: addr }
}

fn bytes_eq(a: &Vec<u8>, b: &Vec<u8>) -> (r: bool)
    ensures
        r == (a@ == b@),
{
    if a.len() != b.len() {
        return false;
    }
    let mut i: usize = 0;
    while i < a.len()
        invariant
            a@.len() == b@.len(),
            i <= a@.len(),
            forall|j: int| 0 <= j < i ==> a@[j] == b@[j],
        decreases a@.len() - i,
    {
        if a[i] != b[i] {
            return false;
        }
        i = i + 1;
    }
    assert(a@ =~= b@);
    true
}

fn contains_byte(v: &Vec<u8>, x: u8) -> (r: bool)
    ensures
        r == v@.contains(x),
{
    let mut i: usize = 0;
    while i < v.len()
        invariant
            i <= v@.len(),
            forall|j: int| 0 <= j < i ==> v@[j] != x,
        decreases v@.len() - i,
    {
        if v[i] == x {
            assert(v@[i as int] == x);
            return true;
        }
        i = i + 1;
    }
    false
}

impl Socks5Auth {
    /// The authentication that the configured credentials call for: both
    /// given, or neither.
    pub fn from_credentials(username: Option<Vec<u8>>, password: Option<Vec<u8>>) -> (r: Result<
        Socks5Auth,
        Error,
    >)
        ensures
            match (username, password) {
                (Some(u), Some(p)) => r matches Ok(a) && a@ == Socks5AuthView::Password(u@, p@),
                (None, None) => r matches Ok(a) && a@ == Socks5AuthView::NoAuth,
                _ => r matches Err(Error::InvalidSocks5Auth),
            },
    {
        match (username, password) {
            (Some(username), Some(password)) => Ok(Socks5Auth::Password { username, password }),
            (None, None) => Ok(Socks5Auth::NoAuth),
            _ => Err(Error::InvalidSocks5Auth),
        }
    }

    /// The method byte this authentication advertises.
    pub fn method(&self) -> (r: u8)
        ensures
            r == advertised_method(self@),
    {
        match self {
            Socks5Auth::NoAuth => METHOD_NONE,
            Socks5Auth::Password { .. } => METHOD_PASSWORD,
        }
    }

    /// The method chosen for a client that offers `offered`, or the
    /// "no acceptable method" byte.
    pub fn select_method(&self, offered: &Vec<u8>) -> (r: u8)
        ensures
            r == chosen_method(self@, offered@),
    {
        let m = self.method();
        if contains_byte(offered, m) {
            m
        } else {
            METHOD_UNACCEPTABLE
        }
    }

    /// Whether presented credentials are the configured ones.
    pub fn check(&self, req: &PasswordRequest) -> (r: bool)
        ensures
            r == credentials_match(self@, req.username@, req.password@),
    {
        match self {
            Socks5Auth::NoAuth => false,
            Socks5Auth::Password { username, password } => bytes_eq(username, &req.username)
                && bytes_eq(password, &req.password),
        }
    }

    pub fn duplicate(&self) -> (r: Socks5Auth)
        ensures
            r@ == self@,
    {
        match self {
            Socks5Auth::NoAuth => Socks5Auth::NoAuth,
            Socks5Auth::Password { username, password } => {
                let u = crate::address::copy_bytes(username.as_slice(), 0, username.len());
                let p = crate::address::copy_bytes(password.as_slice(), 0, password.len());
                assert(u@ =~= username@);
                assert(p@ =~= password@);
                Socks5Auth::Password { username: u, password: p }
            },
        }
    }
}

/// The SOCKS5 server's configuration and its association-id counter.
pub struct Server {
    listen: SocketAddress,
    auth: Socks5Auth,
    dual_stack: Option<bool>,
    max_pkt_size: usize,
    next_assoc_id: u16,
}

impl Server {
    /// A server for `addr`; fails when exactly one of username and password
    /// is given.
    pub fn new(
        addr: SocketAddress,
        dual_stack: Option<bool>,
        max_pkt_size: usize,
        username: Option<Vec<u8>>,
        password: Option<Vec<u8>>,
    ) -> (r: Result<Server, Error>)
        ensures
            (username is Some) == (password is Some) <==> r is Ok,
            r is Err ==> r matches Err(Error::InvalidSocks5Auth),
            r matches Ok(s) ==> {
                &&& s.listen_addr()@ == addr@
                &&& s.dual_stack() == dual_stack
                &&& s.max_pkt_size() == max_pkt_size
                &&& s.next_id() == 0
                &&& s.auth()@ == (match (username, password) {
                    (Some(u), Some(p)) => Socks5AuthView::Password(u@, p@),
                    _ => Socks5AuthView::NoAuth,
                })
            },
    {
        match Socks5Auth::from_credentials(username, password) {
            Ok(auth) => Ok(Server { listen: addr, auth, dual_stack, max_pkt_size, next_assoc_id: 0 }),
            Err(e) => Err(e),
        }
    }

    pub closed spec fn listen_addr(&self) -> SocketAddress {
        self.listen
    }

    pub closed spec fn dual_stack(&self) -> Option<bool> {
        self.dual_stack
    }

    pub closed spec fn max_pkt_size(&self) -> usize {
        self.max_pkt_size
    }

    pub closed spec fn next_id(&self) -> u16 {
        self.next_assoc_id
    }

    pub closed spec fn auth(&self) -> &Socks5Auth {
        &self.auth
    }

    /// How the listening socket is set up.
    pub fn listener_setup(&self) -> (r: SocketSetup)
        ensures
            r.ipv6 == is_v6(self.listen_addr()@),
            r.bind@ == self.listen_addr()@,
            r.only_v6 == (match self.dual_stack() {
                Some(d) => Some(!d),
                None => None::<bool>,
            }),
    {
        socket_setup(self.listen, self.dual_stack)
    }

    pub fn get_dual_stack(&self) -> (r: Option<bool>)
        ensures
            r == self.dual_stack(),
    {
        self.dual_stack
    }

    pub fn get_max_pkt_size(&self) -> (r: usize)
        ensures
            r == self.max_pkt_size(),
    {
        self.max_pkt_size
    }

    /// A fresh state machine for an accepted connection.
    pub fn connection(&self) -> (r: Connection)
        ensures
            r.wf(),
            r.stage() == Stage::Greeting,
            r.replies() == 0,
            r.auth()@ == self.auth()@,
    {
        Connection::new(self.auth.duplicate())
    }

    /// Hands out the next association id; ids wrap modulo 2^16.
    pub fn next_assoc_id(&mut self) -> (r: u16)
        ensures
            r == old(self).next_id(),
            final(self).next_id() == (old(self).next_id() + 1) % 0x10000,
            final(self).listen_addr() == old(self).listen_addr(),
            final(self).dual_stack() == old(self).dual_stack(),
            final(self).max_pkt_size() == old(self).max_pkt_size(),
            final(self).auth()@ == old(self).auth()@,
    {
        let id = self.next_assoc_id;
        self.next_assoc_id = if id == 0xffff {
            0
        } else {
            id + 1
        };
        id
    }
}

/// Where a SOCKS5 connection stands.
#[derive(Clone, Copy, Debug, PartialEq, Eq, Structural)]
pub enum Stage {
    /// Waiting for the client's method offer.
    Greeting,
    /// Waiting for username and password.
    Authenticating,
    /// Waiting for the command.
    Requesting,
    /// CONNECT handed to the transport; waiting for its answer.
    Connecting,
    /// UDP ASSOCIATE accepted; waiting for the association's socket.
    Associating,
    /// CONNECT succeeded: bytes are relayed.
    Relaying,
    /// UDP ASSOCIATE succeeded: datagrams are relayed while the control
    /// stream stays open.
    Associated,
    /// The connection is to be shut down.
    Closed,
}

/// Why the transport could not open a stream.
#[derive(Clone, Copy, Debug, PartialEq, Eq, Structural)]
pub enum TransportError {
    HostUnreachable,
    NetworkUnreachable,
    ConnectionRefused,
    TtlExpired,
    AddressTypeNotSupported,
    /// The request channel to the transport is closed.
    ConnectionGuardLost,
    Other,
}

pub open spec fn reply_for(e: TransportError) -> ReplyCode {
    match e {
        TransportError::HostUnreachable => ReplyCode::HostUnreachable,
        TransportError::NetworkUnreachable => ReplyCode::NetworkUnreachable,
        TransportError::ConnectionRefused => ReplyCode::ConnectionRefused,
        TransportError::TtlExpired => ReplyCode::TtlExpired,
        TransportError::AddressTypeNotSupported => ReplyCode::AddressTypeNotSupported,
        TransportError::ConnectionGuardLost => ReplyCode::GeneralFailure,
        TransportError::Other => ReplyCode::GeneralFailure,
    }
}

/// The reply code a transport failure is reported with.
pub fn reply_for_transport_error(e: TransportError) -> (r: ReplyCode)
    ensures
        r == reply_for(e),
{
    match e {
        TransportError::HostUnreachable => ReplyCode::HostUnreachable,
        TransportError::NetworkUnreachable => ReplyCode::NetworkUnreachable,
        TransportError::ConnectionRefused => ReplyCode::ConnectionRefused,
        TransportError::TtlExpired => ReplyCode::TtlExpired,
        TransportError::AddressTypeNotSupported => ReplyCode::AddressTypeNotSupported,
        TransportError::ConnectionGuardLost => ReplyCode::GeneralFailure,
        TransportError::Other => ReplyCode::GeneralFailure,
    }
}

/// What the driver of a connection does next.
pub enum Step {
    /// Read more bytes and call again with all unconsumed ones.
    NeedMore,
    /// Write `bytes`, drop `consumed` input bytes, and go on.
    Send { bytes: Vec<u8>, consumed: usize },
    /// Write `bytes`, then shut the connection down.
    SendAndClose { bytes: Vec<u8> },
    /// Shut the connection down without writing.
    Close,
    /// Drop `consumed` input bytes and ask the transport for a stream to
    /// `target`.
    Connect { target: Address, consumed: usize },
    /// Drop `consumed` input bytes and set up a UDP association.
    Associate { consumed: usize },
}

/// The reply sent after a successful CONNECT: success, bound to `0.0.0.0:0`.
pub open spec fn connect_success_bytes() -> Seq<u8> {
    reply_bytes((ReplyCode::Succeeded, AddressView::V4(seq![0u8, 0, 0, 0], 0)))
}

/// The reply that refuses a command with `code`, bound to `0.0.0.0:0`.
pub open spec fn failure_bytes(code: ReplyCode) -> Seq<u8> {
    reply_bytes((code, AddressView::V4(seq![0u8, 0, 0, 0], 0)))
}

/// The SOCKS5 exchange of one accepted connection, from the method offer to
/// relaying.
pub struct Connection {
    auth: Socks5Auth,
    stage: Stage,
    replies: Ghost<nat>,
}

fn reply_with(code: ReplyCode, address: Address) -> (r: Vec<u8>)
    requires
        address_wf(address@),
    ensures
        r@ == reply_bytes((code, address@)),
{
    Reply { reply: code, address }.encode()
}

impl Connection {
    pub fn new(auth: Socks5Auth) -> (r: Connection)
        ensures
            r.wf(),
            r.stage() == Stage::Greeting,
            r.replies() == 0,
            r.auth()@ == auth@,
    {
        Connection { auth, stage: Stage::Greeting, replies: Ghost(0) }
    }

    pub closed spec fn stage(&self) -> Stage {
        self.stage
    }

    pub closed spec fn auth(&self) -> &Socks5Auth {
        &self.auth
    }

    /// The number of command replies written so far.
    pub closed spec fn replies(&self) -> nat {
        self.replies@
    }

    /// Relaying stages come after exactly one reply; earlier stages after none.
    pub open spec fn wf(&self) -> bool {
        &&& (self.stage() == Stage::Relaying || self.stage() == Stage::Associated) ==> self.replies()
            == 1
        &&& (self.stage() != Stage::Relaying && self.stage() != Stage::Associated && self.stage()
            != Stage::Closed) ==> self.replies() == 0
        &&& self.replies() <= 1
    }

    pub open spec fn relaying(&self) -> bool {
        self.stage() == Stage::Relaying || self.stage() == Stage::Associated
    }

    pub fn get_stage(&self) -> (r: Stage)
        ensures
            r == self.stage(),
    {
        self.stage
    }

    /// Whether bytes may now be relayed.
    pub fn may_relay(&self) -> (r: bool)
        ensures
            r == self.relaying(),
    {
        self.stage == Stage::Relaying || self.stage == Stage::Associated
    }

    /// Feeds the bytes read so far (and not yet consumed) to the exchange.
    pub fn on_bytes(&mut self, buf: &[u8]) -> (r: Step)
        requires
            old(self).wf(),
        ensures
            final(self).wf(),
            final(self).auth()@ == old(self).auth()@,
            match old(self).stage() {
                Stage::Greeting => match parse_handshake_request(buf@) {
                    Err(DecodeError::Incomplete) => r is NeedMore && final(self).stage()
                        == Stage::Greeting,
                    Err(_) => r is Close && final(self).stage() == Stage::Closed,
                    Ok((offered, n)) => {
                        let m = chosen_method(old(self).auth()@, offered);
                        if m == METHOD_UNACCEPTABLE {
                            &&& r matches Step::SendAndClose { bytes }
                            &&& bytes@ == handshake_response_bytes(HandshakeResponse { method: m })
                            &&& final(self).stage() == Stage::Closed
                        } else {
                            &&& r matches Step::Send { bytes, consumed }
                            &&& bytes@ == handshake_response_bytes(HandshakeResponse { method: m })
                            &&& consumed == n
                            &&& final(self).stage() == if m == METHOD_PASSWORD {
                                Stage::Authenticating
                            } else {
                                Stage::Requesting
                            }
                        }
                    },
                },
                Stage::Authenticating => match parse_password_request(buf@) {
                    Err(DecodeError::Incomplete) => r is NeedMore && final(self).stage()
                        == Stage::Authenticating,
                    Err(_) => r is Close && final(self).stage() == Stage::Closed,
                    Ok((v, n)) => if credentials_match(old(self).auth()@, v.0, v.1) {
                        &&& r matches Step::Send { bytes, consumed }
                        &&& bytes@ == password_response_bytes(PasswordResponse { status: 0 })
                        &&& consumed == n
                        &&& final(self).stage() == Stage::Requesting
                    } else {
                        &&& r matches Step::SendAndClose { bytes }
                        &&& bytes@ == password_response_bytes(PasswordResponse { status: 1 })
                        &&& final(self).stage() == Stage::Closed
                    },
                },
                Stage::Requesting => match parse_request(buf@) {
                    Err(DecodeError::Incomplete) => r is NeedMore && final(self).stage()
                        == Stage::Requesting,
                    Err(_) => r is Close && final(self).stage() == Stage::Closed,
                    Ok((v, n)) => match v.0 {
                        Command::Connect => {
                            &&& r matches Step::Connect { target, consumed }
                            &&& target@ == v.1
                            &&& consumed == n
                            &&& final(self).stage() == Stage::Connecting
                        },
                        Command::Associate => {
                            &&& r matches Step::Associate { consumed }
                            &&& consumed == n
                            &&& final(self).stage() == Stage::Associating
                        },
                        Command::Bind => {
                            &&& r matches Step::SendAndClose { bytes }
                            &&& bytes@ == failure_bytes(ReplyCode::CommandNotSupported)
                            &&& final(self).stage() == Stage::Closed
                            &&& final(self).replies() == 1
                        },
                    },
                },
                _ => {
                    &&& r is NeedMore
                    &&& final(self).stage() == old(self).stage()
                    &&& final(self).replies() == old(self).replies()
                },
            },
    {
        match self.stage {
            Stage::Greeting => match HandshakeRequest::decode(buf) {
                Err(DecodeError::Incomplete) => Step::NeedMore,
                Err(_) => {
                    self.stage = Stage::Closed;
                    Step::Close
                },
                Ok((req, n)) => {
                    let m = self.auth.select_method(&req.methods);
                    let bytes = HandshakeResponse { method: m }.encode();
                    if m == METHOD_UNACCEPTABLE {
                        self.stage = Stage::Closed;
                        Step::SendAndClose { bytes }
                    } else {
                        self.stage = if m == METHOD_PASSWORD {
                            Stage::Authenticating
                        } else {
                            Stage::Requesting
                        };
                        Step::Send { bytes, consumed: n }
                    }
                },
            },
            Stage::Authenticating => match PasswordRequest::decode(buf) {
                Err(DecodeError::Incomplete) => Step::NeedMore,
                Err(_) => {
                    self.stage = Stage::Closed;
                    Step::Close
                },
                Ok((req, n)) => {
                    if self.auth.check(&req) {
                        self.stage = Stage::Requesting;
                        Step::Send { bytes: PasswordResponse { status: 0 }.encode(), consumed: n }
                    } else {
                        self.stage = Stage::Closed;
                        Step::SendAndClose { bytes: PasswordResponse { status: 1 }.encode() }
                    }
                },
            },
            Stage::Requesting => match Request::decode(buf) {
                Err(DecodeError::Incomplete) => Step::NeedMore,
                Err(_) => {
                    self.stage = Stage::Closed;
                    Step::Close
                },
                Ok((req, n)) => match req.command {
                    Command::Connect => {
                        self.stage = Stage::Connecting;
                        Step::Connect { target: req.address, consumed: n }
                    },
                    Command::Associate => {
                        self.stage = Stage::Associating;
                        Step::Associate { consumed: n }
                    },
                    Command::Bind => {
                        self.stage = Stage::Closed;
                        self.replies = Ghost(1);
                        let bytes = reply_with(ReplyCode::CommandNotSupported, Address::unspecified());
                        Step::SendAndClose { bytes }
                    },
                },
            },
            _ => Step::NeedMore,
        }
    }

    /// Takes the transport's answer to CONNECT and gives the reply to write.
    pub fn on_connect_result(&mut self, result: Result<(), TransportError>) -> (r: Step)
        requires
            old(self).wf(),
            old(self).stage() == Stage::Connecting,
        ensures
            final(self).wf(),
            final(self).auth()@ == old(self).auth()@,
            final(self).replies() == 1,
            match result {
                Ok(()) => {
                    &&& r matches Step::Send { bytes, consumed }
                    &&& bytes@ == connect_success_bytes()
                    &&& consumed == 0
                    &&& final(self).stage() == Stage::Relaying
                },
                Err(e) => {
                    &&& r matches Step::SendAndClose { bytes }
                    &&& bytes@ == failure_bytes(reply_for(e))
                    &&& final(self).stage() == Stage::Closed
                },
            },
    {
        self.replies = Ghost(1);
        match result {
            Ok(()) => {
                self.stage = Stage::Relaying;
                let bytes = reply_with(ReplyCode::Succeeded, Address::unspecified());
                Step::Send { bytes, consumed: 0 }
            },
            Err(e) => {
                self.stage = Stage::Closed;
                let bytes = reply_with(reply_for_transport_error(e), Address::unspecified());
                Step::SendAndClose { bytes }
            },
        }
    }

    /// Takes the local address of the association's UDP socket, or `None`
    /// where it could not be set up, and gives the reply to write.
    pub fn on_associated(&mut self, bound: Option<SocketAddress>) -> (r: Step)
        requires
            old(self).wf(),
            old(self).stage() == Stage::Associating,
        ensures
            final(self).wf(),
            final(self).auth()@ == old(self).auth()@,
            final(self).replies() == 1,
            match bound {
                Some(b) => {
                    &&& r matches Step::Send { bytes, consumed }
                    &&& bytes@ == reply_bytes((ReplyCode::Succeeded, b@))
                    &&& consumed == 0
                    &&& final(self).stage() == Stage::Associated
                },
                None => {
                    &&& r matches Step::SendAndClose { bytes }
                    &&& bytes@ == failure_bytes(ReplyCode::GeneralFailure)
                    &&& final(self).stage() == Stage::Closed
                },
            },
    {
        self.replies = Ghost(1);
        match bound {
            Some(b) => {
                self.stage = Stage::Associated;
                let bytes = reply_with(ReplyCode::Succeeded, Address::SocketAddress(b));
                Step::Send { bytes, consumed: 0 }
            },
            None => {
                self.stage = Stage::Closed;
                let bytes = reply_with(ReplyCode::GeneralFailure, Address::unspecified());
                Step::SendAndClose { bytes }
            },
        }
    }
}

/// A connection that relays bytes has written exactly one command reply.
pub proof fn lemma_one_reply_before_relay(c: Connection)
    requires
        c.wf(),
        c.relaying(),
    ensures
        c.replies() == 1,
{
}

} // verus!
