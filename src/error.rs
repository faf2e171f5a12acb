use vstd::prelude::*;
use crate::address::{DecodeError, SocketAddress};

verus! {

/// What the library reports.
#[derive(Clone, Copy, Debug)]
pub enum Error {
    /// Bytes on the wire did not decode.
    Decode(DecodeError),
    /// Exactly one of username and password was configured.
    InvalidSocks5Auth,
    /// A UDP datagram carried a fragment number other than 0.
    FragmentedUdp,
    /// A UDP datagram came from another address than the association's peer.
    SourceAddressMismatch(SocketAddress),
    /// The association has not received a datagram yet, so it has no peer.
    NotConnected,
    /// An association with this id is still registered.
    AssocIdInUse(u16),
}

} // verus!
