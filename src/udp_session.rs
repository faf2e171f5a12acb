use vstd::prelude::*;
use crate::address::{canonical, Address, AddressView, DecodeError, SocketAddress};
use crate::codec::{parse_udp_header, udp_header_bytes, UdpHeader};
use crate::error::Error;
use crate::server::{socket_setup, SocketSetup};
use std::collections::HashMap;

verus! {

broadcast use vstd::std_specs::hash::group_hash_axioms;

/// One SOCKS5 UDP association: its id, the control connection that asked
/// for it, and the peer its socket is locked to after the first datagram.
/// The peer is kept in canonical form.
pub struct UdpSession {
    assoc_id: u16,
    ctrl_addr: SocketAddress,
    max_pkt_size: usize,
    peer: Option<SocketAddress>,
    accepted: Ghost<Set<AddressView>>,
}

/// What happens to a datagram that reached the association's socket from
/// `src`, while the socket is locked to `peer`.
pub open spec fn ingress(peer: Option<AddressView>, src: AddressView, datagram: Seq<u8>) -> (
    Option<AddressView>,
    Result<(Seq<u8>, AddressView), Error>,
) {
    match parse_udp_header(datagram) {
        Err(e) => (peer, Err(Error::Decode(e))),
        Ok((h, n)) => {
            if peer is Some && peer->0 != canonical(src) {
                (peer, Err(Error::SourceAddressMismatch(arbitrary())))
            } else if h.0 != 0 {
                (Some(canonical(src)), Err(Error::FragmentedUdp))
            } else {
                (Some(canonical(src)), Ok((datagram.subrange(n, datagram.len() as int), h.1)))
            }
        },
    }
}

impl UdpSession {
    /// A new association, not yet locked to a peer.
    pub fn new(assoc_id: u16, ctrl_addr: SocketAddress, max_pkt_size: usize) -> (r: UdpSession)
        ensures
            r.wf(),
            r.assoc_id() == assoc_id,
            r.ctrl_addr()@ == ctrl_addr@,
            r.max_pkt_size() == max_pkt_size,
            r.peer() is None,
            r.accepted() == Set::<AddressView>::empty(),
    {
        UdpSession { assoc_id, ctrl_addr, max_pkt_size, peer: None, accepted: Ghost(Set::empty()) }
    }

    pub closed spec fn assoc_id(&self) -> u16 {
        self.assoc_id
    }

    pub closed spec fn ctrl_addr(&self) -> SocketAddress {
        self.ctrl_addr
    }

    pub closed spec fn max_pkt_size(&self) -> usize {
        self.max_pkt_size
    }

    /// The locked peer, in canonical form.
    pub closed spec fn peer(&self) -> Option<AddressView> {
        match self.peer {
            Some(p) => Some(p@),
            None => None,
        }
    }

    /// The canonical source addresses of every datagram accepted so far.
    pub closed spec fn accepted(&self) -> Set<AddressView> {
        self.accepted@
    }

    /// Only the locked peer's datagrams have been accepted.
    pub open spec fn wf(&self) -> bool {
        match self.peer() {
            None => self.accepted() == Set::<AddressView>::empty(),
            Some(p) => self.accepted().subset_of(set![p]),
        }
    }

    pub fn get_assoc_id(&self) -> (r: u16)
        ensures
            r == self.assoc_id(),
    {
        self.assoc_id
    }

    pub fn get_ctrl_addr(&self) -> (r: SocketAddress)
        ensures
            r@ == self.ctrl_addr()@,
    {
        self.ctrl_addr
    }

    pub fn get_max_pkt_size(&self) -> (r: usize)
        ensures
            r == self.max_pkt_size(),
    {
        self.max_pkt_size
    }

    /// The locked peer, in canonical form, if a datagram has come in.
    pub fn get_peer(&self) -> (r: Option<SocketAddress>)
        ensures
            match r {
                Some(p) => self.peer() == Some(p@),
                None => self.peer() is None,
            },
    {
        self.peer
    }

    /// How the association's socket is set up for the local address `local`.
    pub fn socket_setup(local: SocketAddress, dual_stack: Option<bool>) -> (r: SocketSetup)
        ensures
            r.ipv6 == (local@ is V6),
            r.bind@ == local@,
            r.only_v6 == (match dual_stack {
                Some(d) => Some(!d),
                None => None::<bool>,
            }),
    {
        socket_setup(local, dual_stack)
    }

    /// Takes a datagram that reached the socket from `src`. The first
    /// datagram that decodes locks the association to its source; later ones
    /// from any other source are refused. A fragmented datagram is refused
    /// (after locking). What is accepted is the payload and its destination.
    pub fn recv(&mut self, src: SocketAddress, datagram: &[u8]) -> (r: Result<
        (Vec<u8>, Address),
        Error,
    >)
        requires
            old(self).wf(),
        ensures
            final(self).wf(),
            final(self).assoc_id() == old(self).assoc_id(),
            final(self).ctrl_addr() == old(self).ctrl_addr(),
            final(self).max_pkt_size() == old(self).max_pkt_size(),
            final(self).peer() == ingress(old(self).peer(), src@, datagram@).0,
            match ingress(old(self).peer(), src@, datagram@).1 {
                Ok((payload, dst)) => {
                    &&& r matches Ok((p, d))
                    &&& p@ == payload
                    &&& d@ == dst
                    &&& final(self).accepted() == old(self).accepted().insert(canonical(src@))
                },
                Err(Error::SourceAddressMismatch(_)) => {
                    &&& r matches Err(Error::SourceAddressMismatch(a))
                    &&& a@ == src@
                    &&& final(self).accepted() == old(self).accepted()
                },
                Err(e) => r == Err::<(Vec<u8>, Address), Error>(e) && final(self).accepted()
                    == old(self).accepted(),
            },
    {
        let (header, n) = match UdpHeader::decode(datagram) {
            Ok(x) => x,
            Err(e) => return Err(Error::Decode(e)),
        };
        let source = src.canonical();
        match self.peer {
            Some(p) => {
                if !p.same_as(&source) {
                    return Err(Error::SourceAddressMismatch(src));
                }
            },
            None => {
                self.peer = Some(source);
            },
        }
        if header.frag != 0 {
            return Err(Error::FragmentedUdp);
        }
        let payload = crate::address::copy_bytes(datagram, n, datagram.len() - n);
        self.accepted = Ghost(self.accepted@.insert(source@));
        proof {
            assert(self.accepted@.subset_of(set![source@]));
        }
        Ok((payload, header.address))
    }

    /// The datagram that carries `pkt`, which came from `src_addr`, to the
    /// locked peer: a header with fragment 0 and the source, then the payload.
    pub fn send(&self, pkt: &[u8], src_addr: Address) -> (r: Result<Vec<u8>, Error>)
        requires
            crate::address::address_wf(src_addr@),
        ensures
            self.peer() is None ==> r matches Err(Error::NotConnected),
            self.peer() is Some ==> (r matches Ok(d) && d@ == udp_header_bytes((0, src_addr@))
                + pkt@),
    {
        if self.peer.is_none() {
            return Err(Error::NotConnected);
        }
        let mut out = UdpHeader { frag: 0, address: src_addr }.encode();
        let ghost head = out@;
        let mut i: usize = 0;
        while i < pkt.len()
            invariant
                i <= pkt@.len(),
                out@ =~= head + pkt@.subrange(0, i as int),
            decreases pkt@.len() - i,
        {
            out.push(pkt[i]);
            i = i + 1;
            assert(out@ =~= head + pkt@.subrange(0, i as int));
        }
        assert(pkt@.subrange(0, pkt@.len() as int) =~= pkt@);
        Ok(out)
    }
}

/// An association accepts datagrams from at most one source address,
/// counting an IPv4 address and its IPv4-mapped IPv6 form as one.
pub proof fn lemma_single_source(s: UdpSession)
    requires
        s.wf(),
    ensures
        s.accepted().len() <= 1,
        s.accepted().finite(),
{
    match s.peer() {
        None => {},
        Some(p) => {
            vstd::set_lib::lemma_len_subset(s.accepted(), set![p]);
            assert(set![p].len() == 1);
        },
    }
}

/// The process-wide table of live UDP associations, keyed by id. An entry
/// is added when an association starts and removed when its control stream
/// ends, and an id is not taken again while its entry stands.
pub struct SessionTable<T> {
    sessions: HashMap<u16, T>,
}

impl<T> SessionTable<T> {
    pub closed spec fn view(&self) -> Map<u16, T> {
        self.sessions@
    }

    pub fn new() -> (r: SessionTable<T>)
        ensures
            r.view() == Map::<u16, T>::empty(),
    {
        SessionTable { sessions: HashMap::new() }
    }

    /// Registers `session` under `id`, unless `id` is already taken.
    pub fn insert(&mut self, id: u16, session: T) -> (r: Result<(), Error>)
        ensures
            old(self).view().contains_key(id) ==> (r matches Err(Error::AssocIdInUse(i)) && i
                == id),
            old(self).view().contains_key(id) ==> final(self).view() == old(self).view(),
            !old(self).view().contains_key(id) ==> r is Ok && final(self).view() == old(
                self,
            ).view().insert(id, session),
    {
        if self.sessions.contains_key(&id) {
            return Err(Error::AssocIdInUse(id));
        }
        self.sessions.insert(id, session);
        Ok(())
    }

    /// The association registered under `id`.
    pub fn get(&self, id: u16) -> (r: Option<&T>)
        ensures
            match r {
                Some(s) => self.view().contains_key(id) && *s == self.view()[id],
                None => !self.view().contains_key(id),
            },
    {
        self.sessions.get(&id)
    }

    /// Removes the entry of `id`, when its control stream has ended.
    pub fn remove(&mut self, id: u16) -> (r: Option<T>)
        ensures
            final(self).view() == old(self).view().remove(id),
            match r {
                Some(s) => old(self).view().contains_key(id) && s == old(self).view()[id],
                None => !old(self).view().contains_key(id),
            },
    {
        self.sessions.remove(&id)
    }

    pub fn len(&self) -> (r: usize)
        ensures
            r == self.view().len(),
    {
        self.sessions.len()
    }
}

/// What happens to the association table: an association starts, or the
/// control stream of one ends.
pub enum TableEvent<T> {
    Open(u16, T),
    Close(u16),
}

pub open spec fn is_open_of<T>(e: TableEvent<T>, id: u16) -> bool {
    match e {
        TableEvent::Open(i, _) => i == id,
        TableEvent::Close(_) => false,
    }
}

pub open spec fn is_close_of<T>(e: TableEvent<T>, id: u16) -> bool {
    match e {
        TableEvent::Open(_, _) => false,
        TableEvent::Close(i) => i == id,
    }
}

/// The table after `events`, starting empty, as `insert` and `remove` leave it.
pub open spec fn table_after<T>(events: Seq<TableEvent<T>>) -> Map<u16, T>
    decreases events.len(),
{
    if events.len() == 0 {
        Map::empty()
    } else {
        let m = table_after(events.drop_last());
        match events.last() {
            TableEvent::Open(id, s) => if m.contains_key(id) {
                m
            } else {
                m.insert(id, s)
            },
            TableEvent::Close(id) => m.remove(id),
        }
    }
}

/// After any sequence of starts and ends, a lookup finds an id only if an
/// association was started under it and no control stream under it has
/// ended since.
pub proof fn lemma_table_live<T>(events: Seq<TableEvent<T>>, id: u16)
    ensures
        table_after(events).contains_key(id) ==> exists|j: int|
            0 <= j < events.len() && is_open_of(events[j], id) && (forall|k: int|
                j < k < events.len() ==> !is_close_of(events[k], id)),
    decreases events.len(),
{
    if events.len() > 0 {
        let pre = events.drop_last();
        let n = events.len() - 1;
        lemma_table_live(pre, id);
        if table_after(events).contains_key(id) {
            if is_open_of(events[n], id) {
                assert(is_open_of(events[n], id));
            } else {
                assert(table_after(pre).contains_key(id));
                let j = choose|j: int|
                    0 <= j < pre.len() && is_open_of(pre[j], id) && (forall|k: int|
                        j < k < pre.len() ==> !is_close_of(pre[k], id));
                assert(events[j] == pre[j]);
                assert forall|k: int| j < k < events.len() implies !is_close_of(events[k], id) by {
                    if k < n {
                        assert(events[k] == pre[k]);
                    }
                }
            }
        }
    }
}

} // verus!
