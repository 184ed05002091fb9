//! Datagram sockets: their buffer pool, their errors and what they decide
//! before and after each call into the engine.

use core::marker::PhantomData;

use vstd::prelude::*;

use embassy_net::udp::{BindError, RecvError, SendError};
use embassy_net::MulticastError;
use embedded_io_async::ErrorKind;

use crate::addr::{
    emb_addr, emb_bind_socket, emb_socket, net_addr, to_emb_addr, to_emb_bind_socket,
    to_emb_socket, to_net_socket, Features, IpAddr, IpAddress, IpEndpoint, IpListenEndpoint,
    SocketAddr,
};
use crate::sealed::{SealedDynPool, SocketBuffers};
use crate::{
    exhausted, free_slots, is_first_free, is_token_of, DynPool, Pool, Signal, Teardown, Token,
};

verus! {

/// The errors of the datagram-socket factory and of datagram sockets.
#[derive(PartialEq, Eq, Clone, Copy, Debug)]
pub enum UdpError {
    /// The engine failed to receive.
    Recv(RecvError),
    /// The engine failed to send.
    Send(SendError),
    /// The engine failed to bind.
    Bind(BindError),
    /// The engine's table of joined multicast groups is full.
    MulticastGroupTableFull,
    /// The engine cannot join or leave the multicast group.
    MulticastUnaddressable,
    /// The pool has no free slot.
    NoBuffers,
    /// The address is of a family that the engine was not built with, or the
    /// engine was built without what the call needs.
    UnsupportedProto,
}

impl From<RecvError> for UdpError {
    fn from(e: RecvError) -> (r: UdpError) {
        UdpError::Recv(e)
    }
}

impl vstd::std_specs::convert::FromSpecImpl<RecvError> for UdpError {
    open spec fn obeys_from_spec() -> bool {
        true
    }

    open spec fn from_spec(e: RecvError) -> UdpError {
        UdpError::Recv(e)
    }
}

impl From<SendError> for UdpError {
    fn from(e: SendError) -> (r: UdpError) {
        UdpError::Send(e)
    }
}

impl vstd::std_specs::convert::FromSpecImpl<SendError> for UdpError {
    open spec fn obeys_from_spec() -> bool {
        true
    }

    open spec fn from_spec(e: SendError) -> UdpError {
        UdpError::Send(e)
    }
}

impl From<BindError> for UdpError {
    fn from(e: BindError) -> (r: UdpError) {
        UdpError::Bind(e)
    }
}

impl vstd::std_specs::convert::FromSpecImpl<BindError> for UdpError {
    open spec fn obeys_from_spec() -> bool {
        true
    }

    open spec fn from_spec(e: BindError) -> UdpError {
        UdpError::Bind(e)
    }
}

impl From<MulticastError> for UdpError {
    fn from(e: MulticastError) -> (r: UdpError) {
        match e {
            MulticastError::GroupTableFull => UdpError::MulticastGroupTableFull,
            MulticastError::Unaddressable => UdpError::MulticastUnaddressable,
        }
    }
}

impl vstd::std_specs::convert::FromSpecImpl<MulticastError> for UdpError {
    open spec fn obeys_from_spec() -> bool {
        true
    }

    open spec fn from_spec(e: MulticastError) -> UdpError {
        match e {
            MulticastError::GroupTableFull => UdpError::MulticastGroupTableFull,
            MulticastError::Unaddressable => UdpError::MulticastUnaddressable,
        }
    }
}

impl UdpError {
    /// The kind of the error, as generic I/O code classifies errors.
    pub fn kind(&self) -> (kind: ErrorKind)
        ensures
            kind == match *self {
                UdpError::NoBuffers => ErrorKind::OutOfMemory,
                UdpError::UnsupportedProto => ErrorKind::InvalidInput,
                _ => ErrorKind::Other,
            },
    {
        match self {
            UdpError::Recv(_) => ErrorKind::Other,
            UdpError::Send(_) => ErrorKind::Other,
            UdpError::Bind(_) => ErrorKind::Other,
            UdpError::MulticastGroupTableFull => ErrorKind::Other,
            UdpError::MulticastUnaddressable => ErrorKind::Other,
            UdpError::NoBuffers => ErrorKind::OutOfMemory,
            UdpError::UnsupportedProto => ErrorKind::InvalidInput,
        }
    }
}

/// The regions of one slot of a datagram-socket pool.
#[derive(Debug)]
pub struct UdpSocketBuffers<MD> {
    /// The entries of the metadata rings are of this type.
    entries: PhantomData<MD>,
    /// The token that gives the slot back.
    token: Token,
    /// The number of entries of each of the two metadata rings.
    md_buf_len: usize,
    /// The length of the receive region.
    rx_buf_len: usize,
    /// The length of the transmit region.
    tx_buf_len: usize,
}

impl<MD> UdpSocketBuffers<MD> {
    /// The number of entries of each of the two metadata rings.
    pub closed spec fn spec_md_buf_len(&self) -> usize {
        self.md_buf_len
    }

    /// The number of entries of each of the two metadata rings.
    #[verifier::when_used_as_spec(spec_md_buf_len)]
    pub fn md_buf_len(&self) -> (len: usize)
        ensures
            len == self.spec_md_buf_len(),
    {
        self.md_buf_len
    }

    /// The length of the receive region.
    pub closed spec fn spec_rx_buf_len(&self) -> usize {
        self.rx_buf_len
    }

    /// The length of the receive region.
    #[verifier::when_used_as_spec(spec_rx_buf_len)]
    pub fn rx_buf_len(&self) -> (len: usize)
        ensures
            len == self.spec_rx_buf_len(),
    {
        self.rx_buf_len
    }

    /// The length of the transmit region.
    pub closed spec fn spec_tx_buf_len(&self) -> usize {
        self.tx_buf_len
    }

    /// The length of the transmit region.
    #[verifier::when_used_as_spec(spec_tx_buf_len)]
    pub fn tx_buf_len(&self) -> (len: usize)
        ensures
            len == self.spec_tx_buf_len(),
    {
        self.tx_buf_len
    }

    /// The token that gives the slot back.
    pub fn buffer_token(&self) -> (token: &Token)
        ensures
            *token == self.token(),
    {
        &self.token
    }
}

impl<MD> SocketBuffers for UdpSocketBuffers<MD> {
    type Slot = PacketContents<MD>;

    closed spec fn token(&self) -> Token {
        self.token
    }
}

/// What one slot of a packet-socket pool holds, without the sizes of its
/// regions.
pub struct PacketContents<MD> {
    /// The bytes of the transmit region.
    pub tx_buf: Seq<u8>,
    /// The bytes of the receive region.
    pub rx_buf: Seq<u8>,
    /// The entries of the transmit metadata ring.
    pub md_tx_buf: Seq<MD>,
    /// The entries of the receive metadata ring.
    pub md_rx_buf: Seq<MD>,
}

/// The storage of one slot of a datagram-socket pool.
///
/// The engine keeps in a metadata ring, entry by entry, where each packet lies
/// in the bytes of the region beside it. `MD` is the engine's entry type.
#[derive(Debug)]
pub struct UdpSlot<MD, const TX_SZ: usize, const RX_SZ: usize, const M: usize> {
    /// The transmit region.
    pub tx_buf: [u8; TX_SZ],
    /// The receive region.
    pub rx_buf: [u8; RX_SZ],
    /// The transmit metadata ring.
    pub md_tx_buf: [MD; M],
    /// The receive metadata ring.
    pub md_rx_buf: [MD; M],
}

impl<MD, const TX_SZ: usize, const RX_SZ: usize, const M: usize> View for UdpSlot<
    MD,
    TX_SZ,
    RX_SZ,
    M,
> {
    type V = PacketContents<MD>;

    open spec fn view(&self) -> PacketContents<MD> {
        PacketContents {
            tx_buf: self.tx_buf@,
            rx_buf: self.rx_buf@,
            md_tx_buf: self.md_tx_buf@,
            md_rx_buf: self.md_rx_buf@,
        }
    }
}

impl<MD: Copy, const TX_SZ: usize, const RX_SZ: usize, const M: usize> Clone for UdpSlot<
    MD,
    TX_SZ,
    RX_SZ,
    M,
> {
    fn clone(&self) -> (slot: Self)
        ensures
            slot == *self,
    {
        *self
    }
}

impl<MD: Copy, const TX_SZ: usize, const RX_SZ: usize, const M: usize> Copy for UdpSlot<
    MD,
    TX_SZ,
    RX_SZ,
    M,
> {

}

impl<MD: Copy, const TX_SZ: usize, const RX_SZ: usize, const M: usize> UdpSlot<
    MD,
    TX_SZ,
    RX_SZ,
    M,
> {
    /// A slot whose regions hold zeros and whose rings hold `empty` in every entry.
    pub fn new(empty: MD) -> (slot: Self)
        ensures
            forall|i: int| 0 <= i < TX_SZ ==> slot.tx_buf@[i] == 0,
            forall|i: int| 0 <= i < RX_SZ ==> slot.rx_buf@[i] == 0,
            forall|i: int| 0 <= i < M ==> slot.md_tx_buf@[i] == empty,
            forall|i: int| 0 <= i < M ==> slot.md_rx_buf@[i] == empty,
    {
        UdpSlot {
            tx_buf: [0u8; TX_SZ],
            rx_buf: [0u8; RX_SZ],
            md_tx_buf: [empty; M],
            md_rx_buf: [empty; M],
        }
    }
}

/// A pool of datagram-socket buffers: `N` slots, each a transmit region of
/// `TX_SZ` bytes, a receive region of `RX_SZ` bytes, and a transmit and a
/// receive ring of `M` metadata entries.
pub type UdpBuffers<
    MD,
    const N: usize,
    const TX_SZ: usize,
    const RX_SZ: usize,
    const M: usize,
> = Pool<UdpSlot<MD, TX_SZ, RX_SZ, M>, N>;

impl<MD, const N: usize, const TX_SZ: usize, const RX_SZ: usize, const M: usize> SealedDynPool<
    UdpSocketBuffers<MD>,
> for UdpBuffers<MD, N, TX_SZ, RX_SZ, M> {
    open spec fn pool_id(&self) -> usize {
        self.id()
    }

    open spec fn occupancy(&self) -> Seq<bool> {
        self.used()
    }

    open spec fn contents(&self) -> Seq<PacketContents<MD>> {
        Seq::new(self.storage().len(), |i: int| self.storage()[i]@)
    }

    fn allocate(&mut self) -> (r: Option<UdpSocketBuffers<MD>>)
        ensures
            final(self).storage() == old(self).storage(),
            r matches Some(buffers) ==> {
                &&& buffers.md_buf_len() == M
                &&& buffers.rx_buf_len() == RX_SZ
                &&& buffers.tx_buf_len() == TX_SZ
            },
    {
        match self.allocate_slot() {
            Some(token) => Some(
                UdpSocketBuffers {
                    entries: PhantomData,
                    token,
                    md_buf_len: M,
                    rx_buf_len: RX_SZ,
                    tx_buf_len: TX_SZ,
                },
            ),
            None => None,
        }
    }

    fn holds(&self, token: &Token) -> (b: bool) {
        self.holds_slot(token)
    }

    fn free(&mut self, token: Token)
        ensures
            final(self).storage() == old(self).storage(),
    {
        self.free_slot(token)
    }
}

impl<MD, const N: usize, const TX_SZ: usize, const RX_SZ: usize, const M: usize> DynPool<
    UdpSocketBuffers<MD>,
> for UdpBuffers<MD, N, TX_SZ, RX_SZ, M> {

}

/// The regions of one slot of a packet-socket pool, for the engine to work in.
pub struct PacketRegions<'a, MD> {
    /// The receive metadata ring.
    pub md_rx_buf: &'a mut [MD],
    /// The receive region.
    pub rx_buf: &'a mut [u8],
    /// The transmit metadata ring.
    pub md_tx_buf: &'a mut [MD],
    /// The transmit region.
    pub tx_buf: &'a mut [u8],
}

impl<MD, const N: usize, const TX_SZ: usize, const RX_SZ: usize, const M: usize> UdpBuffers<
    MD,
    N,
    TX_SZ,
    RX_SZ,
    M,
> {
    /// The regions of the slot of `token`. What is written to them is written
    /// to that slot; every other slot stays as it is.
    pub fn regions(&mut self, token: &Token) -> (regions: PacketRegions<'_, MD>)
        requires
            is_token_of(old(self).id(), old(self).used(), *token),
        ensures
            final(self).id() == old(self).id(),
            regions.tx_buf@ == old(self).storage()[token@].tx_buf@,
            regions.rx_buf@ == old(self).storage()[token@].rx_buf@,
            regions.md_tx_buf@ == old(self).storage()[token@].md_tx_buf@,
            regions.md_rx_buf@ == old(self).storage()[token@].md_rx_buf@,
            regions.tx_buf@.len() == TX_SZ,
            regions.rx_buf@.len() == RX_SZ,
            regions.md_tx_buf@.len() == M,
            regions.md_rx_buf@.len() == M,
            final(self).used() == old(self).used(),
            final(self).storage() == old(self).storage().update(
                token@,
                final(self).storage()[token@],
            ),
            final(self).storage()[token@].tx_buf@ == final(regions.tx_buf)@,
            final(self).storage()[token@].rx_buf@ == final(regions.rx_buf)@,
            final(self).storage()[token@].md_tx_buf@ == final(regions.md_tx_buf)@,
            final(self).storage()[token@].md_rx_buf@ == final(regions.md_rx_buf)@,
            old(self).contents()[token@] == (PacketContents {
                tx_buf: regions.tx_buf@,
                rx_buf: regions.rx_buf@,
                md_tx_buf: regions.md_tx_buf@,
                md_rx_buf: regions.md_rx_buf@,
            }),
            final(self).contents() == old(self).contents().update(
                token@,
                PacketContents {
                    tx_buf: final(regions.tx_buf)@,
                    rx_buf: final(regions.rx_buf)@,
                    md_tx_buf: final(regions.md_tx_buf)@,
                    md_rx_buf: final(regions.md_rx_buf)@,
                },
            ),
    {
        proof {
            self.lemma_capacity();
        }
        let slot = self.slot_mut(token);
        PacketRegions {
            md_rx_buf: &mut slot.md_rx_buf,
            rx_buf: &mut slot.rx_buf,
            md_tx_buf: &mut slot.md_tx_buf,
            tx_buf: &mut slot.tx_buf,
        }
    }
}

/// A change of multicast membership for the engine to make.
#[derive(Clone, Copy, Debug, PartialEq, Eq)]
pub enum Membership {
    /// Join the group.
    Join(IpAddress),
    /// Leave the group.
    Leave(IpAddress),
}

/// The engine's form of the multicast group `group`, where the engine was
/// built with multicast and with the group's family.
pub open spec fn emb_group(group: IpAddr, features: Features) -> Option<IpAddress> {
    if features.multicast {
        emb_addr(group, features)
    } else {
        None
    }
}

/// The engine's form of the multicast group `group`, or
/// [`UdpError::UnsupportedProto`] where the engine was built without multicast
/// or without the group's family.
fn to_emb_group(group: IpAddr, features: Features) -> (r: Result<IpAddress, UdpError>)
    ensures
        r == match emb_group(group, features) {
            Some(addr) => Ok::<IpAddress, UdpError>(addr),
            None => Err(UdpError::UnsupportedProto),
        },
{
    if !features.multicast {
        return Err(UdpError::UnsupportedProto);
    }
    match to_emb_addr(group, features) {
        Some(addr) => Ok(addr),
        None => Err(UdpError::UnsupportedProto),
    }
}

/// A datagram socket: the owner of one slot of a datagram-socket pool from
/// construction to teardown.
#[derive(Debug)]
pub struct UdpSocket {
    /// What the engine was built with.
    features: Features,
    /// The token of the socket's slot.
    buffer_token: Token,
}

impl UdpSocket {
    /// The token of the socket's slot.
    pub closed spec fn token(&self) -> Token {
        self.buffer_token
    }

    /// What the engine was built with.
    pub closed spec fn features(&self) -> Features {
        self.features
    }

    /// Takes a slot of `stack_buffers` for a new socket, or fails with
    /// [`UdpError::NoBuffers`] when every slot is taken.
    pub fn new<MD, P: DynPool<UdpSocketBuffers<MD>> + ?Sized>(
        features: Features,
        stack_buffers: &mut P,
    ) -> (r: Result<Self, UdpError>)
        ensures
            match r {
                Ok(socket) => {
                    &&& socket.token().pool() == old(stack_buffers).pool_id()
                    &&& is_first_free(old(stack_buffers).occupancy(), socket.token()@)
                    &&& final(stack_buffers).occupancy() == old(stack_buffers).occupancy().update(
                        socket.token()@,
                        true,
                    )
                    &&& socket.features() == features
                },
                Err(e) => {
                    &&& e == UdpError::NoBuffers
                    &&& exhausted(old(stack_buffers).occupancy())
                    &&& final(stack_buffers).occupancy() == old(stack_buffers).occupancy()
                },
            },
            r is Ok <==> free_slots(old(stack_buffers).occupancy()) > 0,
            r is Ok ==> free_slots(final(stack_buffers).occupancy()) + 1 == free_slots(
                old(stack_buffers).occupancy(),
            ),
            final(stack_buffers).contents() == old(stack_buffers).contents(),
            final(stack_buffers).pool_id() == old(stack_buffers).pool_id(),
    {
        match stack_buffers.allocate() {
            Some(socket_buffers) => Ok(
                UdpSocket { features, buffer_token: socket_buffers.token },
            ),
            None => Err(UdpError::NoBuffers),
        }
    }

    /// The token of the socket's slot.
    pub fn buffer_token(&self) -> (token: &Token)
        ensures
            *token == self.token(),
    {
        &self.buffer_token
    }

    /// Ends the socket's life: the socket becomes a [`Teardown`], which asks
    /// for the engine handle to be closed and then gives the slot back.
    pub fn teardown<MD>(self) -> (teardown: Teardown<UdpSocketBuffers<MD>>)
        ensures
            teardown.token() == self.token(),
            teardown.spec_signal() == Some(Signal::Close),
    {
        Teardown::new(Some(Signal::Close), self.buffer_token)
    }

    /// The result of a bind, from what the engine answered to it.
    pub fn bound(&self, outcome: Result<(), BindError>) -> (r: Result<(), UdpError>)
        ensures
            r == match outcome {
                Ok(_) => Ok::<(), UdpError>(()),
                Err(e) => Err(UdpError::Bind(e)),
            },
    {
        match outcome {
            Ok(_) => Ok(()),
            Err(e) => Err(UdpError::Bind(e)),
        }
    }

    /// The result of a receive, from what the engine answered to it: the
    /// length of the datagram and the endpoint that it came from, or the
    /// engine's error.
    pub fn receive(&self, outcome: Result<(usize, IpEndpoint), RecvError>) -> (r: Result<
        (usize, SocketAddr),
        UdpError,
    >)
        ensures
            r == match outcome {
                Ok((len, remote)) => Ok::<(usize, SocketAddr), UdpError>(
                    (len, SocketAddr { ip: net_addr(remote.addr), port: remote.port }),
                ),
                Err(e) => Err(UdpError::Recv(e)),
            },
    {
        match outcome {
            Ok((len, remote)) => Ok((len, to_net_socket(remote))),
            Err(e) => Err(UdpError::Recv(e)),
        }
    }

    /// Prepares to send a datagram to `remote`: gives the endpoint for the
    /// engine to send to, or fails with [`UdpError::UnsupportedProto`] where
    /// the engine was not built with the family of `remote`.
    pub fn send(&self, remote: SocketAddr) -> (r: Result<IpEndpoint, UdpError>)
        ensures
            r == match emb_socket(remote, self.features()) {
                Some(endpoint) => Ok::<IpEndpoint, UdpError>(endpoint),
                None => Err(UdpError::UnsupportedProto),
            },
    {
        match to_emb_socket(remote, self.features) {
            Some(endpoint) => Ok(endpoint),
            None => Err(UdpError::UnsupportedProto),
        }
    }

    /// The result of a send, from what the engine answered to it.
    pub fn sent(&self, outcome: Result<(), SendError>) -> (r: Result<(), UdpError>)
        ensures
            r == match outcome {
                Ok(_) => Ok::<(), UdpError>(()),
                Err(e) => Err(UdpError::Send(e)),
            },
    {
        match outcome {
            Ok(_) => Ok(()),
            Err(e) => Err(UdpError::Send(e)),
        }
    }

    /// The two halves of the socket, one to receive and one to send. Both
    /// borrow the socket, neither holds its token.
    pub fn split(&mut self) -> (halves: (&Self, &Self))
        ensures
            *halves.0 == *old(self),
            *halves.1 == *old(self),
            *final(self) == *old(self),
    {
        let socket: &UdpSocket = &*self;
        (socket, socket)
    }

    /// Prepares to join the IPv4 multicast group `multicast_addr`: gives the
    /// request for the engine, or fails with [`UdpError::UnsupportedProto`]
    /// where the engine was built without multicast or without IPv4.
    pub fn join_v4(&self, multicast_addr: [u8; 4], _interface: [u8; 4]) -> (r: Result<
        Membership,
        UdpError,
    >)
        ensures
            r == match emb_group(IpAddr::V4(multicast_addr), self.features()) {
                Some(group) => Ok::<Membership, UdpError>(Membership::Join(group)),
                None => Err(UdpError::UnsupportedProto),
            },
    {
        match to_emb_group(IpAddr::V4(multicast_addr), self.features) {
            Ok(group) => Ok(Membership::Join(group)),
            Err(e) => Err(e),
        }
    }

    /// Prepares to leave the IPv4 multicast group `multicast_addr`: gives the
    /// request for the engine, or fails with [`UdpError::UnsupportedProto`]
    /// where the engine was built without multicast or without IPv4.
    pub fn leave_v4(&self, multicast_addr: [u8; 4], _interface: [u8; 4]) -> (r: Result<
        Membership,
        UdpError,
    >)
        ensures
            r == match emb_group(IpAddr::V4(multicast_addr), self.features()) {
                Some(group) => Ok::<Membership, UdpError>(Membership::Leave(group)),
                None => Err(UdpError::UnsupportedProto),
            },
    {
        match to_emb_group(IpAddr::V4(multicast_addr), self.features) {
            Ok(group) => Ok(Membership::Leave(group)),
            Err(e) => Err(e),
        }
    }

    /// Prepares to join the IPv6 multicast group `multicast_addr`: gives the
    /// request for the engine, or fails with [`UdpError::UnsupportedProto`]
    /// where the engine was built without multicast or without IPv6.
    pub fn join_v6(&self, multicast_addr: [u8; 16], _interface: u32) -> (r: Result<
        Membership,
        UdpError,
    >)
        ensures
            r == match emb_group(IpAddr::V6(multicast_addr), self.features()) {
                Some(group) => Ok::<Membership, UdpError>(Membership::Join(group)),
                None => Err(UdpError::UnsupportedProto),
            },
    {
        match to_emb_group(IpAddr::V6(multicast_addr), self.features) {
            Ok(group) => Ok(Membership::Join(group)),
            Err(e) => Err(e),
        }
    }

    /// Prepares to leave the IPv6 multicast group `multicast_addr`: gives the
    /// request for the engine, or fails with [`UdpError::UnsupportedProto`]
    /// where the engine was built without multicast or without IPv6.
    pub fn leave_v6(&self, multicast_addr: [u8; 16], _interface: u32) -> (r: Result<
        Membership,
        UdpError,
    >)
        ensures
            r == match emb_group(IpAddr::V6(multicast_addr), self.features()) {
                Some(group) => Ok::<Membership, UdpError>(Membership::Leave(group)),
                None => Err(UdpError::UnsupportedProto),
            },
    {
        match to_emb_group(IpAddr::V6(multicast_addr), self.features) {
            Ok(group) => Ok(Membership::Leave(group)),
            Err(e) => Err(e),
        }
    }

    /// The result of a change of multicast membership, from what the engine
    /// answered to it.
    pub fn membership_changed(&self, outcome: Result<(), MulticastError>) -> (r: Result<
        (),
        UdpError,
    >)
        ensures
            r == match outcome {
                Ok(_) => Ok::<(), UdpError>(()),
                Err(MulticastError::GroupTableFull) => Err(UdpError::MulticastGroupTableFull),
                Err(MulticastError::Unaddressable) => Err(UdpError::MulticastUnaddressable),
            },
    {
        match outcome {
            Ok(_) => Ok(()),
            Err(e) => Err(UdpError::from(e)),
        }
    }
}

/// The factory of datagram sockets for an engine that was built with `features`.
#[derive(Clone, Copy, Debug)]
pub struct Udp {
    /// What the engine was built with.
    features: Features,
}

impl Udp {
    /// What the engine was built with.
    pub closed spec fn features(&self) -> Features {
        self.features
    }

    /// Creates the factory for an engine that was built with `features`.
    pub fn new(features: Features) -> (udp: Self)
        ensures
            udp.features() == features,
    {
        Udp { features }
    }

    /// Prepares a socket bound to `local`: takes a slot of `buffers` for the
    /// socket and gives the endpoint that the engine is to bind it to.
    ///
    /// Fails with [`UdpError::UnsupportedProto`] where the engine was not built
    /// with the family of `local`, and otherwise with [`UdpError::NoBuffers`]
    /// when every slot is taken. A failure leaves `buffers` as it was.
    pub fn bind<MD, P: DynPool<UdpSocketBuffers<MD>> + ?Sized>(
        &self,
        buffers: &mut P,
        local: SocketAddr,
    ) -> (r: Result<(UdpSocket, IpListenEndpoint), UdpError>)
        ensures
            match r {
                Ok((socket, endpoint)) => {
                    &&& socket.token().pool() == old(buffers).pool_id()
                    &&& is_first_free(old(buffers).occupancy(), socket.token()@)
                    &&& final(buffers).occupancy() == old(buffers).occupancy().update(
                        socket.token()@,
                        true,
                    )
                    &&& socket.features() == self.features()
                    &&& emb_bind_socket(local, self.features()) == Some(endpoint)
                },
                Err(e) => {
                    &&& final(buffers).occupancy() == old(buffers).occupancy()
                    &&& e == if emb_bind_socket(local, self.features()) is None {
                        UdpError::UnsupportedProto
                    } else {
                        UdpError::NoBuffers
                    }
                },
            },
            r is Ok <==> emb_bind_socket(local, self.features()) is Some && free_slots(
                old(buffers).occupancy(),
            ) > 0,
            r is Ok ==> free_slots(final(buffers).occupancy()) + 1 == free_slots(
                old(buffers).occupancy(),
            ),
            final(buffers).contents() == old(buffers).contents(),
            final(buffers).pool_id() == old(buffers).pool_id(),
    {
        let endpoint = match to_emb_bind_socket(local, self.features) {
            Some(endpoint) => endpoint,
            None => {
                return Err(UdpError::UnsupportedProto);
            },
        };
        match UdpSocket::new(self.features, buffers) {
            Ok(socket) => Ok((socket, endpoint)),
            Err(e) => Err(e),
        }
    }
}

} // verus!
