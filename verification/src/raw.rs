//! Raw sockets: their buffer pool, their errors and their life from
//! construction to teardown.

use core::marker::PhantomData;

use vstd::prelude::*;

use embassy_net::raw::RecvError;
use embedded_io_async::ErrorKind;

use crate::engine::{raw_recv_error_name, tagged_raw_recv_error};
use crate::sealed::{SealedDynPool, SocketBuffers};
use crate::udp::{PacketContents, PacketRegions};
use crate::{
    exhausted, free_slots, is_first_free, is_token_of, DynPool, Pool, Signal, Teardown, Token,
};

verus! {

/// The errors of the raw-socket factory and of raw sockets.
#[derive(PartialEq, Eq, Clone, Copy, Debug)]
pub enum RawError {
    /// The engine failed to receive.
    Recv(RecvError),
    /// The pool has no free slot.
    NoBuffers,
}

impl From<RecvError> for RawError {
    fn from(e: RecvError) -> (r: RawError) {
        RawError::Recv(e)
    }
}

impl vstd::std_specs::convert::FromSpecImpl<RecvError> for RawError {
    open spec fn obeys_from_spec() -> bool {
        true
    }

    open spec fn from_spec(e: RecvError) -> RawError {
        RawError::Recv(e)
    }
}

impl RawError {
    /// The text of the error: for an error of the engine, the operation that
    /// failed and then the engine's own word for the error.
    pub fn to_string(&self) -> (text: String)
        ensures
            text@ == match *self {
                RawError::Recv(e) => "Raw receive error: "@ + raw_recv_error_name(e),
                RawError::NoBuffers => "No raw socket buffers available"@,
            },
    {
        match self {
            RawError::Recv(e) => tagged_raw_recv_error("Raw receive error: ", e),
            RawError::NoBuffers => "No raw socket buffers available".to_owned(),
        }
    }

    /// The kind of the error, as generic I/O code classifies errors.
    pub fn kind(&self) -> (kind: ErrorKind)
        ensures
            kind == match *self {
                RawError::NoBuffers => ErrorKind::OutOfMemory,
                _ => ErrorKind::Other,
            },
    {
        match self {
            RawError::NoBuffers => ErrorKind::OutOfMemory,
            _ => ErrorKind::Other,
        }
    }
}

/// The regions of one slot of a raw-socket pool.
#[derive(Debug)]
pub struct RawSocketBuffers<MD> {
    /// The entries of the metadata rings are of this type.
    entries: PhantomData<MD>,
    /// The token that gives the slot back.
    token: Token,
    /// The number of entries of each of the two metadata rings.
    md_buf_len: usize,
    /// The length of the receive region.
    rx_buf_len: usize,
    /// The length of the transmit region.
    tx_buf_len: usize,
}

impl<MD> RawSocketBuffers<MD> {
    /// The number of entries of each of the two metadata rings.
    pub closed spec fn spec_md_buf_len(&self) -> usize {
        self.md_buf_len
    }

    /// The number of entries of each of the two metadata rings.
    #[verifier::when_used_as_spec(spec_md_buf_len)]
    pub fn md_buf_len(&self) -> (len: usize)
        ensures
            len == self.spec_md_buf_len(),
    {
        self.md_buf_len
    }

    /// The length of the receive region.
    pub closed spec fn spec_rx_buf_len(&self) -> usize {
        self.rx_buf_len
    }

    /// The length of the receive region.
    #[verifier::when_used_as_spec(spec_rx_buf_len)]
    pub fn rx_buf_len(&self) -> (len: usize)
        ensures
            len == self.spec_rx_buf_len(),
    {
        self.rx_buf_len
    }

    /// The length of the transmit region.
    pub closed spec fn spec_tx_buf_len(&self) -> usize {
        self.tx_buf_len
    }

    /// The length of the transmit region.
    #[verifier::when_used_as_spec(spec_tx_buf_len)]
    pub fn tx_buf_len(&self) -> (len: usize)
        ensures
            len == self.spec_tx_buf_len(),
    {
        self.tx_buf_len
    }

    /// The token that gives the slot back.
    pub fn buffer_token(&self) -> (token: &Token)
        ensures
            *token == self.token(),
    {
        &self.token
    }
}

impl<MD> SocketBuffers for RawSocketBuffers<MD> {
    type Slot = PacketContents<MD>;

    closed spec fn token(&self) -> Token {
        self.token
    }
}

/// The storage of one slot of a raw-socket pool.
///
/// The engine keeps in a metadata ring, entry by entry, where each packet lies
/// in the bytes of the region beside it. `MD` is the engine's entry type.
#[derive(Debug)]
pub struct RawSlot<MD, const TX_SZ: usize, const RX_SZ: usize, const M: usize> {
    /// The transmit region.
    pub tx_buf: [u8; TX_SZ],
    /// The receive region.
    pub rx_buf: [u8; RX_SZ],
    /// The transmit metadata ring.
    pub md_tx_buf: [MD; M],
    /// The receive metadata ring.
    pub md_rx_buf: [MD; M],
}

impl<MD, const TX_SZ: usize, const RX_SZ: usize, const M: usize> View for RawSlot<
    MD,
    TX_SZ,
    RX_SZ,
    M,
> {
    type V = PacketContents<MD>;

    open spec fn view(&self) -> PacketContents<MD> {
        PacketContents {
            tx_buf: self.tx_buf@,
            rx_buf: self.rx_buf@,
            md_tx_buf: self.md_tx_buf@,
            md_rx_buf: self.md_rx_buf@,
        }
    }
}

impl<MD: Copy, const TX_SZ: usize, const RX_SZ: usize, const M: usize> Clone for RawSlot<
    MD,
    TX_SZ,
    RX_SZ,
    M,
> {
    fn clone(&self) -> (slot: Self)
        ensures
            slot == *self,
    {
        *self
    }
}

impl<MD: Copy, const TX_SZ: usize, const RX_SZ: usize, const M: usize> Copy for RawSlot<
    MD,
    TX_SZ,
    RX_SZ,
    M,
> {

}

impl<MD: Copy, const TX_SZ: usize, const RX_SZ: usize, const M: usize> RawSlot<
    MD,
    TX_SZ,
    RX_SZ,
    M,
> {
    /// A slot whose regions hold zeros and whose rings hold `empty` in every entry.
    pub fn new(empty: MD) -> (slot: Self)
        ensures
            forall|i: int| 0 <= i < TX_SZ ==> slot.tx_buf@[i] == 0,
            forall|i: int| 0 <= i < RX_SZ ==> slot.rx_buf@[i] == 0,
            forall|i: int| 0 <= i < M ==> slot.md_tx_buf@[i] == empty,
            forall|i: int| 0 <= i < M ==> slot.md_rx_buf@[i] == empty,
    {
        RawSlot {
            tx_buf: [0u8; TX_SZ],
            rx_buf: [0u8; RX_SZ],
            md_tx_buf: [empty; M],
            md_rx_buf: [empty; M],
        }
    }
}

/// A pool of raw-socket buffers: `N` slots, each a transmit region of `TX_SZ`
/// bytes, a receive region of `RX_SZ` bytes, and a transmit and a receive
/// ring of `M` metadata entries.
pub type RawBuffers<
    MD,
    const N: usize,
    const TX_SZ: usize,
    const RX_SZ: usize,
    const M: usize,
> = Pool<RawSlot<MD, TX_SZ, RX_SZ, M>, N>;

impl<MD, const N: usize, const TX_SZ: usize, const RX_SZ: usize, const M: usize> SealedDynPool<
    RawSocketBuffers<MD>,
> for RawBuffers<MD, N, TX_SZ, RX_SZ, M> {
    open spec fn pool_id(&self) -> usize {
        self.id()
    }

    open spec fn occupancy(&self) -> Seq<bool> {
        self.used()
    }

    open spec fn contents(&self) -> Seq<PacketContents<MD>> {
        Seq::new(self.storage().len(), |i: int| self.storage()[i]@)
    }

    fn allocate(&mut self) -> (r: Option<RawSocketBuffers<MD>>)
        ensures
            final(self).storage() == old(self).storage(),
            r matches Some(buffers) ==> {
                &&& buffers.md_buf_len() == M
                &&& buffers.rx_buf_len() == RX_SZ
                &&& buffers.tx_buf_len() == TX_SZ
            },
    {
        match self.allocate_slot() {
            Some(token) => Some(
                RawSocketBuffers {
                    entries: PhantomData,
                    token,
                    md_buf_len: M,
                    rx_buf_len: RX_SZ,
                    tx_buf_len: TX_SZ,
                },
            ),
            None => None,
        }
    }

    fn holds(&self, token: &Token) -> (b: bool) {
        self.holds_slot(token)
    }

    fn free(&mut self, token: Token)
        ensures
            final(self).storage() == old(self).storage(),
    {
        self.free_slot(token)
    }
}

impl<MD, const N: usize, const TX_SZ: usize, const RX_SZ: usize, const M: usize> DynPool<
    RawSocketBuffers<MD>,
> for RawBuffers<MD, N, TX_SZ, RX_SZ, M> {

}

impl<MD, const N: usize, const TX_SZ: usize, const RX_SZ: usize, const M: usize> RawBuffers<
    MD,
    N,
    TX_SZ,
    RX_SZ,
    M,
> {
    /// The regions of the slot of `token`. What is written to them is written
    /// to that slot; every other slot stays as it is.
    pub fn regions(&mut self, token: &Token) -> (regions: PacketRegions<'_, MD>)
        requires
            is_token_of(old(self).id(), old(self).used(), *token),
        ensures
            final(self).id() == old(self).id(),
            regions.tx_buf@ == old(self).storage()[token@].tx_buf@,
            regions.rx_buf@ == old(self).storage()[token@].rx_buf@,
            regions.md_tx_buf@ == old(self).storage()[token@].md_tx_buf@,
            regions.md_rx_buf@ == old(self).storage()[token@].md_rx_buf@,
            regions.tx_buf@.len() == TX_SZ,
            regions.rx_buf@.len() == RX_SZ,
            regions.md_tx_buf@.len() == M,
            regions.md_rx_buf@.len() == M,
            final(self).used() == old(self).used(),
            final(self).storage() == old(self).storage().update(
                token@,
                final(self).storage()[token@],
            ),
            final(self).storage()[token@].tx_buf@ == final(regions.tx_buf)@,
            final(self).storage()[token@].rx_buf@ == final(regions.rx_buf)@,
            final(self).storage()[token@].md_tx_buf@ == final(regions.md_tx_buf)@,
            final(self).storage()[token@].md_rx_buf@ == final(regions.md_rx_buf)@,
            old(self).contents()[token@] == (PacketContents {
                tx_buf: regions.tx_buf@,
                rx_buf: regions.rx_buf@,
                md_tx_buf: regions.md_tx_buf@,
                md_rx_buf: regions.md_rx_buf@,
            }),
            final(self).contents() == old(self).contents().update(
                token@,
                PacketContents {
                    tx_buf: final(regions.tx_buf)@,
                    rx_buf: final(regions.rx_buf)@,
                    md_tx_buf: final(regions.md_tx_buf)@,
                    md_rx_buf: final(regions.md_rx_buf)@,
                },
            ),
    {
        proof {
            self.lemma_capacity();
        }
        let slot = self.slot_mut(token);
        PacketRegions {
            md_rx_buf: &mut slot.md_rx_buf,
            rx_buf: &mut slot.rx_buf,
            md_tx_buf: &mut slot.md_tx_buf,
            tx_buf: &mut slot.tx_buf,
        }
    }
}

/// A raw socket: the owner of one slot of a raw-socket pool from construction
/// to teardown.
#[derive(Debug)]
pub struct RawSocket {
    /// The token of the socket's slot.
    buffer_token: Token,
}

impl RawSocket {
    /// The token of the socket's slot.
    pub closed spec fn token(&self) -> Token {
        self.buffer_token
    }

    /// Takes a slot of `stack_buffers` for a new socket, or fails with
    /// [`RawError::NoBuffers`] when every slot is taken.
    pub fn new<MD, P: DynPool<RawSocketBuffers<MD>> + ?Sized>(stack_buffers: &mut P) -> (r: Result<
        Self,
        RawError,
    >)
        ensures
            match r {
                Ok(socket) => {
                    &&& socket.token().pool() == old(stack_buffers).pool_id()
                    &&& is_first_free(old(stack_buffers).occupancy(), socket.token()@)
                    &&& final(stack_buffers).occupancy() == old(stack_buffers).occupancy().update(
                        socket.token()@,
                        true,
                    )
                },
                Err(e) => {
                    &&& e == RawError::NoBuffers
                    &&& exhausted(old(stack_buffers).occupancy())
                    &&& final(stack_buffers).occupancy() == old(stack_buffers).occupancy()
                },
            },
            r is Ok <==> free_slots(old(stack_buffers).occupancy()) > 0,
            r is Ok ==> free_slots(final(stack_buffers).occupancy()) + 1 == free_slots(
                old(stack_buffers).occupancy(),
            ),
            final(stack_buffers).contents() == old(stack_buffers).contents(),
            final(stack_buffers).pool_id() == old(stack_buffers).pool_id(),
    {
        match stack_buffers.allocate() {
            Some(socket_buffers) => Ok(RawSocket { buffer_token: socket_buffers.token }),
            None => Err(RawError::NoBuffers),
        }
    }

    /// The token of the socket's slot.
    pub fn buffer_token(&self) -> (token: &Token)
        ensures
            *token == self.token(),
    {
        &self.buffer_token
    }

    /// Ends the socket's life: the socket becomes a [`Teardown`], which asks
    /// for the engine handle to be closed and then gives the slot back.
    pub fn teardown<MD>(self) -> (teardown: Teardown<RawSocketBuffers<MD>>)
        ensures
            teardown.token() == self.token(),
            teardown.spec_signal() == Some(Signal::Close),
    {
        Teardown::new(Some(Signal::Close), self.buffer_token)
    }

    /// The result of a receive, from what the engine answered to it: the
    /// length of the packet, with a link-layer address of zeros, as a raw
    /// socket learns none.
    pub fn receive(&self, outcome: Result<usize, RecvError>) -> (r: Result<
        (usize, [u8; 6]),
        RawError,
    >)
        ensures
            match outcome {
                Ok(len) => r matches Ok((n, mac)) && n == len && mac@ == seq![
                    0u8,
                    0u8,
                    0u8,
                    0u8,
                    0u8,
                    0u8,
                ],
                Err(e) => r == Err::<(usize, [u8; 6]), RawError>(RawError::Recv(e)),
            },
    {
        match outcome {
            Ok(len) => Ok((len, [0u8; 6])),
            Err(e) => Err(RawError::Recv(e)),
        }
    }

    /// The two halves of the socket, one to receive and one to send. Both
    /// borrow the socket, neither holds its token.
    pub fn split(&mut self) -> (halves: (&Self, &Self))
        ensures
            *halves.0 == *old(self),
            *halves.1 == *old(self),
            *final(self) == *old(self),
    {
        let socket: &RawSocket = &*self;
        (socket, socket)
    }
}

/// The factory of raw sockets.
#[derive(Clone, Copy, Debug)]
pub struct Raw {}

impl Raw {
    /// Creates the factory.
    pub fn new() -> (raw: Self)
        ensures
            raw == (Raw {  }),
    {
        Raw {  }
    }

    /// Takes a slot of `buffers` for a new socket, or fails with
    /// [`RawError::NoBuffers`] when every slot is taken.
    pub fn bind<MD, P: DynPool<RawSocketBuffers<MD>> + ?Sized>(&self, buffers: &mut P) -> (r: Result<
        RawSocket,
        RawError,
    >)
        ensures
            match r {
                Ok(socket) => {
                    &&& socket.token().pool() == old(buffers).pool_id()
                    &&& is_first_free(old(buffers).occupancy(), socket.token()@)
                    &&& final(buffers).occupancy() == old(buffers).occupancy().update(
                        socket.token()@,
                        true,
                    )
                },
                Err(e) => {
                    &&& e == RawError::NoBuffers
                    &&& exhausted(old(buffers).occupancy())
                    &&& final(buffers).occupancy() == old(buffers).occupancy()
                },
            },
            r is Ok <==> free_slots(old(buffers).occupancy()) > 0,
            r is Ok ==> free_slots(final(buffers).occupancy()) + 1 == free_slots(
                old(buffers).occupancy(),
            ),
            final(buffers).contents() == old(buffers).contents(),
            final(buffers).pool_id() == old(buffers).pool_id(),
    {
        RawSocket::new(buffers)
    }
}

} // verus!
