//! Sockets whose working memory comes from fixed-capacity slot pools.
//!
//! The crate is the allocation-free core of a socket layer for a cooperative,
//! single-threaded network engine: a [`Pool`] of `N` storage slots, buffer
//! descriptors that name the regions of one slot, socket objects that own one
//! slot from construction to teardown, and the shutdown protocol of stream
//! sockets. Nothing here performs I/O. Where the engine has to act, a function
//! returns the request to make and takes what the engine answered as an
//! argument of the next call.

use core::marker::PhantomData;

use vstd::prelude::*;

pub mod addr;
pub mod dns;
pub mod engine;
pub mod occupancy;
pub mod raw;
mod sealed;
pub mod tcp;
pub mod udp;

pub use addr::{
    to_emb_addr, to_emb_bind_socket, to_emb_socket, to_net_socket, Features, IpAddr, IpAddress,
    IpEndpoint, IpListenEndpoint, SocketAddr,
};
pub use dns::{Dns, DnsError};
pub use occupancy::{
    after_allocations, allocated, exhausted, first_free, free_slots, fresh, is_first_free, is_live,
    nth_allocation,
};
pub use raw::{Raw, RawBuffers, RawError, RawSlot, RawSocket, RawSocketBuffers};
pub use tcp::{
    Event, Progress, Requests, Shutdown, Step, Tcp, TcpAccept, TcpBuffers, TcpContents, TcpError,
    TcpRegions, TcpSlot, TcpSocket, TcpSocketBuffers, TcpSocketRead, TcpSocketWrite, DISCARD_CHUNK,
};
pub use udp::{
    Membership, PacketContents, PacketRegions, Udp, UdpBuffers, UdpError, UdpSlot, UdpSocket,
    UdpSocketBuffers,
};

use crate::occupancy::{
    lemma_first_free, lemma_free_slots, lemma_free_slots_fresh, lemma_free_slots_update,
};
use crate::sealed::{SealedDynPool, SocketBuffers};

verus! {

/// The identity of one slot of a pool while that slot is handed out.
///
/// A token is made by an allocation and consumed by the matching release. It
/// cannot be copied, and it carries the identity of the pool that made it, so
/// a slot has one owner at a time and goes back to its own pool.
#[derive(Debug, PartialEq, Eq, Structural)]
pub struct Token {
    pool: usize,
    slot: usize,
}

impl View for Token {
    type V = int;

    /// The index of the slot that the token stands for.
    closed spec fn view(&self) -> int {
        self.slot as int
    }
}

impl Token {
    /// The identity of the pool that made the token.
    pub closed spec fn spec_pool(&self) -> usize {
        self.pool
    }

    /// The identity of the pool that made the token.
    #[verifier::when_used_as_spec(spec_pool)]
    pub fn pool(&self) -> (id: usize)
        ensures
            id == self.spec_pool(),
    {
        self.pool
    }

    /// The index of the slot that the token stands for.
    pub fn index(&self) -> (i: usize)
        ensures
            i == self@,
    {
        self.slot
    }
}

/// `token` was made by the pool of identity `id`, and its slot is taken in `used`.
pub open spec fn is_token_of(id: usize, used: Seq<bool>, token: Token) -> bool {
    token.pool() == id && is_live(used, token@)
}

/// A pool of `N` slots of storage `T`, handed out first-fit by slot index.
///
/// The pool never moves or resizes a slot, and neither allocation nor release
/// touches what a slot's storage holds. A pool has an identity, which every
/// token that it makes carries: the pool takes back, and gives access by, its
/// own tokens only. Pools that are used side by side are given different
/// identities.
pub struct Pool<T, const N: usize> {
    id: usize,
    used: [bool; N],
    data: [T; N],
}

impl<T, const N: usize> Pool<T, N> {
    /// The identity of the pool.
    pub closed spec fn spec_id(&self) -> usize {
        self.id
    }

    /// Which slots are taken, in slot order.
    pub closed spec fn used(&self) -> Seq<bool> {
        self.used@
    }

    /// What the storage of each slot holds, in slot order.
    pub closed spec fn storage(&self) -> Seq<T> {
        self.data@
    }

    /// Both sequences have one entry per slot.
    pub proof fn lemma_capacity(&self)
        ensures
            self.used().len() == N,
            self.storage().len() == N,
    {
    }

    /// Creates the pool of identity `id`, with every slot free and every
    /// slot's storage equal to `blank`.
    pub fn new(id: usize, blank: T) -> (pool: Self) where T: Copy
        ensures
            pool.id() == id,
            pool.used() == fresh(N as nat),
            pool.storage() == Seq::new(N as nat, |i: int| blank),
            free_slots(pool.used()) == N,
    {
        let pool = Pool { id, used: [false; N], data: [blank; N] };
        proof {
            assert(pool.used@ =~= fresh(N as nat));
            lemma_free_slots_fresh(N as nat);
        }
        pool
    }

    /// The identity of the pool.
    #[verifier::when_used_as_spec(spec_id)]
    pub fn id(&self) -> (id: usize)
        ensures
            id == self.spec_id(),
    {
        self.id
    }

    /// The number of slots.
    pub fn capacity(&self) -> (n: usize)
        ensures
            n == N,
            n == self.used().len(),
    {
        N
    }

    /// Takes the lowest free slot, or returns `None` when every slot is taken.
    pub fn allocate_slot(&mut self) -> (r: Option<Token>)
        ensures
            final(self).id() == old(self).id(),
            final(self).storage() == old(self).storage(),
            final(self).used() == allocated(old(self).used()),
            nth_allocation(old(self).used(), 0) == match r {
                Some(token) => Some(token@),
                None => None,
            },
            r is Some <==> free_slots(old(self).used()) > 0,
            r is Some ==> free_slots(final(self).used()) + 1 == free_slots(old(self).used()),
            match r {
                Some(token) => {
                    &&& token.pool() == old(self).id()
                    &&& is_first_free(old(self).used(), token@)
                    &&& final(self).used() == old(self).used().update(token@, true)
                },
                None => {
                    &&& exhausted(old(self).used())
                    &&& final(self).used() == old(self).used()
                },
            },
    {
        let mut n: usize = 0;
        while n < N
            invariant
                n <= N,
                *self == *old(self),
                forall|j: int| 0 <= j < n ==> self.used@[j],
            decreases N - n,
        {
            if !self.used[n] {
                proof {
                    assert(is_first_free(self.used@, n as int));
                    lemma_first_free(self.used@);
                    lemma_free_slots(self.used@);
                    lemma_free_slots_update(self.used@, n as int, true);
                }
                self.used[n] = true;
                return Some(Token { pool: self.id, slot: n });
            }
            n += 1;
        }
        proof {
            lemma_free_slots(self.used@);
        }
        None
    }

    /// Whether this pool made `token` and its slot is taken.
    pub fn holds_slot(&self, token: &Token) -> (b: bool)
        ensures
            b == is_token_of(self.id(), self.used(), *token),
    {
        token.pool == self.id && token.slot < N && self.used[token.slot]
    }

    /// Gives the slot of `token`, a token of this pool, back to the pool.
    pub fn free_slot(&mut self, token: Token)
        requires
            is_token_of(old(self).id(), old(self).used(), token),
        ensures
            final(self).id() == old(self).id(),
            final(self).used() == old(self).used().update(token@, false),
            final(self).storage() == old(self).storage(),
            free_slots(final(self).used()) == free_slots(old(self).used()) + 1,
    {
        proof {
            lemma_free_slots_update(self.used@, token.slot as int, false);
        }
        self.used[token.slot] = false;
    }

    /// The storage of the slot of `token`.
    pub fn slot(&self, token: &Token) -> (storage: &T)
        requires
            is_token_of(self.id(), self.used(), *token),
        ensures
            *storage == self.storage()[token@],
    {
        &self.data[token.slot]
    }

    /// The storage of the slot of `token`, for writing. No other slot changes.
    pub fn slot_mut(&mut self, token: &Token) -> (storage: &mut T)
        requires
            is_token_of(old(self).id(), old(self).used(), *token),
        ensures
            final(self).id() == old(self).id(),
            *storage == old(self).storage()[token@],
            final(self).storage() == old(self).storage().update(token@, *final(storage)),
            final(self).used() == old(self).used(),
    {
        &mut self.data[token.slot]
    }
}

/// A pool seen only as a source of buffer descriptors of type `B`.
///
/// Sockets take a pool through this trait, so their types name neither the
/// pool's capacity nor its buffer sizes.
pub trait DynPool<B: SocketBuffers>: SealedDynPool<B> {
}

/// The engine call that opens a shutdown or a teardown.
#[derive(Clone, Copy, Debug, PartialEq, Eq, Structural)]
pub enum Signal {
    /// Close in order: what is queued is still sent. Where the engine has no
    /// call to close a handle of the socket's kind, the handle is ended.
    Close,
    /// Reset the connection at once.
    Abort,
}

/// A socket that is being torn down.
///
/// The socket is gone and its slot is still taken. What remains to do, in this
/// order: make the engine call that [`signal`](Teardown::signal) names on the
/// socket's engine handle, then [`release`](Teardown::release) the slot. A
/// socket of any kind asks for [`Signal::Close`].
#[derive(Debug)]
pub struct Teardown<B> {
    signal: Option<Signal>,
    token: Token,
    buffers: PhantomData<B>,
}

impl<B: SocketBuffers> Teardown<B> {
    /// The slot that is still taken.
    pub closed spec fn token(&self) -> Token {
        self.token
    }

    /// The engine call to make before the release, if any.
    pub closed spec fn spec_signal(&self) -> Option<Signal> {
        self.signal
    }

    /// A teardown that asks for `signal` and then gives back the slot of `token`.
    pub(crate) fn new(signal: Option<Signal>, token: Token) -> (teardown: Self)
        ensures
            teardown.token() == token,
            teardown.spec_signal() == signal,
    {
        Teardown { signal, token, buffers: PhantomData }
    }

    /// The engine call to make before the release, if any.
    #[verifier::when_used_as_spec(spec_signal)]
    pub fn signal(&self) -> (signal: Option<Signal>)
        ensures
            signal == self.spec_signal(),
    {
        self.signal
    }

    /// The slot that is still taken.
    pub fn buffer_token(&self) -> (token: &Token)
        ensures
            *token == self.token(),
    {
        &self.token
    }

    /// Whether `pool` made the token and holds its slot as taken, so that the
    /// release may follow.
    pub fn can_release<P: DynPool<B> + ?Sized>(&self, pool: &P) -> (b: bool)
        ensures
            b == is_token_of(pool.pool_id(), pool.occupancy(), self.token()),
    {
        pool.holds(&self.token)
    }

    /// Gives the slot back to `pool`, the pool that made the token, which ends
    /// the teardown.
    pub fn release<P: DynPool<B> + ?Sized>(self, pool: &mut P)
        requires
            is_token_of(old(pool).pool_id(), old(pool).occupancy(), self.token()),
        ensures
            final(pool).occupancy() == old(pool).occupancy().update(self.token()@, false),
            final(pool).contents() == old(pool).contents(),
            final(pool).pool_id() == old(pool).pool_id(),
            free_slots(final(pool).occupancy()) == free_slots(old(pool).occupancy()) + 1,
    {
        pool.free(self.token)
    }
}

} // verus!
