//! Stream sockets: their buffer pool, their errors and their shutdown protocol.

use vstd::prelude::*;

use edge_nal::Close;
use embassy_net::tcp::{AcceptError, ConnectError, Error};
use embedded_io_async::ErrorKind;

use crate::addr::{
    emb_bind_socket, emb_socket, net_addr, to_emb_bind_socket, to_emb_socket, to_net_socket,
    Features, IpEndpoint, IpListenEndpoint, SocketAddr,
};
use crate::engine::{
    accept_error_name, connect_error_name, tagged_accept_error, tagged_connect_error,
    tagged_tcp_error, tcp_error_name,
};
use crate::sealed::{SealedDynPool, SocketBuffers};
use crate::{
    exhausted, free_slots, is_first_free, is_token_of, DynPool, Pool, Signal, Teardown, Token,
};

verus! {

/// The errors of the stream-socket factories and of stream sockets.
#[derive(PartialEq, Eq, Clone, Copy, Debug)]
pub enum TcpError {
    /// The engine failed a read, a write or a flush.
    General(Error),
    /// The engine failed to connect.
    Connect(ConnectError),
    /// The engine failed to accept a connection.
    Accept(AcceptError),
    /// The pool has no free slot.
    NoBuffers,
    /// The address is of a family that the engine was not built with.
    UnsupportedProto,
}

impl TcpError {
    /// The text of the error: for an error of the engine, the operation that
    /// failed and then the engine's own word for the error.
    pub fn to_string(&self) -> (text: String)
        ensures
            text@ == match *self {
                TcpError::General(e) => "General: "@ + tcp_error_name(e),
                TcpError::Connect(e) => "Connect: "@ + connect_error_name(e),
                TcpError::Accept(e) => "Accept: "@ + accept_error_name(e),
                TcpError::NoBuffers => "No buffers"@,
                TcpError::UnsupportedProto => "Unsupported protocol"@,
            },
    {
        match self {
            TcpError::General(e) => tagged_tcp_error("General: ", e),
            TcpError::Connect(e) => tagged_connect_error("Connect: ", e),
            TcpError::Accept(e) => tagged_accept_error("Accept: ", e),
            TcpError::NoBuffers => "No buffers".to_owned(),
            TcpError::UnsupportedProto => "Unsupported protocol".to_owned(),
        }
    }

    /// The kind of the error, as generic I/O code classifies errors.
    pub fn kind(&self) -> (kind: ErrorKind)
        ensures
            kind == match *self {
                TcpError::NoBuffers => ErrorKind::OutOfMemory,
                TcpError::UnsupportedProto => ErrorKind::InvalidInput,
                _ => ErrorKind::Other,
            },
    {
        match self {
            TcpError::General(_) => ErrorKind::Other,
            TcpError::Connect(_) => ErrorKind::Other,
            TcpError::Accept(_) => ErrorKind::Other,
            TcpError::NoBuffers => ErrorKind::OutOfMemory,
            TcpError::UnsupportedProto => ErrorKind::InvalidInput,
        }
    }
}

impl From<Error> for TcpError {
    fn from(e: Error) -> (r: TcpError) {
        TcpError::General(e)
    }
}

impl vstd::std_specs::convert::FromSpecImpl<Error> for TcpError {
    open spec fn obeys_from_spec() -> bool {
        true
    }

    open spec fn from_spec(e: Error) -> TcpError {
        TcpError::General(e)
    }
}

impl From<ConnectError> for TcpError {
    fn from(e: ConnectError) -> (r: TcpError) {
        TcpError::Connect(e)
    }
}

impl vstd::std_specs::convert::FromSpecImpl<ConnectError> for TcpError {
    open spec fn obeys_from_spec() -> bool {
        true
    }

    open spec fn from_spec(e: ConnectError) -> TcpError {
        TcpError::Connect(e)
    }
}

impl From<AcceptError> for TcpError {
    fn from(e: AcceptError) -> (r: TcpError) {
        TcpError::Accept(e)
    }
}

impl vstd::std_specs::convert::FromSpecImpl<AcceptError> for TcpError {
    open spec fn obeys_from_spec() -> bool {
        true
    }

    open spec fn from_spec(e: AcceptError) -> TcpError {
        TcpError::Accept(e)
    }
}

/// The regions of one slot of a stream-socket pool.
#[derive(Debug)]
pub struct TcpSocketBuffers {
    /// The token that gives the slot back.
    token: Token,
    /// The length of the receive region.
    rx_buf_len: usize,
    /// The length of the transmit region.
    tx_buf_len: usize,
}

impl TcpSocketBuffers {
    /// The length of the receive region.
    pub closed spec fn spec_rx_buf_len(&self) -> usize {
        self.rx_buf_len
    }

    /// The length of the receive region.
    #[verifier::when_used_as_spec(spec_rx_buf_len)]
    pub fn rx_buf_len(&self) -> (len: usize)
        ensures
            len == self.spec_rx_buf_len(),
    {
        self.rx_buf_len
    }

    /// The length of the transmit region.
    pub closed spec fn spec_tx_buf_len(&self) -> usize {
        self.tx_buf_len
    }

    /// The length of the transmit region.
    #[verifier::when_used_as_spec(spec_tx_buf_len)]
    pub fn tx_buf_len(&self) -> (len: usize)
        ensures
            len == self.spec_tx_buf_len(),
    {
        self.tx_buf_len
    }

    /// The token that gives the slot back.
    pub fn buffer_token(&self) -> (token: &Token)
        ensures
            *token == self.token(),
    {
        &self.token
    }
}

impl SocketBuffers for TcpSocketBuffers {
    type Slot = TcpContents;

    closed spec fn token(&self) -> Token {
        self.token
    }
}

/// What one slot of a stream-socket pool holds, without the sizes of its regions.
pub struct TcpContents {
    /// The bytes of the transmit region.
    pub tx_buf: Seq<u8>,
    /// The bytes of the receive region.
    pub rx_buf: Seq<u8>,
}

/// The storage of one slot of a stream-socket pool.
#[derive(Clone, Copy, Debug)]
pub struct TcpSlot<const TX_SZ: usize, const RX_SZ: usize> {
    /// The transmit region.
    pub tx_buf: [u8; TX_SZ],
    /// The receive region.
    pub rx_buf: [u8; RX_SZ],
}

impl<const TX_SZ: usize, const RX_SZ: usize> View for TcpSlot<TX_SZ, RX_SZ> {
    type V = TcpContents;

    open spec fn view(&self) -> TcpContents {
        TcpContents { tx_buf: self.tx_buf@, rx_buf: self.rx_buf@ }
    }
}

impl<const TX_SZ: usize, const RX_SZ: usize> TcpSlot<TX_SZ, RX_SZ> {
    /// A slot whose regions hold zeros.
    pub fn new() -> (slot: Self)
        ensures
            forall|i: int| 0 <= i < TX_SZ ==> slot.tx_buf@[i] == 0,
            forall|i: int| 0 <= i < RX_SZ ==> slot.rx_buf@[i] == 0,
    {
        TcpSlot { tx_buf: [0u8; TX_SZ], rx_buf: [0u8; RX_SZ] }
    }
}

/// A pool of stream-socket buffers: `N` slots, each a transmit region of
/// `TX_SZ` bytes and a receive region of `RX_SZ` bytes.
pub type TcpBuffers<const N: usize, const TX_SZ: usize, const RX_SZ: usize> = Pool<
    TcpSlot<TX_SZ, RX_SZ>,
    N,
>;

impl<const N: usize, const TX_SZ: usize, const RX_SZ: usize> SealedDynPool<
    TcpSocketBuffers,
> for TcpBuffers<N, TX_SZ, RX_SZ> {
    open spec fn pool_id(&self) -> usize {
        self.id()
    }

    open spec fn occupancy(&self) -> Seq<bool> {
        self.used()
    }

    open spec fn contents(&self) -> Seq<TcpContents> {
        Seq::new(self.storage().len(), |i: int| self.storage()[i]@)
    }

    fn allocate(&mut self) -> (r: Option<TcpSocketBuffers>)
        ensures
            final(self).storage() == old(self).storage(),
            r matches Some(buffers) ==> buffers.rx_buf_len() == RX_SZ && buffers.tx_buf_len() == TX_SZ,
    {
        match self.allocate_slot() {
            Some(token) => Some(TcpSocketBuffers { token, rx_buf_len: RX_SZ, tx_buf_len: TX_SZ }),
            None => None,
        }
    }

    fn holds(&self, token: &Token) -> (b: bool) {
        self.holds_slot(token)
    }

    fn free(&mut self, token: Token)
        ensures
            final(self).storage() == old(self).storage(),
    {
        self.free_slot(token)
    }
}

impl<const N: usize, const TX_SZ: usize, const RX_SZ: usize> DynPool<TcpSocketBuffers> for TcpBuffers<
    N,
    TX_SZ,
    RX_SZ,
> {

}

/// The regions of one slot of a stream-socket pool, for the engine to work in.
pub struct TcpRegions<'a> {
    /// The receive region.
    pub rx_buf: &'a mut [u8],
    /// The transmit region.
    pub tx_buf: &'a mut [u8],
}

impl<const N: usize, const TX_SZ: usize, const RX_SZ: usize> TcpBuffers<N, TX_SZ, RX_SZ> {
    /// The regions of the slot of `token`. What is written to them is written
    /// to that slot; every other slot stays as it is.
    pub fn regions(&mut self, token: &Token) -> (regions: TcpRegions<'_>)
        requires
            is_token_of(old(self).id(), old(self).used(), *token),
        ensures
            final(self).id() == old(self).id(),
            regions.rx_buf@ == old(self).storage()[token@].rx_buf@,
            regions.tx_buf@ == old(self).storage()[token@].tx_buf@,
            regions.rx_buf@.len() == RX_SZ,
            regions.tx_buf@.len() == TX_SZ,
            final(self).used() == old(self).used(),
            final(self).storage() == old(self).storage().update(
                token@,
                final(self).storage()[token@],
            ),
            final(self).storage()[token@].rx_buf@ == final(regions.rx_buf)@,
            final(self).storage()[token@].tx_buf@ == final(regions.tx_buf)@,
            old(self).contents()[token@] == (TcpContents {
                tx_buf: regions.tx_buf@,
                rx_buf: regions.rx_buf@,
            }),
            final(self).contents() == old(self).contents().update(
                token@,
                TcpContents { tx_buf: final(regions.tx_buf)@, rx_buf: final(regions.rx_buf)@ },
            ),
    {
        proof {
            self.lemma_capacity();
        }
        let slot = self.slot_mut(token);
        TcpRegions { rx_buf: &mut slot.rx_buf, tx_buf: &mut slot.tx_buf }
    }
}

/// The number of bytes that one read takes while incoming data is dropped.
pub const DISCARD_CHUNK: usize = 32;

/// What the engine is asked for when a shutdown starts.
///
/// The signal comes first. The flush and the reads that drop incoming data
/// then run side by side, and each answer of the engine goes to
/// [`TcpSocket::handle`] as an [`Event`].
#[derive(Clone, Copy, Debug, PartialEq, Eq)]
pub struct Requests {
    /// The engine call to make first, if any.
    pub signal: Option<Signal>,
    /// Wait until everything queued for sending has left.
    pub flush: bool,
    /// Read up to [`DISCARD_CHUNK`] bytes and drop them.
    pub read: bool,
}

/// What the engine answered to a request of a shutdown.
#[derive(Clone, Copy, Debug, PartialEq, Eq)]
pub enum Event {
    /// The flush ended.
    Flushed(Result<(), Error>),
    /// A read ended, with the number of bytes that it took.
    Read(Result<usize, Error>),
}

/// What follows an [`Event`].
#[derive(Clone, Copy, Debug, PartialEq, Eq)]
pub enum Step {
    /// Read again, up to [`DISCARD_CHUNK`] bytes, and drop them.
    Read,
    /// Nothing new to ask for: an answer of the engine is still awaited.
    Wait,
    /// The shutdown is complete, with this result.
    Done(Result<(), TcpError>),
    /// The event answers nothing that was asked for, and changed nothing.
    Ignored,
}

/// How far a shutdown of both directions has come.
#[derive(Clone, Copy, Debug, PartialEq, Eq)]
pub enum Progress {
    /// The flush and the end of the incoming stream are both awaited.
    Neither,
    /// The flush ended with this result; the end of the incoming stream is awaited.
    Flushed(Result<(), Error>),
    /// The incoming stream ended with this result; the flush is awaited.
    Discarded(Result<(), Error>),
}

/// The state of a stream socket with respect to shutdown.
#[derive(Clone, Copy, Debug, PartialEq, Eq)]
pub enum Shutdown {
    /// No shutdown was asked for.
    Open,
    /// The write direction is closing: the flush is awaited.
    ClosingWrite,
    /// The read direction is closing: incoming data is dropped until the peer
    /// ends the stream.
    ClosingRead,
    /// Both directions are closing.
    ClosingBoth(Progress),
    /// The connection was reset: the flush is awaited.
    Aborting,
    /// The shutdown is complete.
    Closed,
}

/// What a read says of the incoming stream: `None` as long as data came, else
/// how the stream ended.
pub open spec fn discarded(read: Result<usize, Error>) -> Option<Result<(), Error>> {
    match read {
        Ok(n) => if n > 0 {
            None
        } else {
            Some(Ok(()))
        },
        Err(e) => Some(Err(e)),
    }
}

/// The result of one direction as the result of a shutdown.
pub open spec fn reported(end: Result<(), Error>) -> Result<(), TcpError> {
    match end {
        Ok(_) => Ok(()),
        Err(e) => Err(TcpError::General(e)),
    }
}

/// The result of a shutdown of both directions: the error of the flush where
/// it failed, else the error of the incoming stream where that failed.
pub open spec fn joined(flush: Result<(), Error>, discard: Result<(), Error>) -> Result<
    (),
    TcpError,
> {
    match flush {
        Err(e) => Err(TcpError::General(e)),
        Ok(_) => reported(discard),
    }
}

/// What a shutdown of `what` asks the engine for.
pub open spec fn close_requests(what: Close) -> Requests {
    match what {
        Close::Read => Requests { signal: None, flush: false, read: true },
        Close::Write => Requests { signal: Some(Signal::Close), flush: true, read: false },
        Close::Both => Requests { signal: Some(Signal::Close), flush: true, read: true },
    }
}

/// What an abort asks the engine for.
pub open spec fn abort_requests() -> Requests {
    Requests { signal: Some(Signal::Abort), flush: true, read: false }
}

impl Shutdown {
    /// The state in which a shutdown of `what` starts.
    pub open spec fn closing(what: Close) -> Shutdown {
        match what {
            Close::Read => Shutdown::ClosingRead,
            Close::Write => Shutdown::ClosingWrite,
            Close::Both => Shutdown::ClosingBoth(Progress::Neither),
        }
    }

    /// The flush of a shutdown is awaited.
    pub open spec fn awaits_flush(self) -> bool {
        match self {
            Shutdown::ClosingWrite => true,
            Shutdown::Aborting => true,
            Shutdown::ClosingBoth(Progress::Neither) => true,
            Shutdown::ClosingBoth(Progress::Discarded(_)) => true,
            _ => false,
        }
    }

    /// The end of the incoming stream is awaited.
    pub open spec fn awaits_end_of_stream(self) -> bool {
        match self {
            Shutdown::ClosingRead => true,
            Shutdown::ClosingBoth(Progress::Neither) => true,
            Shutdown::ClosingBoth(Progress::Flushed(_)) => true,
            _ => false,
        }
    }

    /// The state after `event`.
    pub open spec fn next(self, event: Event) -> Shutdown {
        match event {
            Event::Flushed(end) => match self {
                Shutdown::ClosingWrite => Shutdown::Closed,
                Shutdown::Aborting => Shutdown::Closed,
                Shutdown::ClosingBoth(Progress::Neither) => Shutdown::ClosingBoth(
                    Progress::Flushed(end),
                ),
                Shutdown::ClosingBoth(Progress::Discarded(_)) => Shutdown::Closed,
                _ => self,
            },
            Event::Read(read) => match discarded(read) {
                None => self,
                Some(end) => match self {
                    Shutdown::ClosingRead => Shutdown::Closed,
                    Shutdown::ClosingBoth(Progress::Neither) => Shutdown::ClosingBoth(
                        Progress::Discarded(end),
                    ),
                    Shutdown::ClosingBoth(Progress::Flushed(_)) => Shutdown::Closed,
                    _ => self,
                },
            },
        }
    }

    /// What follows `event` in this state.
    pub open spec fn step(self, event: Event) -> Step {
        match event {
            Event::Flushed(end) => match self {
                Shutdown::ClosingWrite => Step::Done(reported(end)),
                Shutdown::Aborting => Step::Done(reported(end)),
                Shutdown::ClosingBoth(Progress::Neither) => Step::Wait,
                Shutdown::ClosingBoth(Progress::Discarded(discard)) => Step::Done(
                    joined(end, discard),
                ),
                _ => Step::Ignored,
            },
            Event::Read(read) => if self.awaits_end_of_stream() {
                match discarded(read) {
                    None => Step::Read,
                    Some(end) => match self {
                        Shutdown::ClosingBoth(Progress::Neither) => Step::Wait,
                        Shutdown::ClosingBoth(Progress::Flushed(flush)) => Step::Done(
                            joined(flush, end),
                        ),
                        _ => Step::Done(reported(end)),
                    },
                }
            } else {
                Step::Ignored
            },
        }
    }
}

/// A stream socket: the owner of one slot of a stream-socket pool from
/// construction to teardown, and the state of the connection's shutdown.
#[derive(Debug)]
pub struct TcpSocket {
    /// The token of the socket's slot.
    buffer_token: Token,
    /// How far a shutdown has come.
    shutdown: Shutdown,
}

impl TcpSocket {
    /// The token of the socket's slot.
    pub closed spec fn token(&self) -> Token {
        self.buffer_token
    }

    /// How far a shutdown has come.
    pub closed spec fn shutdown(&self) -> Shutdown {
        self.shutdown
    }

    /// Takes a slot of `stack_buffers` for a new socket, or fails with
    /// [`TcpError::NoBuffers`] when every slot is taken.
    pub fn new<P: DynPool<TcpSocketBuffers> + ?Sized>(stack_buffers: &mut P) -> (r: Result<
        Self,
        TcpError,
    >)
        ensures
            match r {
                Ok(socket) => {
                    &&& socket.token().pool() == old(stack_buffers).pool_id()
                    &&& is_first_free(old(stack_buffers).occupancy(), socket.token()@)
                    &&& final(stack_buffers).occupancy() == old(stack_buffers).occupancy().update(
                        socket.token()@,
                        true,
                    )
                    &&& socket.shutdown() == Shutdown::Open
                },
                Err(e) => {
                    &&& e == TcpError::NoBuffers
                    &&& exhausted(old(stack_buffers).occupancy())
                    &&& final(stack_buffers).occupancy() == old(stack_buffers).occupancy()
                },
            },
            r is Ok <==> free_slots(old(stack_buffers).occupancy()) > 0,
            r is Ok ==> free_slots(final(stack_buffers).occupancy()) + 1 == free_slots(
                old(stack_buffers).occupancy(),
            ),
            final(stack_buffers).contents() == old(stack_buffers).contents(),
            final(stack_buffers).pool_id() == old(stack_buffers).pool_id(),
    {
        match stack_buffers.allocate() {
            Some(socket_buffers) => Ok(
                TcpSocket { buffer_token: socket_buffers.token, shutdown: Shutdown::Open },
            ),
            None => Err(TcpError::NoBuffers),
        }
    }

    /// The token of the socket's slot.
    pub fn buffer_token(&self) -> (token: &Token)
        ensures
            *token == self.token(),
    {
        &self.buffer_token
    }

    /// How far a shutdown has come.
    pub fn state(&self) -> (state: Shutdown)
        ensures
            state == self.shutdown(),
    {
        self.shutdown
    }

    /// Whether the flush of a shutdown is awaited.
    pub fn flush_awaited(&self) -> (b: bool)
        ensures
            b == self.shutdown().awaits_flush(),
    {
        match self.shutdown {
            Shutdown::ClosingWrite => true,
            Shutdown::Aborting => true,
            Shutdown::ClosingBoth(Progress::Neither) => true,
            Shutdown::ClosingBoth(Progress::Discarded(_)) => true,
            _ => false,
        }
    }

    /// Whether the end of the incoming stream is awaited.
    pub fn end_of_stream_awaited(&self) -> (b: bool)
        ensures
            b == self.shutdown().awaits_end_of_stream(),
    {
        match self.shutdown {
            Shutdown::ClosingRead => true,
            Shutdown::ClosingBoth(Progress::Neither) => true,
            Shutdown::ClosingBoth(Progress::Flushed(_)) => true,
            _ => false,
        }
    }

    /// Starts a shutdown of `what`, whatever went before, and returns what to
    /// ask the engine for.
    pub fn close(&mut self, what: Close) -> (requests: Requests)
        ensures
            requests == close_requests(what),
            final(self).shutdown() == Shutdown::closing(what),
            final(self).token() == old(self).token(),
    {
        match what {
            Close::Read => {
                self.shutdown = Shutdown::ClosingRead;
                Requests { signal: None, flush: false, read: true }
            },
            Close::Write => {
                self.shutdown = Shutdown::ClosingWrite;
                Requests { signal: Some(Signal::Close), flush: true, read: false }
            },
            Close::Both => {
                self.shutdown = Shutdown::ClosingBoth(Progress::Neither);
                Requests { signal: Some(Signal::Close), flush: true, read: true }
            },
        }
    }

    /// Starts an abort, whatever went before, and returns what to ask the
    /// engine for: the reset, and then the flush, so that the engine is done
    /// with the transmit region before the abort counts as complete.
    pub fn abort(&mut self) -> (requests: Requests)
        ensures
            requests == abort_requests(),
            final(self).shutdown() == Shutdown::Aborting,
            final(self).token() == old(self).token(),
    {
        self.shutdown = Shutdown::Aborting;
        Requests { signal: Some(Signal::Abort), flush: true, read: false }
    }

    /// Takes an answer of the engine and returns what follows.
    pub fn handle(&mut self, event: Event) -> (step: Step)
        ensures
            step == old(self).shutdown().step(event),
            final(self).shutdown() == old(self).shutdown().next(event),
            final(self).token() == old(self).token(),
    {
        match event {
            Event::Flushed(end) => match self.shutdown {
                Shutdown::ClosingWrite => {
                    self.shutdown = Shutdown::Closed;
                    Step::Done(report(end))
                },
                Shutdown::Aborting => {
                    self.shutdown = Shutdown::Closed;
                    Step::Done(report(end))
                },
                Shutdown::ClosingBoth(Progress::Neither) => {
                    self.shutdown = Shutdown::ClosingBoth(Progress::Flushed(end));
                    Step::Wait
                },
                Shutdown::ClosingBoth(Progress::Discarded(discard)) => {
                    self.shutdown = Shutdown::Closed;
                    Step::Done(join(end, discard))
                },
                _ => Step::Ignored,
            },
            Event::Read(read) => {
                let end = match read {
                    Ok(n) => if n > 0 {
                        None
                    } else {
                        Some(Ok(()))
                    },
                    Err(e) => Some(Err(e)),
                };
                match self.shutdown {
                    Shutdown::ClosingRead => match end {
                        None => Step::Read,
                        Some(end) => {
                            self.shutdown = Shutdown::Closed;
                            Step::Done(report(end))
                        },
                    },
                    Shutdown::ClosingBoth(Progress::Neither) => match end {
                        None => Step::Read,
                        Some(end) => {
                            self.shutdown = Shutdown::ClosingBoth(Progress::Discarded(end));
                            Step::Wait
                        },
                    },
                    Shutdown::ClosingBoth(Progress::Flushed(flush)) => match end {
                        None => Step::Read,
                        Some(end) => {
                            self.shutdown = Shutdown::Closed;
                            Step::Done(join(flush, end))
                        },
                    },
                    _ => Step::Ignored,
                }
            },
        }
    }

    /// Ends the socket's life: the socket becomes a [`Teardown`], which asks
    /// for the engine handle to be closed and then gives the slot back.
    pub fn teardown(self) -> (teardown: Teardown<TcpSocketBuffers>)
        ensures
            teardown.token() == self.token(),
            teardown.spec_signal() == Some(Signal::Close),
    {
        Teardown::new(Some(Signal::Close), self.buffer_token)
    }
}

/// The result of one direction as the result of a shutdown.
fn report(end: Result<(), Error>) -> (r: Result<(), TcpError>)
    ensures
        r == reported(end),
{
    match end {
        Ok(_) => Ok(()),
        Err(e) => Err(TcpError::General(e)),
    }
}

/// The result of a shutdown of both directions.
fn join(flush: Result<(), Error>, discard: Result<(), Error>) -> (r: Result<(), TcpError>)
    ensures
        r == joined(flush, discard),
{
    match flush {
        Err(e) => Err(TcpError::General(e)),
        Ok(_) => report(discard),
    }
}

/// An answer of the engine to a read, a write or a flush, as a result of the socket.
fn general<T>(outcome: Result<T, Error>) -> (r: Result<T, TcpError>)
    ensures
        r == match outcome {
            Ok(v) => Ok::<T, TcpError>(v),
            Err(e) => Err(TcpError::General(e)),
        },
{
    match outcome {
        Ok(v) => Ok(v),
        Err(e) => Err(TcpError::General(e)),
    }
}

impl TcpSocket {
    /// The result of a connect, from what the engine answered to it.
    pub fn connected(&self, outcome: Result<(), ConnectError>) -> (r: Result<(), TcpError>)
        ensures
            r == match outcome {
                Ok(_) => Ok::<(), TcpError>(()),
                Err(e) => Err(TcpError::Connect(e)),
            },
    {
        match outcome {
            Ok(_) => Ok(()),
            Err(e) => Err(TcpError::Connect(e)),
        }
    }

    /// The result of an accept, from what the engine answered to it: the local
    /// endpoint of the connection that it accepted, or its error.
    pub fn accepted(&self, outcome: Result<IpEndpoint, AcceptError>) -> (r: Result<
        SocketAddr,
        TcpError,
    >)
        ensures
            r == match outcome {
                Ok(local) => Ok::<SocketAddr, TcpError>(
                    SocketAddr { ip: net_addr(local.addr), port: local.port },
                ),
                Err(e) => Err(TcpError::Accept(e)),
            },
    {
        match outcome {
            Ok(local) => Ok(to_net_socket(local)),
            Err(e) => Err(TcpError::Accept(e)),
        }
    }

    /// The result of a read, from what the engine answered to it.
    pub fn read(&self, outcome: Result<usize, Error>) -> (r: Result<usize, TcpError>)
        ensures
            r == match outcome {
                Ok(n) => Ok::<usize, TcpError>(n),
                Err(e) => Err(TcpError::General(e)),
            },
    {
        general(outcome)
    }

    /// The result of a write, from what the engine answered to it.
    pub fn write(&self, outcome: Result<usize, Error>) -> (r: Result<usize, TcpError>)
        ensures
            r == match outcome {
                Ok(n) => Ok::<usize, TcpError>(n),
                Err(e) => Err(TcpError::General(e)),
            },
    {
        general(outcome)
    }

    /// The result of a flush, from what the engine answered to it.
    pub fn flush(&self, outcome: Result<(), Error>) -> (r: Result<(), TcpError>)
        ensures
            r == reported(outcome),
    {
        report(outcome)
    }

    /// The two halves of the socket. Both borrow the socket, neither holds its
    /// token: the slot is given back by the whole socket alone, after both
    /// halves are gone.
    pub fn split(&mut self) -> (halves: (TcpSocketRead<'_>, TcpSocketWrite<'_>))
        ensures
            halves.0.socket() == *old(self),
            halves.1.socket() == *old(self),
            *final(self) == *old(self),
    {
        let socket: &TcpSocket = &*self;
        (TcpSocketRead { socket }, TcpSocketWrite { socket })
    }
}

/// The read half of a stream socket.
pub struct TcpSocketRead<'a> {
    socket: &'a TcpSocket,
}

impl<'a> TcpSocketRead<'a> {
    /// The socket that this is a half of.
    pub closed spec fn socket(&self) -> TcpSocket {
        *self.socket
    }

    /// The result of a read, from what the engine answered to it.
    pub fn read(&mut self, outcome: Result<usize, Error>) -> (r: Result<usize, TcpError>)
        ensures
            r == match outcome {
                Ok(n) => Ok::<usize, TcpError>(n),
                Err(e) => Err(TcpError::General(e)),
            },
            final(self).socket() == old(self).socket(),
    {
        general(outcome)
    }
}

/// The write half of a stream socket.
pub struct TcpSocketWrite<'a> {
    socket: &'a TcpSocket,
}

impl<'a> TcpSocketWrite<'a> {
    /// The socket that this is a half of.
    pub closed spec fn socket(&self) -> TcpSocket {
        *self.socket
    }

    /// The result of a write, from what the engine answered to it.
    pub fn write(&mut self, outcome: Result<usize, Error>) -> (r: Result<usize, TcpError>)
        ensures
            r == match outcome {
                Ok(n) => Ok::<usize, TcpError>(n),
                Err(e) => Err(TcpError::General(e)),
            },
            final(self).socket() == old(self).socket(),
    {
        general(outcome)
    }

    /// The result of a flush, from what the engine answered to it.
    pub fn flush(&mut self, outcome: Result<(), Error>) -> (r: Result<(), TcpError>)
        ensures
            r == reported(outcome),
            final(self).socket() == old(self).socket(),
    {
        report(outcome)
    }
}

/// The factory of stream sockets for an engine that was built with `features`.
#[derive(Clone, Copy, Debug)]
pub struct Tcp {
    /// What the engine was built with.
    features: Features,
}

impl Tcp {
    /// What the engine was built with.
    pub closed spec fn features(&self) -> Features {
        self.features
    }

    /// Creates the factory for an engine that was built with `features`.
    pub fn new(features: Features) -> (tcp: Self)
        ensures
            tcp.features() == features,
    {
        Tcp { features }
    }

    /// Prepares a connection to `remote`: takes a slot of `buffers` for the
    /// socket and gives the endpoint that the engine is to connect to.
    ///
    /// Fails with [`TcpError::NoBuffers`] when every slot is taken, and
    /// otherwise with [`TcpError::UnsupportedProto`] where the engine was not
    /// built with the family of `remote`. A failure leaves `buffers` as it was.
    pub fn connect<P: DynPool<TcpSocketBuffers> + ?Sized>(
        &self,
        buffers: &mut P,
        remote: SocketAddr,
    ) -> (r: Result<(TcpSocket, IpEndpoint), TcpError>)
        ensures
            match r {
                Ok((socket, endpoint)) => {
                    &&& socket.token().pool() == old(buffers).pool_id()
                    &&& is_first_free(old(buffers).occupancy(), socket.token()@)
                    &&& final(buffers).occupancy() == old(buffers).occupancy().update(
                        socket.token()@,
                        true,
                    )
                    &&& socket.shutdown() == Shutdown::Open
                    &&& emb_socket(remote, self.features()) == Some(endpoint)
                },
                Err(e) => {
                    &&& final(buffers).occupancy() == old(buffers).occupancy()
                    &&& e == if free_slots(old(buffers).occupancy()) == 0 {
                        TcpError::NoBuffers
                    } else {
                        TcpError::UnsupportedProto
                    }
                },
            },
            r is Ok <==> free_slots(old(buffers).occupancy()) > 0 && emb_socket(
                remote,
                self.features(),
            ) is Some,
            r is Ok ==> free_slots(final(buffers).occupancy()) + 1 == free_slots(
                old(buffers).occupancy(),
            ),
            final(buffers).contents() == old(buffers).contents(),
            final(buffers).pool_id() == old(buffers).pool_id(),
    {
        let socket = match TcpSocket::new(buffers) {
            Ok(socket) => socket,
            Err(e) => {
                return Err(e);
            },
        };
        match to_emb_socket(remote, self.features) {
            Some(endpoint) => Ok((socket, endpoint)),
            None => {
                buffers.free(socket.buffer_token);
                assert(final(buffers).occupancy() =~= old(buffers).occupancy());
                Err(TcpError::UnsupportedProto)
            },
        }
    }

    /// Binds to `local`: gives the acceptor of the connections that come in there.
    pub fn bind(&self, local: SocketAddr) -> (r: Result<TcpAccept, TcpError>)
        ensures
            r matches Ok(accept) && accept.stack() == *self && accept.local() == local,
    {
        Ok(TcpAccept { stack: *self, local })
    }
}

/// The acceptor of the stream connections that come in at one local address.
#[derive(Clone, Copy, Debug)]
pub struct TcpAccept {
    /// The factory that the acceptor came from.
    stack: Tcp,
    /// The address to listen on.
    local: SocketAddr,
}

impl TcpAccept {
    /// The factory that the acceptor came from.
    pub closed spec fn stack(&self) -> Tcp {
        self.stack
    }

    /// The address to listen on.
    pub closed spec fn local(&self) -> SocketAddr {
        self.local
    }

    /// Prepares to accept one connection: takes a slot of `buffers` for the
    /// socket and gives the endpoint that the engine is to listen on.
    ///
    /// Fails with [`TcpError::UnsupportedProto`] where the engine was not built
    /// with the family of the local address, and otherwise with
    /// [`TcpError::NoBuffers`] when every slot is taken. A failure leaves
    /// `buffers` as it was.
    pub fn accept<P: DynPool<TcpSocketBuffers> + ?Sized>(&self, buffers: &mut P) -> (r: Result<
        (TcpSocket, IpListenEndpoint),
        TcpError,
    >)
        ensures
            match r {
                Ok((socket, endpoint)) => {
                    &&& socket.token().pool() == old(buffers).pool_id()
                    &&& is_first_free(old(buffers).occupancy(), socket.token()@)
                    &&& final(buffers).occupancy() == old(buffers).occupancy().update(
                        socket.token()@,
                        true,
                    )
                    &&& socket.shutdown() == Shutdown::Open
                    &&& emb_bind_socket(self.local(), self.stack().features()) == Some(endpoint)
                },
                Err(e) => {
                    &&& final(buffers).occupancy() == old(buffers).occupancy()
                    &&& e == if emb_bind_socket(self.local(), self.stack().features()) is None {
                        TcpError::UnsupportedProto
                    } else {
                        TcpError::NoBuffers
                    }
                },
            },
            r is Ok <==> emb_bind_socket(self.local(), self.stack().features()) is Some
                && free_slots(old(buffers).occupancy()) > 0,
            r is Ok ==> free_slots(final(buffers).occupancy()) + 1 == free_slots(
                old(buffers).occupancy(),
            ),
            final(buffers).contents() == old(buffers).contents(),
            final(buffers).pool_id() == old(buffers).pool_id(),
    {
        let endpoint = match to_emb_bind_socket(self.local, self.stack.features) {
            Some(endpoint) => endpoint,
            None => {
                return Err(TcpError::UnsupportedProto);
            },
        };
        match TcpSocket::new(buffers) {
            Ok(socket) => Ok((socket, endpoint)),
            Err(e) => Err(e),
        }
    }
}

/// The state that `events`, taken in order, lead to from `state`.
pub open spec fn after(state: Shutdown, events: Seq<Event>) -> Shutdown
    decreases events.len(),
{
    if events.len() == 0 {
        state
    } else {
        after(state, events.drop_last()).next(events.last())
    }
}

/// One of `events` says that the flush ended.
pub open spec fn flush_ended(events: Seq<Event>) -> bool {
    exists|i: int| 0 <= i < events.len() && events[i] is Flushed
}

/// `event` says that the incoming stream ended.
pub open spec fn ends_stream(event: Event) -> bool {
    event matches Event::Read(read) && discarded(read) is Some
}

/// One of `events` says that the incoming stream ended.
pub open spec fn stream_ended(events: Seq<Event>) -> bool {
    exists|i: int| 0 <= i < events.len() && ends_stream(#[trigger] events[i])
}

/// A shutdown of both directions is complete only after the flush and the
/// incoming stream have both ended, however the engine's answers are ordered
/// and however many reads bring data in between.
pub proof fn lemma_close_both_waits_for_both(events: Seq<Event>)
    requires
        after(Shutdown::closing(Close::Both), events) == Shutdown::Closed,
    ensures
        flush_ended(events),
        stream_ended(events),
{
    lemma_close_both_progress(events);
}

/// Where a shutdown of both directions stands after `events`, and what must
/// have happened for it to stand there.
proof fn lemma_close_both_progress(events: Seq<Event>)
    ensures
        match after(Shutdown::closing(Close::Both), events) {
            Shutdown::ClosingBoth(Progress::Neither) => true,
            Shutdown::ClosingBoth(Progress::Flushed(_)) => flush_ended(events),
            Shutdown::ClosingBoth(Progress::Discarded(_)) => stream_ended(events),
            Shutdown::Closed => flush_ended(events) && stream_ended(events),
            _ => false,
        },
    decreases events.len(),
{
    if events.len() > 0 {
        let earlier = events.drop_last();
        let last = events.len() - 1;
        lemma_close_both_progress(earlier);
        if flush_ended(earlier) {
            let i = choose|i: int| 0 <= i < earlier.len() && earlier[i] is Flushed;
            assert(events[i] is Flushed);
        }
        if stream_ended(earlier) {
            let i = choose|i: int| 0 <= i < earlier.len() && ends_stream(#[trigger] earlier[i]);
            assert(ends_stream(events[i]));
        }
        if events.last() is Flushed {
            assert(events[last] is Flushed);
        }
        if ends_stream(events.last()) {
            assert(ends_stream(events[last]));
        }
    }
}

/// A shutdown of both directions whose flush failed reports the error of the
/// flush, whether the incoming stream ended well or not, and whichever of
/// the two ended first.
pub proof fn lemma_close_both_reports_flush_error(
    e: Error,
    read: Result<usize, Error>,
    discard: Result<(), Error>,
)
    requires
        discarded(read) == Some(discard),
    ensures
        joined(Err(e), discard) == Err::<(), TcpError>(TcpError::General(e)),
        Shutdown::closing(Close::Both).next(Event::Flushed(Err(e))).step(Event::Read(read))
            == Step::Done(Err(TcpError::General(e))),
        Shutdown::closing(Close::Both).next(Event::Read(read)).step(Event::Flushed(Err(e)))
            == Step::Done(Err(TcpError::General(e))),
{
}

/// An abort is complete only after the flush has ended: until then the engine
/// may still hold the transmit region, and the socket does not count as shut
/// down.
pub proof fn lemma_abort_waits_for_flush(events: Seq<Event>)
    requires
        after(Shutdown::Aborting, events) == Shutdown::Closed,
    ensures
        flush_ended(events),
{
    lemma_abort_progress(events);
}

/// Where an abort stands after `events`.
proof fn lemma_abort_progress(events: Seq<Event>)
    ensures
        match after(Shutdown::Aborting, events) {
            Shutdown::Aborting => true,
            Shutdown::Closed => flush_ended(events),
            _ => false,
        },
    decreases events.len(),
{
    if events.len() > 0 {
        let earlier = events.drop_last();
        let last = events.len() - 1;
        lemma_abort_progress(earlier);
        if flush_ended(earlier) {
            let i = choose|i: int| 0 <= i < earlier.len() && earlier[i] is Flushed;
            assert(events[i] is Flushed);
        }
        if events.last() is Flushed {
            assert(events[last] is Flushed);
        }
    }
}

/// A shutdown that has started awaits an answer of the engine until it is
/// complete: in every state but [`Shutdown::Open`] and [`Shutdown::Closed`] the
/// flush or the end of the incoming stream is awaited, and no event leads back
/// to [`Shutdown::Open`].
pub proof fn lemma_shutdown_awaits_until_closed(state: Shutdown, event: Event, what: Close)
    ensures
        (state.awaits_flush() || state.awaits_end_of_stream()) <==> (state != Shutdown::Open
            && state != Shutdown::Closed),
        state != Shutdown::Open ==> state.next(event) != Shutdown::Open,
        Shutdown::closing(what) != Shutdown::Open && Shutdown::closing(what) != Shutdown::Closed,
{
}

/// A step says that the shutdown is complete exactly when the state becomes
/// [`Shutdown::Closed`], and a shutdown that is complete awaits nothing.
pub proof fn lemma_done_is_closed(state: Shutdown, event: Event)
    requires
        state != Shutdown::Closed,
    ensures
        state.step(event) is Done <==> state.next(event) == Shutdown::Closed,
        !Shutdown::Closed.awaits_flush(),
        !Shutdown::Closed.awaits_end_of_stream(),
{
}


} // verus!
