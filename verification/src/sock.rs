//! The endpoint capability contract: the traits every transport must satisfy,
//! and the factory contract that turns configuration payloads into endpoints.
//!
//! The behaviour of an endpoint is modelled by four pieces of ghost state:
//! `avail` (the bytes currently pending for `read`), `taken` (the history of
//! bytes `read` has handed out), `sent` (the history of bytes `write` has
//! accepted) and `steady` (whether pending data can appear on its own).

use vstd::prelude::*;

verus! {

/// Errors surfaced by the socket layer.
///
/// There is deliberately no "would block" kind: an endpoint translates a
/// would-block condition into an `Ok(0)` read before it reaches any caller.
#[derive(Clone, Copy, Debug, PartialEq, Eq, Structural)]
pub enum SockError {
    /// Malformed or rejected configuration payload.
    InvalidConfig,
    /// Data that an operation cannot interpret.
    InvalidData,
    /// Endpoint used before a successful open.
    NotConnected,
    /// A peer or a helper of the endpoint has gone away.
    Disconnected,
    /// An operation the endpoint does not support.
    Unsupported,
    /// Any other transport failure.
    Io,
}

/// An opaque configuration payload, consumed once by a factory to produce
/// exactly one endpoint. Each transport defines its own schema over it.
pub type SocketParams = String;

/// A simple socket trait providing basic read/write operations.
pub trait SimpleSock: Sized {
    /// Bytes currently pending: what `read` may hand out next, oldest first.
    spec fn avail(&self) -> Seq<u8>;

    /// History of all bytes handed out by `read`, oldest first.
    spec fn taken(&self) -> Seq<u8>;

    /// History of all bytes accepted by `write`, oldest first.
    spec fn sent(&self) -> Seq<u8>;

    /// A steady endpoint never gains pending bytes on its own: reads consume
    /// `avail` and nothing replenishes it.
    spec fn steady(&self) -> bool;

    /// Whether the endpoint is in blocking mode.
    spec fn is_blocking(&self) -> bool;

    /// Whether `open` has succeeded and `close` has not been called since.
    spec fn is_open(&self) -> bool;

    /// Implementation invariant of the endpoint.
    spec fn inv(&self) -> bool;

    /// Opens the socket connection. May block. After a failure the endpoint
    /// is not open, so no read or write is permitted.
    fn open(&mut self) -> (r: Result<(), SockError>)
        requires
            old(self).inv(),
        ensures
            final(self).inv(),
            final(self).taken() == old(self).taken(),
            final(self).sent() == old(self).sent(),
            final(self).avail() == old(self).avail(),
            final(self).steady() == old(self).steady(),
            final(self).is_blocking() == old(self).is_blocking(),
            r is Ok ==> final(self).is_open(),
            r is Err ==> !final(self).is_open(),
    ;

    /// Closes the socket connection. Tolerates being called at any time,
    /// any number of times; failures during close are swallowed.
    fn close(&mut self)
        requires
            old(self).inv(),
        ensures
            final(self).inv(),
            !final(self).is_open(),
            final(self).taken() == old(self).taken(),
            final(self).sent() == old(self).sent(),
    ;

    /// Reads data into the prefix of the provided buffer, up to `sz` bytes.
    ///
    /// Returns the number of bytes placed into the buffer prefix,
    /// `0 <= n <= sz`. The bytes handed out are exactly the first `n` pending
    /// bytes, appended to the `taken` history. A short read (`n < sz`) means
    /// everything that was pending has been handed out: "no data currently
    /// available", not end-of-stream. A non-blocking endpoint with nothing
    /// pending returns `Ok(0)`, never a would-block error.
    fn read(&mut self, data: &mut Vec<u8>, sz: usize) -> (r: Result<usize, SockError>)
        requires
            old(self).inv(),
            old(self).is_open(),
            sz <= old(data).len(),
        ensures
            final(self).inv(),
            final(self).is_open(),
            final(data).len() == old(data).len(),
            final(self).sent() == old(self).sent(),
            final(self).is_blocking() == old(self).is_blocking(),
            match r {
                Ok(n) => {
                    &&& n <= sz
                    &&& n <= old(self).avail().len()
                    &&& final(data)@ == old(self).avail().take(n as int) + old(data)@.skip(n as int)
                    &&& final(self).taken() == old(self).taken() + old(self).avail().take(n as int)
                    &&& (n < sz ==> n == old(self).avail().len())
                    &&& old(self).avail().skip(n as int).is_prefix_of(final(self).avail())
                    &&& (old(self).steady() ==> final(self).steady() && final(self).avail() == old(
                        self,
                    ).avail().skip(n as int))
                },
                Err(_) => {
                    &&& final(self).taken() == old(self).taken()
                    &&& final(data)@ == old(data)@
                    &&& (old(self).steady() ==> final(self).steady() && final(self).avail() == old(
                        self,
                    ).avail())
                },
            },
            (!old(self).is_blocking() && old(self).avail().len() == 0) ==> r == Ok::<usize, SockError>(0usize),
    ;

    /// Writes the first `sz` bytes of `data`: fully consumes them or fails.
    /// Partial writes are an endpoint-internal retry concern, never exposed.
    fn write(&mut self, data: &[u8], sz: usize) -> (r: Result<(), SockError>)
        requires
            old(self).inv(),
            old(self).is_open(),
            sz <= data.len(),
        ensures
            final(self).inv(),
            final(self).is_open(),
            final(self).taken() == old(self).taken(),
            final(self).is_blocking() == old(self).is_blocking(),
            final(self).steady() == old(self).steady(),
            final(self).avail() == old(self).avail(),
            match r {
                Ok(_) => final(self).sent() == old(self).sent() + data@.take(sz as int),
                Err(_) => final(self).sent() == old(self).sent(),
            },
    ;
}

/// Identity of an endpoint: a transport-kind tag, a numeric identity unique
/// per factory, and a human-readable description.
pub trait SockInfo: Sized {
    /// The transport-kind tag.
    spec fn type_name_spec(&self) -> Seq<char>;

    /// The numeric identity assigned at construction.
    spec fn id_spec(&self) -> u32;

    /// What `get_description` returns.
    spec fn description_spec(&self) -> Seq<char>;

    fn get_type_name(&self) -> (r: &str)
        ensures
            r@ == self.type_name_spec(),
    ;

    fn get_id(&self) -> (r: u32)
        ensures
            r == self.id_spec(),
    ;

    fn get_description(&self) -> (r: String)
        ensures
            r@ == self.description_spec(),
    ;
}

/// Blocking-mode control. Idempotent; an endpoint with no meaningful
/// blocking concept records the request and returns success.
pub trait SockBlockCtl: SimpleSock {
    fn set_block(&mut self, is_blocking: bool) -> (r: Result<(), SockError>)
        requires
            old(self).inv(),
        ensures
            final(self).inv(),
            final(self).taken() == old(self).taken(),
            final(self).sent() == old(self).sent(),
            final(self).is_open() == old(self).is_open(),
            r is Ok ==> final(self).is_blocking() == is_blocking,
            r is Err ==> final(self).is_blocking() == old(self).is_blocking(),
    ;
}

/// The combined capability contract the relay engine requires.
pub trait ComplexSock: SimpleSock + SockBlockCtl + SockInfo {

}

// Any type that implements SimpleSock, SockBlockCtl and SockInfo
// automatically implements ComplexSock.
impl<T: SimpleSock + SockBlockCtl + SockInfo> ComplexSock for T {

}

/// A readable and writable endpoint with blocking control but without
/// identity.
pub trait SimpleSockBlock: SimpleSock + SockBlockCtl {

}

// Any type that implements SimpleSock and SockBlockCtl automatically
// implements SimpleSockBlock.
impl<T: SimpleSock + SockBlockCtl> SimpleSockBlock for T {

}

/// The identities a factory hands out in one run: constructing endpoints
/// moves the counter from `start` up by one each time, so the k-th endpoint
/// carries `start + k`.
pub open spec fn ids_of_run(start: int, n: nat) -> Seq<int> {
    Seq::new(n, |k: int| start + k)
}

/// Identity uniqueness: the identities one factory assigns in one run are
/// strictly increasing, so any two endpoints it constructed are distinct.
/// `create_sock` ensures each endpoint carries the counter value and moves
/// the counter up by one, which is exactly such a run.
pub proof fn lemma_identity_uniqueness(start: int, n: nat)
    ensures
        forall|i: int, j: int|
            0 <= i < j < n ==> #[trigger] ids_of_run(start, n)[i] < #[trigger] ids_of_run(
                start,
                n,
            )[j],
        forall|i: int, j: int|
            0 <= i < j < n ==> #[trigger] ids_of_run(start, n)[i] != #[trigger] ids_of_run(
                start,
                n,
            )[j],
{
}

/// Constructs endpoints from configuration payloads.
///
/// Identities are assigned from a per-factory counter, monotonically
/// increasing, so that endpoints of one factory are always distinct. The
/// counter is the factory's own: two factories of one kind assign
/// overlapping identities unless the host seeds them apart (the concrete
/// factories offer a seeded constructor); a process-wide counter would need
/// global state, which the verified library avoids.
pub trait SocketFactory: Sized {
    type Sock: ComplexSock;

    /// The identity the next constructed endpoint will carry.
    spec fn next_id(&self) -> u32;

    /// Creates a new endpoint with the given parameters; does not open it.
    /// Malformed configuration is a construction-time error; no partial
    /// endpoint is ever returned.
    fn create_sock(&mut self, params: &SocketParams) -> (r: Result<Self::Sock, SockError>)
        requires
            old(self).next_id() < u32::MAX,
        ensures
            match r {
                Ok(s) => {
                    &&& s.inv()
                    &&& !s.is_open()
                    &&& s.taken() == Seq::<u8>::empty()
                    &&& s.sent() == Seq::<u8>::empty()
                    &&& s.id_spec() == old(self).next_id()
                    &&& final(self).next_id() == old(self).next_id() + 1
                },
                Err(_) => final(self).next_id() == old(self).next_id(),
            },
    ;

    /// Creates a new endpoint and immediately applies the requested blocking
    /// mode. If applying the mode fails, the constructed endpoint is closed
    /// before the error is returned, so nothing leaks.
    fn create_sock_blockctl(&mut self, params: &SocketParams, is_blocking: bool) -> (r: Result<
        Self::Sock,
        SockError,
    >)
        requires
            old(self).next_id() < u32::MAX,
        ensures
            match r {
                Ok(s) => {
                    &&& s.inv()
                    &&& !s.is_open()
                    &&& s.taken() == Seq::<u8>::empty()
                    &&& s.sent() == Seq::<u8>::empty()
                    &&& s.is_blocking() == is_blocking
                    &&& final(self).next_id() == old(self).next_id() + 1
                },
                Err(_) => final(self).next_id() == old(self).next_id() || final(self).next_id()
                    == old(self).next_id() + 1,
            },
    {
        let mut soc = self.create_sock(params)?;
        match soc.set_block(is_blocking) {
            Ok(()) => Ok(soc),
            Err(e) => {
                soc.close();
                Err(e)
            },
        }
    }
}

} // verus!
