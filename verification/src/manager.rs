//! The relay manager: pairs two factories, constructs and opens their
//! endpoints, and drives one relay direction per step under a cooperative
//! cancellation flag. The host runs each direction on its own thread and
//! polls the shared flag; cancellation is advisory, not preemptive — a
//! cleared flag is observed at the next step, never inside a blocking call.

use vstd::prelude::*;

use crate::sock::{ComplexSock, SockError, SocketFactory, SocketParams};
use crate::transfer::SocketWrapper;

verus! {

/// The state a relay direction is in after one step. There is no paused
/// state: a direction either keeps running, stopped cooperatively, or failed
/// with the error that terminated it (no automatic retry).
#[derive(Clone, Copy, Debug, PartialEq, Eq, Structural)]
pub enum RelayState {
    Running,
    Stopped,
    Failed(SockError),
}

/// Pairs the factory for the input side with the factory for the output
/// side. Stateless apart from the factories' own identity counters; it may
/// be used repeatedly to create independent bindings.
pub struct SocketManager<FI: SocketFactory, FO: SocketFactory> {
    in_factory: FI,
    out_factory: FO,
}

impl<FI: SocketFactory, FO: SocketFactory> SocketManager<FI, FO> {
    pub closed spec fn in_next_id(&self) -> u32 {
        self.in_factory.next_id()
    }

    pub closed spec fn out_next_id(&self) -> u32 {
        self.out_factory.next_id()
    }

    pub fn new(in_factory: FI, out_factory: FO) -> (r: Self)
        ensures
            r.in_next_id() == in_factory.next_id(),
            r.out_next_id() == out_factory.next_id(),
    {
        SocketManager { in_factory, out_factory }
    }

    pub fn set_in_factory(&mut self, in_factory: FI)
        ensures
            final(self).in_next_id() == in_factory.next_id(),
            final(self).out_next_id() == old(self).out_next_id(),
    {
        self.in_factory = in_factory;
    }

    pub fn set_out_factory(&mut self, out_factory: FO)
        ensures
            final(self).in_next_id() == old(self).in_next_id(),
            final(self).out_next_id() == out_factory.next_id(),
    {
        self.out_factory = out_factory;
    }

    /// Constructs and opens the two endpoints of a unidirectional binding:
    /// the input with the requested blocking mode, the output with its
    /// default mode. On any failure every endpoint constructed so far is
    /// closed before the error is returned.
    pub fn open_unidirectional(
        &mut self,
        in_params: &SocketParams,
        out_params: &SocketParams,
        blocking: bool,
    ) -> (r: Result<(SocketWrapper<FI::Sock>, SocketWrapper<FO::Sock>), SockError>)
        requires
            old(self).in_next_id() < u32::MAX,
            old(self).out_next_id() < u32::MAX,
        ensures
            match r {
                Ok((i, o)) => {
                    &&& i.inv()
                    &&& i.is_open()
                    &&& i.taken() == Seq::<u8>::empty()
                    &&& i.sent() == Seq::<u8>::empty()
                    &&& i.is_blocking() == blocking
                    &&& o.inv()
                    &&& o.is_open()
                    &&& o.taken() == Seq::<u8>::empty()
                    &&& o.sent() == Seq::<u8>::empty()
                    &&& final(self).in_next_id() == old(self).in_next_id() + 1
                    &&& final(self).out_next_id() == old(self).out_next_id() + 1
                },
                Err(_) => {
                    &&& old(self).in_next_id() <= final(self).in_next_id() <= old(
                        self,
                    ).in_next_id() + 1
                    &&& old(self).out_next_id() <= final(self).out_next_id() <= old(
                        self,
                    ).out_next_id() + 1
                },
            },
    {
        let sock_in = self.in_factory.create_sock_blockctl(in_params, blocking)?;
        let mut input = SocketWrapper::new(sock_in).open()?;
        let sock_out = match self.out_factory.create_sock(out_params) {
            Ok(s) => s,
            Err(e) => {
                input.close();
                return Err(e);
            },
        };
        let output = match SocketWrapper::new(sock_out).open() {
            Ok(o) => o,
            Err(e) => {
                input.close();
                return Err(e);
            },
        };
        Ok((input, output))
    }

    /// Constructs and opens the two endpoints of a bidirectional binding;
    /// both are opened non-blocking regardless of any request, because each
    /// endpoint is polled by two directions. On any failure every endpoint
    /// constructed so far is closed before the error is returned.
    pub fn open_bidirectional(&mut self, from_params: &SocketParams, to_params: &SocketParams) -> (r:
        Result<(SocketWrapper<FI::Sock>, SocketWrapper<FO::Sock>), SockError>)
        requires
            old(self).in_next_id() < u32::MAX,
            old(self).out_next_id() < u32::MAX,
        ensures
            match r {
                Ok((a, b)) => {
                    &&& a.inv()
                    &&& a.is_open()
                    &&& a.taken() == Seq::<u8>::empty()
                    &&& a.sent() == Seq::<u8>::empty()
                    &&& !a.is_blocking()
                    &&& b.inv()
                    &&& b.is_open()
                    &&& b.taken() == Seq::<u8>::empty()
                    &&& b.sent() == Seq::<u8>::empty()
                    &&& !b.is_blocking()
                    &&& final(self).in_next_id() == old(self).in_next_id() + 1
                    &&& final(self).out_next_id() == old(self).out_next_id() + 1
                },
                Err(_) => {
                    &&& old(self).in_next_id() <= final(self).in_next_id() <= old(
                        self,
                    ).in_next_id() + 1
                    &&& old(self).out_next_id() <= final(self).out_next_id() <= old(
                        self,
                    ).out_next_id() + 1
                },
            },
    {
        let sock_from = self.in_factory.create_sock_blockctl(from_params, false)?;
        let mut from = SocketWrapper::new(sock_from).open()?;
        let sock_to = match self.out_factory.create_sock_blockctl(to_params, false) {
            Ok(s) => s,
            Err(e) => {
                from.close();
                return Err(e);
            },
        };
        let to = match SocketWrapper::new(sock_to).open() {
            Ok(o) => o,
            Err(e) => {
                from.close();
                return Err(e);
            },
        };
        Ok((from, to))
    }
}

/// One iteration of a relay direction. When the shared cancellation flag is
/// cleared the step stops without touching either endpoint; otherwise it
/// drains everything currently pending on the input and forwards it, whole
/// and in order, to the output.
///
/// With a steady input, one running step moves exactly the pending bytes of
/// the input to the output's accepted stream, byte for byte and in order.
pub fn relay_step<I: ComplexSock, O: ComplexSock>(
    input: &mut SocketWrapper<I>,
    output: &mut SocketWrapper<O>,
    running: bool,
) -> (st: RelayState)
    requires
        old(input).inv(),
        old(input).is_open(),
        old(output).inv(),
        old(output).is_open(),
    ensures
        final(input).inv(),
        final(output).inv(),
        final(input).is_open(),
        final(output).is_open(),
        final(input).sent() == old(input).sent(),
        final(output).taken() == old(output).taken(),
        final(output).avail() == old(output).avail(),
        final(output).steady() == old(output).steady(),
        final(input).is_blocking() == old(input).is_blocking(),
        final(output).is_blocking() == old(output).is_blocking(),
        old(input).taken().is_prefix_of(final(input).taken()),
        old(input).steady() ==> final(input).steady(),
        !running ==> st == RelayState::Stopped && *final(input) == *old(input) && *final(output)
            == *old(output),
        running ==> match st {
            RelayState::Running => {
                &&& final(output).sent() == old(output).sent() + final(input).taken().skip(
                    old(input).taken().len() as int,
                )
                &&& (old(input).steady() ==> {
                    &&& final(input).taken() == old(input).taken() + old(input).avail()
                    &&& final(input).avail() == Seq::<u8>::empty()
                    &&& final(output).sent() == old(output).sent() + old(input).avail()
                })
            },
            RelayState::Stopped => false,
            RelayState::Failed(_) => final(output).sent() == old(output).sent(),
        },
{
    if !running {
        return RelayState::Stopped;
    }
    let buf = match input.read_all() {
        Ok(b) => b,
        Err(e) => {
            return RelayState::Failed(e);
        },
    };
    match output.generic_write(buf.as_slice(), buf.len()) {
        Ok(()) => {
            proof {
                assert(buf@.take(buf@.len() as int) =~= buf@);
                assert(final(input).taken().skip(old(input).taken().len() as int) =~= buf@);
                assert(old(input).taken() =~= final(input).taken().take(
                    old(input).taken().len() as int,
                ));
            }
            RelayState::Running
        },
        Err(e) => {
            proof {
                assert(old(input).taken() =~= final(input).taken().take(
                    old(input).taken().len() as int,
                ));
            }
            RelayState::Failed(e)
        },
    }
}

/// One iteration of a bidirectional binding, one direction after the other.
/// With both endpoints steady, one running step delivers the pending bytes
/// of each endpoint completely and correctly to the other, each direction
/// independent of its opposite.
pub fn relay_bidir_step<A: ComplexSock, B: ComplexSock>(
    a: &mut SocketWrapper<A>,
    b: &mut SocketWrapper<B>,
    running: bool,
) -> (st: RelayState)
    requires
        old(a).inv(),
        old(a).is_open(),
        old(b).inv(),
        old(b).is_open(),
    ensures
        final(a).inv(),
        final(b).inv(),
        final(a).is_open(),
        final(b).is_open(),
        !running ==> st == RelayState::Stopped && *final(a) == *old(a) && *final(b) == *old(b),
        running && st == RelayState::Running && old(a).steady() && old(b).steady() ==> {
            &&& final(b).sent() == old(b).sent() + old(a).avail()
            &&& final(a).sent() == old(a).sent() + old(b).avail()
            &&& final(a).avail() == Seq::<u8>::empty()
            &&& final(b).avail() == Seq::<u8>::empty()
        },
{
    let st = relay_step(a, b, running);
    match st {
        RelayState::Running => relay_step(b, a, running),
        other => other,
    }
}

} // verus!
