//! An in-memory endpoint: reads drain a byte queue that a probe fills, and
//! writes are recorded for inspection. It is the loopback transport used to
//! exercise the relay engine without any host I/O.

use vstd::prelude::*;

use crate::sock::{SimpleSock, SockBlockCtl, SockError, SockInfo, SocketFactory, SocketParams};
use crate::strconv;

verus! {

/// An endpoint backed by two byte buffers: an inbox that `read` drains (and
/// that `push_bytes` fills from outside) and an outbox that `write` appends
/// to.
pub struct MemorySock {
    id: u32,
    inbox: Vec<u8>,
    rpos: usize,
    outbox: Vec<u8>,
    opened: bool,
    blocking: bool,
}

impl MemorySock {
    pub fn new(id: u32) -> (r: Self)
        ensures
            r.inv(),
            r.steady(),
            !r.is_open(),
            !r.is_blocking(),
            r.id_spec() == id,
            r.avail() == Seq::<u8>::empty(),
            r.taken() == Seq::<u8>::empty(),
            r.sent() == Seq::<u8>::empty(),
    {
        let r = MemorySock {
            id,
            inbox: Vec::new(),
            rpos: 0,
            outbox: Vec::new(),
            opened: false,
            blocking: false,
        };
        proof {
            assert(r.avail() =~= Seq::<u8>::empty());
            assert(r.taken() =~= Seq::<u8>::empty());
        }
        r
    }

    /// Injects bytes from outside (the external probe of an echo test): they
    /// become pending for `read`.
    pub fn push_bytes(&mut self, data: &[u8])
        requires
            old(self).inv(),
        ensures
            final(self).inv(),
            final(self).avail() == old(self).avail() + data@,
            final(self).taken() == old(self).taken(),
            final(self).sent() == old(self).sent(),
            final(self).steady() == old(self).steady(),
            final(self).is_open() == old(self).is_open(),
            final(self).is_blocking() == old(self).is_blocking(),
            final(self).id_spec() == old(self).id_spec(),
    {
        self.inbox.extend_from_slice(data);
        proof {
            assert(final(self).avail() =~= old(self).avail() + data@);
            assert(final(self).taken() =~= old(self).taken());
        }
    }

    /// The bytes this endpoint has accepted through `write`, oldest first.
    pub fn written(&self) -> (r: &Vec<u8>)
        ensures
            r@ == self.sent(),
    {
        &self.outbox
    }
}

impl SimpleSock for MemorySock {
    closed spec fn avail(&self) -> Seq<u8> {
        self.inbox@.skip(self.rpos as int)
    }

    closed spec fn taken(&self) -> Seq<u8> {
        self.inbox@.take(self.rpos as int)
    }

    closed spec fn sent(&self) -> Seq<u8> {
        self.outbox@
    }

    closed spec fn steady(&self) -> bool {
        true
    }

    closed spec fn is_blocking(&self) -> bool {
        self.blocking
    }

    closed spec fn is_open(&self) -> bool {
        self.opened
    }

    closed spec fn inv(&self) -> bool {
        self.rpos <= self.inbox@.len()
    }

    fn open(&mut self) -> (r: Result<(), SockError>)
        ensures
            r is Ok,
    {
        self.opened = true;
        Ok(())
    }

    fn close(&mut self) {
        self.opened = false;
    }

    fn read(&mut self, data: &mut Vec<u8>, sz: usize) -> (r: Result<usize, SockError>)
        ensures
            r is Ok,
    {
        let pending = self.inbox.len() - self.rpos;
        let n = if sz < pending {
            sz
        } else {
            pending
        };
        let mut i: usize = 0;
        while i < n
            invariant
                i <= n,
                n <= sz <= data@.len(),
                old(self).inv(),
                self == old(self),
                old(self).rpos + n <= old(self).inbox.len(),
                data@.len() == old(data)@.len(),
                forall|j: int| 0 <= j < i ==> data@[j] == old(self).inbox@[old(self).rpos + j],
                forall|j: int| i <= j < data@.len() ==> data@[j] == old(data)@[j],
            decreases n - i,
        {
            let b = self.inbox[self.rpos + i];
            data[i] = b;
            i = i + 1;
        }
        self.rpos = self.rpos + n;
        proof {
            assert(final(data)@ =~= old(self).avail().take(n as int) + old(data)@.skip(n as int));
            assert(final(self).taken() =~= old(self).taken() + old(self).avail().take(n as int));
            assert(final(self).avail() =~= old(self).avail().skip(n as int));
        }
        Ok(n)
    }

    fn write(&mut self, data: &[u8], sz: usize) -> (r: Result<(), SockError>)
        ensures
            r is Ok,
    {
        let part = vstd::slice::slice_subrange(data, 0, sz);
        self.outbox.extend_from_slice(part);
        proof {
            assert(final(self).sent() =~= old(self).sent() + data@.take(sz as int));
            assert(final(self).taken() =~= old(self).taken());
            assert(final(self).avail() =~= old(self).avail());
        }
        Ok(())
    }
}

impl SockBlockCtl for MemorySock {
    fn set_block(&mut self, is_blocking: bool) -> (r: Result<(), SockError>)
        ensures
            r is Ok,
    {
        self.blocking = is_blocking;
        Ok(())
    }
}

impl SockInfo for MemorySock {
    open spec fn type_name_spec(&self) -> Seq<char> {
        "mem"@
    }

    closed spec fn id_spec(&self) -> u32 {
        self.id
    }

    closed spec fn description_spec(&self) -> Seq<char> {
        "mem"@ + strconv::dec_rep(self.id as nat)
    }

    fn get_type_name(&self) -> (r: &str) {
        "mem"
    }

    fn get_id(&self) -> (r: u32) {
        self.id
    }

    fn get_description(&self) -> (r: String) {
        strconv::default_description("mem", self.id)
    }
}

/// Constructs in-memory endpoints; the configuration payload carries nothing
/// and is ignored.
pub struct MemoryFactory {
    next: u32,
}

impl MemoryFactory {
    pub fn new() -> (r: Self)
        ensures
            r.next_id() == 0,
    {
        MemoryFactory { next: 0 }
    }

    /// A factory whose identity counter starts at the given value, so a
    /// host that uses several factories of one kind can keep their
    /// identities disjoint.
    pub fn with_first_id(start: u32) -> (r: Self)
        ensures
            r.next_id() == start,
    {
        MemoryFactory { next: start }
    }
}

impl SocketFactory for MemoryFactory {
    type Sock = MemorySock;

    closed spec fn next_id(&self) -> u32 {
        self.next
    }

    fn create_sock(&mut self, _params: &SocketParams) -> (r: Result<MemorySock, SockError>)
        ensures
            r is Ok,
    {
        let s = MemorySock::new(self.next);
        self.next = self.next + 1;
        Ok(s)
    }
}

} // verus!
