//! The typed transfer layer: wraps one endpoint and exposes record-oriented
//! operations over its byte interface, handling partial reads and multi-chunk
//! draining. Records are single bytes: wider records would need a documented,
//! checked binary layout contract.

use vstd::prelude::*;

use crate::sock::{ComplexSock, SockError};

verus! {

/// Number of byte records each drain iteration of `read_all` requests.
pub const CHUNK_SIZE: usize = 1024;

/// Owns one endpoint and moves whole byte buffers in and out of it.
///
/// Dropping a wrapper does not close the endpoint: whoever owns it calls
/// `close` on every path before letting it go, as the manager does when a
/// later construction step fails and as the host does when a relay thread
/// ends.
pub struct SocketWrapper<S: ComplexSock> {
    simple_sock: S,
}

impl<S: ComplexSock> SocketWrapper<S> {
    pub closed spec fn avail(&self) -> Seq<u8> {
        self.simple_sock.avail()
    }

    pub closed spec fn taken(&self) -> Seq<u8> {
        self.simple_sock.taken()
    }

    pub closed spec fn sent(&self) -> Seq<u8> {
        self.simple_sock.sent()
    }

    pub closed spec fn steady(&self) -> bool {
        self.simple_sock.steady()
    }

    pub closed spec fn is_blocking(&self) -> bool {
        self.simple_sock.is_blocking()
    }

    pub closed spec fn is_open(&self) -> bool {
        self.simple_sock.is_open()
    }

    pub closed spec fn inv(&self) -> bool {
        self.simple_sock.inv()
    }

    pub fn new(simple_sock: S) -> (r: Self)
        ensures
            r.avail() == simple_sock.avail(),
            r.taken() == simple_sock.taken(),
            r.sent() == simple_sock.sent(),
            r.steady() == simple_sock.steady(),
            r.is_blocking() == simple_sock.is_blocking(),
            r.is_open() == simple_sock.is_open(),
            r.inv() == simple_sock.inv(),
    {
        SocketWrapper { simple_sock }
    }

    /// Opens the wrapped endpoint. On failure the endpoint is closed before
    /// it is dropped, so nothing leaks.
    pub fn open(self) -> (r: Result<Self, SockError>)
        requires
            self.inv(),
        ensures
            match r {
                Ok(w) => {
                    &&& w.inv()
                    &&& w.is_open()
                    &&& w.taken() == self.taken()
                    &&& w.sent() == self.sent()
                    &&& w.avail() == self.avail()
                    &&& w.steady() == self.steady()
                    &&& w.is_blocking() == self.is_blocking()
                },
                Err(_) => true,
            },
    {
        let mut this = self;
        match this.simple_sock.open() {
            Ok(()) => Ok(this),
            Err(e) => {
                this.simple_sock.close();
                Err(e)
            },
        }
    }

    /// Closes the wrapped endpoint; tolerated at any time, any number of
    /// times.
    pub fn close(&mut self)
        requires
            old(self).inv(),
        ensures
            final(self).inv(),
            !final(self).is_open(),
            final(self).taken() == old(self).taken(),
            final(self).sent() == old(self).sent(),
    {
        self.simple_sock.close();
    }

    pub fn get_simple_sock(&self) -> (r: &S)
        ensures
            r.avail() == self.avail(),
            r.taken() == self.taken(),
            r.sent() == self.sent(),
            r.steady() == self.steady(),
            r.is_blocking() == self.is_blocking(),
            r.is_open() == self.is_open(),
            r.inv() == self.inv(),
    {
        &self.simple_sock
    }

    /// Reads up to `sz` byte records: repeatedly reads into the remaining
    /// tail until the full count is obtained or a call returns fewer bytes
    /// than requested (a short read, meaning no more data right now).
    ///
    /// On a steady endpoint the result is exactly the first
    /// `min(sz, pending)` pending bytes.
    pub fn generic_read(&mut self, sz: usize) -> (r: Result<Vec<u8>, SockError>)
        requires
            old(self).inv(),
            old(self).is_open(),
        ensures
            final(self).inv(),
            final(self).is_open(),
            final(self).sent() == old(self).sent(),
            final(self).is_blocking() == old(self).is_blocking(),
            match r {
                Ok(v) => {
                    &&& v@.len() <= sz
                    &&& final(self).taken() == old(self).taken() + v@
                    &&& (old(self).steady() ==> {
                        &&& final(self).steady()
                        &&& v@ == old(self).avail().take(v@.len() as int)
                        &&& v@.len() == if sz <= old(self).avail().len() {
                            sz as int
                        } else {
                            old(self).avail().len() as int
                        }
                        &&& final(self).avail() == old(self).avail().skip(v@.len() as int)
                    })
                },
                Err(_) => {
                    &&& old(self).taken().is_prefix_of(final(self).taken())
                    &&& (old(self).steady() ==> final(self).steady())
                },
            },
    {
        let mut out: Vec<u8> = Vec::new();
        let mut got: usize = 0;
        let mut done = false;
        while !done && got < sz
            invariant
                got == out@.len() <= sz,
                self.inv(),
                self.is_open(),
                self.sent() == old(self).sent(),
                self.is_blocking() == old(self).is_blocking(),
                self.taken() == old(self).taken() + out@,
                old(self).steady() ==> {
                    &&& self.steady()
                    &&& got <= old(self).avail().len()
                    &&& out@ == old(self).avail().take(got as int)
                    &&& self.avail() == old(self).avail().skip(got as int)
                },
                done ==> (old(self).steady() ==> got == old(self).avail().len()),
            decreases sz - got, (if done {
                0int
            } else {
                1int
            }),
        {
            let want = sz - got;
            let mut tmp: Vec<u8> = Vec::new();
            tmp.resize(want, 0u8);
            let n = match self.simple_sock.read(&mut tmp, want) {
                Ok(n) => n,
                Err(e) => {
                    proof {
                        assert(old(self).taken() =~= self.taken().take(old(self).taken().len() as int));
                        assert(old(self).taken().is_prefix_of(self.taken()));
                    }
                    return Err(e);
                },
            };
            let part = vstd::slice::slice_subrange(tmp.as_slice(), 0, n);
            out.extend_from_slice(part);
            got = got + n;
            if n < want {
                done = true;
            }
            proof {
                if old(self).steady() {
                    assert(out@ =~= old(self).avail().take(got as int));
                    assert(self.avail() =~= old(self).avail().skip(got as int));
                }
                assert(self.taken() =~= old(self).taken() + out@);
            }
        }
        proof {
            if old(self).steady() {
                assert(out@.len() == if sz <= old(self).avail().len() {
                    sz as int
                } else {
                    old(self).avail().len() as int
                });
            }
        }
        Ok(out)
    }

    /// Writes the first `sz` byte records of `data` in exactly one endpoint
    /// write: fully consumed or failed, never partial.
    pub fn generic_write(&mut self, data: &[u8], sz: usize) -> (r: Result<(), SockError>)
        requires
            old(self).inv(),
            old(self).is_open(),
            sz <= data.len(),
        ensures
            final(self).inv(),
            final(self).is_open(),
            final(self).taken() == old(self).taken(),
            final(self).avail() == old(self).avail(),
            final(self).steady() == old(self).steady(),
            final(self).is_blocking() == old(self).is_blocking(),
            match r {
                Ok(_) => final(self).sent() == old(self).sent() + data@.take(sz as int),
                Err(_) => final(self).sent() == old(self).sent(),
            },
    {
        self.simple_sock.write(data, sz)
    }

    /// Drains all currently available data: reads fixed-size chunks and
    /// accumulates them until a chunk comes back short, which signals the
    /// stream is drained for now. When exactly a multiple of the chunk size
    /// was pending, one extra, empty read observes the end; this benign
    /// boundary behaviour is kept deliberately.
    ///
    /// On a steady endpoint the result is exactly the pending bytes, and
    /// nothing is left pending: one full chunk comes back as that chunk,
    /// with no duplication and no hang.
    pub fn read_all(&mut self) -> (r: Result<Vec<u8>, SockError>)
        requires
            old(self).inv(),
            old(self).is_open(),
        ensures
            final(self).inv(),
            final(self).is_open(),
            final(self).sent() == old(self).sent(),
            final(self).is_blocking() == old(self).is_blocking(),
            match r {
                Ok(v) => {
                    &&& final(self).taken() == old(self).taken() + v@
                    &&& (old(self).steady() ==> {
                        &&& final(self).steady()
                        &&& v@ == old(self).avail()
                        &&& final(self).avail() == Seq::<u8>::empty()
                    })
                },
                Err(_) => {
                    &&& old(self).taken().is_prefix_of(final(self).taken())
                    &&& (old(self).steady() ==> final(self).steady())
                },
            },
    {
        let mut result: Vec<u8> = Vec::new();
        let mut done = false;
        // The iteration counter only bounds the loop so that it provably
        // cannot cycle without progress: each iteration short of the bound
        // appends one full chunk, and a vector cannot outgrow the address
        // space, so the bound is never reached.
        let mut iters: usize = 0;
        while !done && iters < usize::MAX
            invariant
                self.inv(),
                self.is_open(),
                self.sent() == old(self).sent(),
                self.is_blocking() == old(self).is_blocking(),
                self.taken() == old(self).taken() + result@,
                result.len() == result@.len(),
                old(self).steady() ==> {
                    &&& self.steady()
                    &&& result@.len() <= old(self).avail().len()
                    &&& result@ == old(self).avail().take(result@.len() as int)
                    &&& self.avail() == old(self).avail().skip(result@.len() as int)
                },
                !done ==> result@.len() == iters * (CHUNK_SIZE as int),
                done ==> (old(self).steady() ==> result@.len() == old(self).avail().len()),
            decreases usize::MAX - iters,
        {
            iters = iters + 1;
            let chunk_res = self.generic_read(CHUNK_SIZE);
            let mut chunk = match chunk_res {
                Ok(c) => c,
                Err(e) => {
                    proof {
                        assert(old(self).taken() =~= self.taken().take(old(self).taken().len() as int));
                        assert(old(self).taken().is_prefix_of(self.taken()));
                    }
                    return Err(e);
                },
            };
            if chunk.len() < CHUNK_SIZE {
                done = true;
            }
            result.append(&mut chunk);
            proof {
                assert(self.taken() =~= old(self).taken() + result@);
                if old(self).steady() {
                    assert(result@ =~= old(self).avail().take(result@.len() as int));
                    assert(self.avail() =~= old(self).avail().skip(result@.len() as int));
                }
            }
        }
        proof {
            if old(self).steady() {
                assert(result@ =~= old(self).avail());
                assert(self.avail() =~= Seq::<u8>::empty());
            }
        }
        Ok(result)
    }
}

} // verus!
