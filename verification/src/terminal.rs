//! The terminal transport's decision logic. The terminal endpoint itself
//! reads the host's standard input and writes its standard output, which the
//! host wires up; the non-blocking read decision over what the background
//! reader handed back is verified here.

use vstd::prelude::*;

use crate::sock::SockError;

verus! {

/// What one poll of the background standard-input reader produced.
pub enum PollOutcome {
    /// No line is ready right now.
    Empty,
    /// The background reader has gone away; `read_nonblocking` surfaces
    /// this as the library's disconnection error.
    Disconnected,
    /// A chunk of input.
    Data(Vec<u8>),
}

/// The non-blocking terminal read: nothing pending is a zero-byte read,
/// never an error; a vanished reader is an error; a pending chunk fills the
/// buffer prefix, up to `sz` bytes, and whatever exceeds the request is
/// discarded with the chunk.
pub fn read_nonblocking(polled: PollOutcome, data: &mut Vec<u8>, sz: usize) -> (r: Result<
    usize,
    SockError,
>)
    requires
        sz <= old(data).len(),
    ensures
        final(data).len() == old(data).len(),
        match polled {
            PollOutcome::Empty => r == Ok::<usize, SockError>(0usize) && final(data)@ == old(
                data,
            )@,
            PollOutcome::Disconnected => r == Err::<usize, SockError>(SockError::Disconnected)
                && final(data)@ == old(data)@,
            PollOutcome::Data(buf) => {
                let n = if buf@.len() < sz {
                    buf@.len() as int
                } else {
                    sz as int
                };
                r == Ok::<usize, SockError>(n as usize) && final(data)@ == buf@.take(n) + old(
                    data,
                )@.skip(n)
            },
        },
{
    match polled {
        PollOutcome::Empty => Ok(0),
        PollOutcome::Disconnected => Err(SockError::Disconnected),
        PollOutcome::Data(buf) => {
            let len = if buf.len() < sz {
                buf.len()
            } else {
                sz
            };
            let mut i: usize = 0;
            while i < len
                invariant
                    i <= len,
                    len <= sz <= data@.len(),
                    len <= buf@.len(),
                    data@.len() == old(data)@.len(),
                    forall|j: int| 0 <= j < i ==> data@[j] == buf@[j],
                    forall|j: int| i <= j < data@.len() ==> data@[j] == old(data)@[j],
                decreases len - i,
            {
                let b = buf[i];
                data[i] = b;
                i = i + 1;
            }
            proof {
                assert(final(data)@ =~= buf@.take(len as int) + old(data)@.skip(len as int));
            }
            Ok(len)
        },
    }
}

/// Constructs terminal endpoints. The endpoint itself lives with the host:
/// it owns standard input and output and, in non-blocking mode, a background
/// reader thread feeding a queue that `read_nonblocking` decides over.
pub struct SimpleTerminalFactory;

impl SimpleTerminalFactory {
    pub fn new() -> (r: Self) {
        SimpleTerminalFactory
    }
}

} // verus!
