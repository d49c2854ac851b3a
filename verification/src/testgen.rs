//! The synthetic test-pattern endpoint: produces configurable byte patterns
//! through the ordinary read interface. Each pattern kind is produced by a
//! strategy; the generator tracks the position inside one pattern iteration
//! and an optional bound on the number of iterations.

use vstd::arithmetic::div_mod::{lemma_add_mod_noop_right, lemma_multiply_divide_lt};
use vstd::prelude::*;
use vstd::string::StrSliceExecFns;
use vstd::utf8::encode_utf8;

use crate::sock::{SimpleSock, SockBlockCtl, SockError, SockInfo};
use crate::strconv;

verus! {

/// Test pattern type selection.
#[derive(Debug)]
pub enum TestGenTypes {
    /// Constant data production.
    Static {
        /// The byte every position carries.
        data: u8,
        /// Length of one iteration of the pattern.
        size: usize,
    },
    /// A running byte counter, restarting from zero each iteration.
    Sequence {
        /// Length of one iteration of the pattern.
        size: usize,
    },
    /// Constant data whose value goes up by one each iteration.
    Increment {
        /// Initial value.
        data: u8,
        /// Length of one iteration of the pattern.
        size: usize,
    },
    /// Data blocks: each block byte repeated over one block length.
    Blocks {
        /// The block values.
        blocks: Vec<u8>,
        /// Length of one block.
        block_size: usize,
    },
    /// The UTF-8 bytes of a text string.
    TextString {
        /// String to produce.
        data: String,
    },
    /// Bytes given as a hex string.
    HexString {
        /// The decoded bytes.
        data: Vec<u8>,
    },
    /// Bytes loaded from a file by the host; the generator itself receives
    /// the loaded contents.
    File {
        /// Path to the file with the pattern.
        path: String,
    },
}

/// Length of one pattern iteration, in bytes.
pub open spec fn spec_pattern_size(pat: TestGenTypes, file_data: Seq<u8>) -> int {
    match pat {
        TestGenTypes::Static { size, .. } => size as int,
        TestGenTypes::Sequence { size } => size as int,
        TestGenTypes::Increment { size, .. } => size as int,
        TestGenTypes::Blocks { blocks, block_size } => (block_size as int) * blocks@.len(),
        TestGenTypes::TextString { data } => encode_utf8(data@).len() as int,
        TestGenTypes::HexString { data } => data@.len() as int,
        TestGenTypes::File { .. } => file_data.len() as int,
    }
}

/// The byte a strategy produces at offset `i` of a read that starts at
/// pattern position `pos` with running state `last`.
pub open spec fn pattern_byte(
    pat: TestGenTypes,
    file_data: Seq<u8>,
    last: u8,
    pos: int,
    i: int,
) -> u8 {
    match pat {
        TestGenTypes::Static { data, .. } => data,
        TestGenTypes::Sequence { .. } => ((last + i) % 256) as u8,
        TestGenTypes::Increment { .. } => last,
        TestGenTypes::Blocks { blocks, block_size } => blocks@[(pos + i) / (block_size as int)],
        TestGenTypes::TextString { data } => encode_utf8(data@)[pos + i],
        TestGenTypes::HexString { data } => data@[pos + i],
        TestGenTypes::File { .. } => file_data[pos + i],
    }
}

/// The running state after a read of `n` bytes.
pub open spec fn state_after_read(pat: TestGenTypes, last: u8, n: int) -> u8 {
    match pat {
        TestGenTypes::Sequence { .. } => ((last + n) % 256) as u8,
        _ => last,
    }
}

/// The running state a strategy starts the next pattern iteration with.
pub open spec fn state_after_reset(pat: TestGenTypes, last: u8) -> u8 {
    match pat {
        TestGenTypes::Sequence { .. } => 0u8,
        TestGenTypes::Increment { .. } => ((last + 1) % 256) as u8,
        _ => last,
    }
}

/// The running state a freshly constructed generator starts with.
pub open spec fn initial_state(pat: TestGenTypes) -> u8 {
    match pat {
        TestGenTypes::Increment { data, .. } => data,
        _ => 0u8,
    }
}

/// Consecutive reads never skip pattern data: the byte at offset `n + i` of a read
/// at position `pos` is the byte at offset `i` of a read at position
/// `pos + n` with the updated state.
proof fn lemma_pattern_shift(pat: TestGenTypes, file_data: Seq<u8>, last: u8, pos: int, n: int, i: int)
    requires
        0 <= pos,
        0 <= n,
        0 <= i,
    ensures
        pattern_byte(pat, file_data, last, pos, n + i) == pattern_byte(
            pat,
            file_data,
            state_after_read(pat, last, n),
            pos + n,
            i,
        ),
{
    match pat {
        TestGenTypes::Sequence { .. } => {
            lemma_add_mod_noop_right(i, last + n, 256);
        },
        _ => {},
    }
}

/// A strategy produces the bytes of one pattern kind.
pub trait TestPatternStrategy: Sized {
    /// Fills the buffer prefix with `real_size` pattern bytes taken at
    /// pattern position `pos`, updating the running state. A strategy handed
    /// a pattern kind it does not produce reports invalid data and changes
    /// nothing.
    fn read(
        &self,
        pat: &TestGenTypes,
        file_data: &Vec<u8>,
        st: &mut u8,
        buf: &mut Vec<u8>,
        real_size: usize,
        pos: usize,
    ) -> (r: Result<usize, SockError>)
        requires
            real_size <= old(buf).len(),
            pos + real_size <= usize::MAX,
            pos + real_size <= spec_pattern_size(*pat, file_data@),
        ensures
            final(buf).len() == old(buf).len(),
            match r {
                Ok(n) => {
                    &&& n == real_size
                    &&& *final(st) == state_after_read(*pat, *old(st), real_size as int)
                    &&& (forall|i: int|
                        0 <= i < real_size ==> final(buf)@[i] == pattern_byte(
                            *pat,
                            file_data@,
                            *old(st),
                            pos as int,
                            i,
                        ))
                    &&& (forall|i: int|
                        real_size <= i < final(buf)@.len() ==> final(buf)@[i] == old(buf)@[i])
                },
                Err(e) => {
                    &&& e == SockError::InvalidData
                    &&& *final(st) == *old(st)
                    &&& final(buf)@ == old(buf)@
                },
            },
    ;

    /// Resets the running state at the end of a pattern iteration.
    fn reset_priv(&self, st: &mut u8);
}

struct StaticStrategy;

struct SequenceStrategy;

struct IncrementStrategy;

struct BlockStrategy;

struct TextStringStrategy;

struct HexStringStrategy;

struct FileStrategy;

impl StaticStrategy {
    /// Fills the buffer prefix with `real_size` pattern bytes taken at
    /// pattern position `pos`, updating the running state.
    fn produce(
        &self,
        pat: &TestGenTypes,
        file_data: &Vec<u8>,
        st: &mut u8,
        buf: &mut Vec<u8>,
        real_size: usize,
        pos: usize,
    ) -> (r: Result<usize, SockError>)
        requires
            pat is Static,
            real_size <= old(buf).len(),
            pos + real_size <= usize::MAX,
            pos + real_size <= spec_pattern_size(*pat, file_data@),
        ensures
            final(buf).len() == old(buf).len(),
            r == Ok::<usize, SockError>(real_size),
            *final(st) == state_after_read(*pat, *old(st), real_size as int),
            forall|i: int|
                0 <= i < real_size ==> final(buf)@[i] == pattern_byte(
                    *pat,
                    file_data@,
                    *old(st),
                    pos as int,
                    i,
                ),
            forall|i: int| real_size <= i < final(buf)@.len() ==> final(buf)@[i] == old(buf)@[i],
    {
        if let TestGenTypes::Static { data, .. } = pat {
            let v = *data;
            let mut i: usize = 0;
            while i < real_size
                invariant
                    i <= real_size <= buf@.len(),
                    buf@.len() == old(buf)@.len(),
                    v == pat->Static_data,
                    forall|j: int| 0 <= j < i ==> buf@[j] == v,
                    forall|j: int| i <= j < buf@.len() ==> buf@[j] == old(buf)@[j],
                decreases real_size - i,
            {
                buf[i] = v;
                i = i + 1;
            }
            Ok(real_size)
        } else {
            Err(SockError::InvalidData)
        }
    }

    /// Resets the running state at the end of a pattern iteration.
    fn reset(&self, st: &mut u8)
        ensures
            *final(st) == *old(st),
    {
    }
}

impl TestPatternStrategy for StaticStrategy {
    fn read(
        &self,
        pat: &TestGenTypes,
        file_data: &Vec<u8>,
        st: &mut u8,
        buf: &mut Vec<u8>,
        real_size: usize,
        pos: usize,
    ) -> (r: Result<usize, SockError>)
        ensures
            (r is Ok) == (pat is Static),
    {
        if let TestGenTypes::Static { .. } = pat {
            self.produce(pat, file_data, st, buf, real_size, pos)
        } else {
            Err(SockError::InvalidData)
        }
    }

    fn reset_priv(&self, st: &mut u8) {
        self.reset(st)
    }
}

impl SequenceStrategy {
    /// Fills the buffer prefix with `real_size` pattern bytes taken at
    /// pattern position `pos`, updating the running state.
    fn produce(
        &self,
        pat: &TestGenTypes,
        file_data: &Vec<u8>,
        st: &mut u8,
        buf: &mut Vec<u8>,
        real_size: usize,
        pos: usize,
    ) -> (r: Result<usize, SockError>)
        requires
            pat is Sequence,
            real_size <= old(buf).len(),
            pos + real_size <= usize::MAX,
            pos + real_size <= spec_pattern_size(*pat, file_data@),
        ensures
            final(buf).len() == old(buf).len(),
            r == Ok::<usize, SockError>(real_size),
            *final(st) == state_after_read(*pat, *old(st), real_size as int),
            forall|i: int|
                0 <= i < real_size ==> final(buf)@[i] == pattern_byte(
                    *pat,
                    file_data@,
                    *old(st),
                    pos as int,
                    i,
                ),
            forall|i: int| real_size <= i < final(buf)@.len() ==> final(buf)@[i] == old(buf)@[i],
    {
        if let TestGenTypes::Sequence { .. } = pat {
            let base = *st;
            let mut i: usize = 0;
            while i < real_size
                invariant
                    i <= real_size <= buf@.len(),
                    buf@.len() == old(buf)@.len(),
                    base == *old(st),
                    forall|j: int| 0 <= j < i ==> buf@[j] == ((base + j) % 256) as u8,
                    forall|j: int| i <= j < buf@.len() ==> buf@[j] == old(buf)@[j],
                decreases real_size - i,
            {
                let m = i % 256;
                let b = ((base as usize + m) % 256) as u8;
                proof {
                    lemma_add_mod_noop_right(base as int, i as int, 256);
                }
                buf[i] = b;
                i = i + 1;
            }
            let m = real_size % 256;
            let updated = ((base as usize + m) % 256) as u8;
            proof {
                lemma_add_mod_noop_right(base as int, real_size as int, 256);
            }
            *st = updated;
            Ok(real_size)
        } else {
            Err(SockError::InvalidData)
        }
    }

    /// Resets the running state at the end of a pattern iteration.
    fn reset(&self, st: &mut u8)
        ensures
            *final(st) == 0u8,
    {
        *st = 0;
    }
}

impl TestPatternStrategy for SequenceStrategy {
    fn read(
        &self,
        pat: &TestGenTypes,
        file_data: &Vec<u8>,
        st: &mut u8,
        buf: &mut Vec<u8>,
        real_size: usize,
        pos: usize,
    ) -> (r: Result<usize, SockError>)
        ensures
            (r is Ok) == (pat is Sequence),
    {
        if let TestGenTypes::Sequence { .. } = pat {
            self.produce(pat, file_data, st, buf, real_size, pos)
        } else {
            Err(SockError::InvalidData)
        }
    }

    fn reset_priv(&self, st: &mut u8) {
        self.reset(st)
    }
}

impl IncrementStrategy {
    /// Fills the buffer prefix with `real_size` pattern bytes taken at
    /// pattern position `pos`, updating the running state.
    fn produce(
        &self,
        pat: &TestGenTypes,
        file_data: &Vec<u8>,
        st: &mut u8,
        buf: &mut Vec<u8>,
        real_size: usize,
        pos: usize,
    ) -> (r: Result<usize, SockError>)
        requires
            pat is Increment,
            real_size <= old(buf).len(),
            pos + real_size <= usize::MAX,
            pos + real_size <= spec_pattern_size(*pat, file_data@),
        ensures
            final(buf).len() == old(buf).len(),
            r == Ok::<usize, SockError>(real_size),
            *final(st) == state_after_read(*pat, *old(st), real_size as int),
            forall|i: int|
                0 <= i < real_size ==> final(buf)@[i] == pattern_byte(
                    *pat,
                    file_data@,
                    *old(st),
                    pos as int,
                    i,
                ),
            forall|i: int| real_size <= i < final(buf)@.len() ==> final(buf)@[i] == old(buf)@[i],
    {
        if let TestGenTypes::Increment { .. } = pat {
            let v = *st;
            let mut i: usize = 0;
            while i < real_size
                invariant
                    i <= real_size <= buf@.len(),
                    buf@.len() == old(buf)@.len(),
                    v == *old(st),
                    *st == *old(st),
                    forall|j: int| 0 <= j < i ==> buf@[j] == v,
                    forall|j: int| i <= j < buf@.len() ==> buf@[j] == old(buf)@[j],
                decreases real_size - i,
            {
                buf[i] = v;
                i = i + 1;
            }
            Ok(real_size)
        } else {
            Err(SockError::InvalidData)
        }
    }

    /// Resets the running state at the end of a pattern iteration.
    fn reset(&self, st: &mut u8)
        ensures
            *final(st) == ((*old(st) + 1) % 256) as u8,
    {
        *st = ((*st as u16 + 1) % 256) as u8;
    }
}

impl TestPatternStrategy for IncrementStrategy {
    fn read(
        &self,
        pat: &TestGenTypes,
        file_data: &Vec<u8>,
        st: &mut u8,
        buf: &mut Vec<u8>,
        real_size: usize,
        pos: usize,
    ) -> (r: Result<usize, SockError>)
        ensures
            (r is Ok) == (pat is Increment),
    {
        if let TestGenTypes::Increment { .. } = pat {
            self.produce(pat, file_data, st, buf, real_size, pos)
        } else {
            Err(SockError::InvalidData)
        }
    }

    fn reset_priv(&self, st: &mut u8) {
        self.reset(st)
    }
}

impl BlockStrategy {
    /// Fills the buffer prefix with `real_size` pattern bytes taken at
    /// pattern position `pos`, updating the running state.
    fn produce(
        &self,
        pat: &TestGenTypes,
        file_data: &Vec<u8>,
        st: &mut u8,
        buf: &mut Vec<u8>,
        real_size: usize,
        pos: usize,
    ) -> (r: Result<usize, SockError>)
        requires
            pat is Blocks,
            real_size <= old(buf).len(),
            pos + real_size <= usize::MAX,
            pos + real_size <= spec_pattern_size(*pat, file_data@),
        ensures
            final(buf).len() == old(buf).len(),
            r == Ok::<usize, SockError>(real_size),
            *final(st) == state_after_read(*pat, *old(st), real_size as int),
            forall|i: int|
                0 <= i < real_size ==> final(buf)@[i] == pattern_byte(
                    *pat,
                    file_data@,
                    *old(st),
                    pos as int,
                    i,
                ),
            forall|i: int| real_size <= i < final(buf)@.len() ==> final(buf)@[i] == old(buf)@[i],
    {
        if let TestGenTypes::Blocks { blocks, block_size } = pat {
            let bs = *block_size;
            let mut i: usize = 0;
            while i < real_size
                invariant
                    i <= real_size <= buf@.len(),
                    buf@.len() == old(buf)@.len(),
                    pos + real_size <= usize::MAX,
                    pos + real_size <= (bs as int) * blocks@.len(),
                    bs == pat->Blocks_block_size,
                    blocks@ == pat->Blocks_blocks@,
                    forall|j: int|
                        0 <= j < i ==> buf@[j] == blocks@[(pos + j) / (bs as int)],
                    forall|j: int| i <= j < buf@.len() ==> buf@[j] == old(buf)@[j],
                decreases real_size - i,
            {
                proof {
                    if bs == 0 {
                        assert((bs as int) * blocks@.len() == 0);
                    }
                    lemma_multiply_divide_lt(pos + i, bs as int, blocks@.len() as int);
                }
                let idx = (pos + i) / bs;
                buf[i] = blocks[idx];
                i = i + 1;
            }
            Ok(real_size)
        } else {
            Err(SockError::InvalidData)
        }
    }

    /// Resets the running state at the end of a pattern iteration.
    fn reset(&self, st: &mut u8)
        ensures
            *final(st) == *old(st),
    {
    }
}

impl TestPatternStrategy for BlockStrategy {
    fn read(
        &self,
        pat: &TestGenTypes,
        file_data: &Vec<u8>,
        st: &mut u8,
        buf: &mut Vec<u8>,
        real_size: usize,
        pos: usize,
    ) -> (r: Result<usize, SockError>)
        ensures
            (r is Ok) == (pat is Blocks),
    {
        if let TestGenTypes::Blocks { .. } = pat {
            self.produce(pat, file_data, st, buf, real_size, pos)
        } else {
            Err(SockError::InvalidData)
        }
    }

    fn reset_priv(&self, st: &mut u8) {
        self.reset(st)
    }
}

impl TextStringStrategy {
    /// Fills the buffer prefix with `real_size` pattern bytes taken at
    /// pattern position `pos`, updating the running state.
    fn produce(
        &self,
        pat: &TestGenTypes,
        file_data: &Vec<u8>,
        st: &mut u8,
        buf: &mut Vec<u8>,
        real_size: usize,
        pos: usize,
    ) -> (r: Result<usize, SockError>)
        requires
            pat is TextString,
            real_size <= old(buf).len(),
            pos + real_size <= usize::MAX,
            pos + real_size <= spec_pattern_size(*pat, file_data@),
        ensures
            final(buf).len() == old(buf).len(),
            r == Ok::<usize, SockError>(real_size),
            *final(st) == state_after_read(*pat, *old(st), real_size as int),
            forall|i: int|
                0 <= i < real_size ==> final(buf)@[i] == pattern_byte(
                    *pat,
                    file_data@,
                    *old(st),
                    pos as int,
                    i,
                ),
            forall|i: int| real_size <= i < final(buf)@.len() ==> final(buf)@[i] == old(buf)@[i],
    {
        if let TestGenTypes::TextString { data } = pat {
            let bytes = data.as_str().as_bytes_vec();
            let mut i: usize = 0;
            while i < real_size
                invariant
                    i <= real_size <= buf@.len(),
                    buf@.len() == old(buf)@.len(),
                    pos + real_size <= usize::MAX,
                    pos + real_size <= bytes@.len(),
                    bytes@ == encode_utf8(pat->TextString_data@),
                    forall|j: int| 0 <= j < i ==> buf@[j] == bytes@[pos + j],
                    forall|j: int| i <= j < buf@.len() ==> buf@[j] == old(buf)@[j],
                decreases real_size - i,
            {
                buf[i] = bytes[pos + i];
                i = i + 1;
            }
            Ok(real_size)
        } else {
            Err(SockError::InvalidData)
        }
    }

    /// Resets the running state at the end of a pattern iteration.
    fn reset(&self, st: &mut u8)
        ensures
            *final(st) == *old(st),
    {
    }
}

impl TestPatternStrategy for TextStringStrategy {
    fn read(
        &self,
        pat: &TestGenTypes,
        file_data: &Vec<u8>,
        st: &mut u8,
        buf: &mut Vec<u8>,
        real_size: usize,
        pos: usize,
    ) -> (r: Result<usize, SockError>)
        ensures
            (r is Ok) == (pat is TextString),
    {
        if let TestGenTypes::TextString { .. } = pat {
            self.produce(pat, file_data, st, buf, real_size, pos)
        } else {
            Err(SockError::InvalidData)
        }
    }

    fn reset_priv(&self, st: &mut u8) {
        self.reset(st)
    }
}

impl HexStringStrategy {
    /// Fills the buffer prefix with `real_size` pattern bytes taken at
    /// pattern position `pos`, updating the running state.
    fn produce(
        &self,
        pat: &TestGenTypes,
        file_data: &Vec<u8>,
        st: &mut u8,
        buf: &mut Vec<u8>,
        real_size: usize,
        pos: usize,
    ) -> (r: Result<usize, SockError>)
        requires
            pat is HexString,
            real_size <= old(buf).len(),
            pos + real_size <= usize::MAX,
            pos + real_size <= spec_pattern_size(*pat, file_data@),
        ensures
            final(buf).len() == old(buf).len(),
            r == Ok::<usize, SockError>(real_size),
            *final(st) == state_after_read(*pat, *old(st), real_size as int),
            forall|i: int|
                0 <= i < real_size ==> final(buf)@[i] == pattern_byte(
                    *pat,
                    file_data@,
                    *old(st),
                    pos as int,
                    i,
                ),
            forall|i: int| real_size <= i < final(buf)@.len() ==> final(buf)@[i] == old(buf)@[i],
    {
        if let TestGenTypes::HexString { data } = pat {
            let mut i: usize = 0;
            while i < real_size
                invariant
                    i <= real_size <= buf@.len(),
                    buf@.len() == old(buf)@.len(),
                    pos + real_size <= usize::MAX,
                    pos + real_size <= data@.len(),
                    data@ == pat->HexString_data@,
                    forall|j: int| 0 <= j < i ==> buf@[j] == data@[pos + j],
                    forall|j: int| i <= j < buf@.len() ==> buf@[j] == old(buf)@[j],
                decreases real_size - i,
            {
                buf[i] = data[pos + i];
                i = i + 1;
            }
            Ok(real_size)
        } else {
            Err(SockError::InvalidData)
        }
    }

    /// Resets the running state at the end of a pattern iteration.
    fn reset(&self, st: &mut u8)
        ensures
            *final(st) == *old(st),
    {
    }
}

impl TestPatternStrategy for HexStringStrategy {
    fn read(
        &self,
        pat: &TestGenTypes,
        file_data: &Vec<u8>,
        st: &mut u8,
        buf: &mut Vec<u8>,
        real_size: usize,
        pos: usize,
    ) -> (r: Result<usize, SockError>)
        ensures
            (r is Ok) == (pat is HexString),
    {
        if let TestGenTypes::HexString { .. } = pat {
            self.produce(pat, file_data, st, buf, real_size, pos)
        } else {
            Err(SockError::InvalidData)
        }
    }

    fn reset_priv(&self, st: &mut u8) {
        self.reset(st)
    }
}

impl FileStrategy {
    /// Fills the buffer prefix with `real_size` pattern bytes taken at
    /// pattern position `pos`, updating the running state.
    fn produce(
        &self,
        pat: &TestGenTypes,
        file_data: &Vec<u8>,
        st: &mut u8,
        buf: &mut Vec<u8>,
        real_size: usize,
        pos: usize,
    ) -> (r: Result<usize, SockError>)
        requires
            pat is File,
            real_size <= old(buf).len(),
            pos + real_size <= usize::MAX,
            pos + real_size <= spec_pattern_size(*pat, file_data@),
        ensures
            final(buf).len() == old(buf).len(),
            r == Ok::<usize, SockError>(real_size),
            *final(st) == state_after_read(*pat, *old(st), real_size as int),
            forall|i: int|
                0 <= i < real_size ==> final(buf)@[i] == pattern_byte(
                    *pat,
                    file_data@,
                    *old(st),
                    pos as int,
                    i,
                ),
            forall|i: int| real_size <= i < final(buf)@.len() ==> final(buf)@[i] == old(buf)@[i],
    {
        if let TestGenTypes::File { .. } = pat {
            let mut i: usize = 0;
            while i < real_size
                invariant
                    i <= real_size <= buf@.len(),
                    buf@.len() == old(buf)@.len(),
                    pos + real_size <= usize::MAX,
                    pos + real_size <= file_data@.len(),
                    forall|j: int| 0 <= j < i ==> buf@[j] == file_data@[pos + j],
                    forall|j: int| i <= j < buf@.len() ==> buf@[j] == old(buf)@[j],
                decreases real_size - i,
            {
                buf[i] = file_data[pos + i];
                i = i + 1;
            }
            Ok(real_size)
        } else {
            Err(SockError::InvalidData)
        }
    }

    /// Resets the running state at the end of a pattern iteration.
    fn reset(&self, st: &mut u8)
        ensures
            *final(st) == *old(st),
    {
    }
}

impl TestPatternStrategy for FileStrategy {
    fn read(
        &self,
        pat: &TestGenTypes,
        file_data: &Vec<u8>,
        st: &mut u8,
        buf: &mut Vec<u8>,
        real_size: usize,
        pos: usize,
    ) -> (r: Result<usize, SockError>)
        ensures
            (r is Ok) == (pat is File),
    {
        if let TestGenTypes::File { .. } = pat {
            self.produce(pat, file_data, st, buf, real_size, pos)
        } else {
            Err(SockError::InvalidData)
        }
    }

    fn reset_priv(&self, st: &mut u8) {
        self.reset(st)
    }
}

/// Private running state of the generator.
pub struct TestGenPrivate {
    /// Current position inside the pattern iteration.
    pub pos: usize,
    /// Length of one pattern iteration, in bytes.
    pub pattern_size: usize,
    /// Optional bound on the number of iterations.
    pub max_iter: Option<u64>,
    /// Completed iterations, counted only when a bound is set.
    pub curr_iter: u64,
    /// The running state of the strategy (the counter of the sequence and
    /// increment patterns).
    pub last: u8,
}

/// Test pattern generator configuration.
#[derive(Debug)]
pub struct TestGenConfig {
    /// Test pattern type selection.
    pub pat: TestGenTypes,
    /// Data production cycle in microseconds. Pacing is the host's concern;
    /// the generator records the value for it.
    pub cycle: u64,
    /// Optional bound on the number of pattern iterations.
    pub iter_num: Option<u64>,
}

/// The data size one read yields, from the requested transaction size, the
/// pattern size and the current position: the rest of the pattern, capped by
/// the request.
pub fn get_curr_size(pattern_size: usize, req_size: usize, pos: usize) -> (r: usize)
    requires
        pos <= pattern_size,
    ensures
        r as int == if pattern_size - pos < req_size {
            pattern_size - pos
        } else {
            req_size as int
        },
        r <= req_size,
        pos + r <= pattern_size,
{
    if pattern_size - pos < req_size {
        pattern_size - pos
    } else {
        req_size
    }
}

/// Moves the position after a read: a short read means the pattern was
/// completely handed out, so the position returns to the start; otherwise it
/// advances by the requested size.
pub fn update_pos(p: &mut TestGenPrivate, req: usize, ret: usize)
    requires
        ret < req || old(p).pos + req <= usize::MAX,
    ensures
        final(p).pos as int == if ret < req {
            0int
        } else {
            old(p).pos + req
        },
        final(p).pattern_size == old(p).pattern_size,
        final(p).max_iter == old(p).max_iter,
        final(p).curr_iter == old(p).curr_iter,
        final(p).last == old(p).last,
{
    if ret < req {
        p.pos = 0
    } else {
        p.pos = p.pos + req
    }
}

/// The pattern bytes a freshly constructed generator has pending.
pub open spec fn initial_avail(pat: TestGenTypes, file_data: Seq<u8>) -> Seq<u8> {
    Seq::new(
        spec_pattern_size(pat, file_data) as nat,
        |i: int| pattern_byte(pat, file_data, initial_state(pat), 0, i),
    )
}

/// The test pattern generator endpoint. Reads produce the configured
/// pattern; writes are accepted and dropped; blocking mode is recorded and
/// otherwise meaningless. Once the configured iteration bound is exhausted
/// the generator is done and reads yield nothing forever.
pub struct SimpleTestGen {
    id: u32,
    config: TestGenConfig,
    p: TestGenPrivate,
    file_data: Vec<u8>,
    blocking: bool,
    opened: bool,
    done: bool,
    taken_g: Ghost<Seq<u8>>,
    sent_g: Ghost<Seq<u8>>,
}

/// Constructs a generator from a parsed configuration. A file pattern
/// reads from `file_data`, which the host loads; the other patterns
/// ignore it. Rejected exactly when the pattern size overflows the
/// address space.
pub fn testgen_from_config(config: TestGenConfig, file_data: Vec<u8>, id: u32) -> (r: Result<
    SimpleTestGen,
    SockError,
>)
    ensures
        match r {
            Ok(s) => {
                &&& s.inv()
                &&& !s.is_open()
                &&& !s.is_blocking()
                &&& !s.steady()
                &&& s.taken() == Seq::<u8>::empty()
                &&& s.sent() == Seq::<u8>::empty()
                &&& s.id_spec() == id
                &&& s.avail() == initial_avail(config.pat, file_data@)
                &&& spec_pattern_size(config.pat, file_data@) <= usize::MAX
            },
            Err(e) => {
                &&& e == SockError::InvalidConfig
                &&& spec_pattern_size(config.pat, file_data@) > usize::MAX
            },
        },
{
    let pattern_size: usize = match &config.pat {
        TestGenTypes::Static { size, .. } => *size,
        TestGenTypes::Sequence { size } => *size,
        TestGenTypes::Increment { size, .. } => *size,
        TestGenTypes::Blocks { blocks, block_size } => {
            match block_size.checked_mul(blocks.len()) {
                Some(v) => v,
                None => {
                    return Err(SockError::InvalidConfig);
                },
            }
        },
        TestGenTypes::TextString { data } => data.as_str().as_bytes_vec().len(),
        TestGenTypes::HexString { data } => data.len(),
        TestGenTypes::File { .. } => file_data.len(),
    };
    let last: u8 = match &config.pat {
        TestGenTypes::Increment { data, .. } => *data,
        _ => 0,
    };
    let max_iter = config.iter_num;
    let s = SimpleTestGen {
        id,
        config,
        p: TestGenPrivate { pos: 0, pattern_size, max_iter, curr_iter: 0, last },
        file_data,
        blocking: false,
        opened: false,
        done: false,
        taken_g: Ghost(Seq::empty()),
        sent_g: Ghost(Seq::empty()),
    };
    proof {
        assert(s.avail() =~= initial_avail(s.config.pat, s.file_data@));
    }
    Ok(s)
}


impl SimpleSock for SimpleTestGen {
    closed spec fn avail(&self) -> Seq<u8> {
        if self.done {
            Seq::empty()
        } else {
            Seq::new(
                (self.p.pattern_size - self.p.pos) as nat,
                |i: int|
                    pattern_byte(
                        self.config.pat,
                        self.file_data@,
                        self.p.last,
                        self.p.pos as int,
                        i,
                    ),
            )
        }
    }

    closed spec fn taken(&self) -> Seq<u8> {
        self.taken_g@
    }

    closed spec fn sent(&self) -> Seq<u8> {
        self.sent_g@
    }

    closed spec fn steady(&self) -> bool {
        self.done
    }

    closed spec fn is_blocking(&self) -> bool {
        self.blocking
    }

    closed spec fn is_open(&self) -> bool {
        self.opened
    }

    closed spec fn inv(&self) -> bool {
        &&& self.p.pos <= self.p.pattern_size
        &&& self.p.pattern_size as int == spec_pattern_size(self.config.pat, self.file_data@)
    }

    fn open(&mut self) -> (r: Result<(), SockError>)
        ensures
            r is Ok,
    {
        self.opened = true;
        proof {
            assert(final(self).avail() =~= old(self).avail());
        }
        Ok(())
    }

    fn close(&mut self) {
        self.opened = false;
    }

    fn read(&mut self, data: &mut Vec<u8>, sz: usize) -> (r: Result<usize, SockError>)
        ensures
            r is Ok,
    {
        if self.done {
            proof {
                assert(old(self).avail().take(0) + old(data)@.skip(0) =~= old(data)@);
                assert(final(self).taken() =~= old(self).taken() + old(self).avail().take(0));
                assert(old(self).avail().skip(0) =~= Seq::<u8>::empty());
                assert(old(self).avail().skip(0).is_prefix_of(final(self).avail()));
                assert(final(self).avail() =~= old(self).avail().skip(0));
            }
            return Ok(0);
        }
        let ghost old_avail = old(self).avail();
        let real_size = get_curr_size(self.p.pattern_size, sz, self.p.pos);
        let pos = self.p.pos;
        let res: Result<usize, SockError> = if real_size == 0 {
            proof {
                assert(state_after_read(self.config.pat, self.p.last, 0) == self.p.last);
            }
            Ok(0)
        } else {
            match &self.config.pat {
                TestGenTypes::Static { .. } => StaticStrategy.produce(
                    &self.config.pat,
                    &self.file_data,
                    &mut self.p.last,
                    data,
                    real_size,
                    pos,
                ),
                TestGenTypes::Sequence { .. } => SequenceStrategy.produce(
                    &self.config.pat,
                    &self.file_data,
                    &mut self.p.last,
                    data,
                    real_size,
                    pos,
                ),
                TestGenTypes::Increment { .. } => IncrementStrategy.produce(
                    &self.config.pat,
                    &self.file_data,
                    &mut self.p.last,
                    data,
                    real_size,
                    pos,
                ),
                TestGenTypes::Blocks { .. } => BlockStrategy.produce(
                    &self.config.pat,
                    &self.file_data,
                    &mut self.p.last,
                    data,
                    real_size,
                    pos,
                ),
                TestGenTypes::TextString { .. } => TextStringStrategy.produce(
                    &self.config.pat,
                    &self.file_data,
                    &mut self.p.last,
                    data,
                    real_size,
                    pos,
                ),
                TestGenTypes::HexString { .. } => HexStringStrategy.produce(
                    &self.config.pat,
                    &self.file_data,
                    &mut self.p.last,
                    data,
                    real_size,
                    pos,
                ),
                TestGenTypes::File { .. } => FileStrategy.produce(
                    &self.config.pat,
                    &self.file_data,
                    &mut self.p.last,
                    data,
                    real_size,
                    pos,
                ),
            }
        };
        proof {
            assert(res == Ok::<usize, SockError>(real_size));
            assert(self.p.last == state_after_read(self.config.pat, old(self).p.last,
                real_size as int));
            assert(forall|i: int|
                0 <= i < real_size ==> data@[i] == pattern_byte(
                    self.config.pat,
                    self.file_data@,
                    old(self).p.last,
                    pos as int,
                    i,
                ));
            assert(data@ =~= old_avail.take(real_size as int) + old(data)@.skip(real_size as int));
        }
        update_pos(&mut self.p, sz, real_size);
        if real_size < sz {
            // End of a pattern iteration: count it against the optional
            // bound, and let the strategy reset its running state.
            if let Some(m) = self.p.max_iter {
                if self.p.curr_iter < u64::MAX {
                    self.p.curr_iter = self.p.curr_iter + 1;
                }
                if self.p.curr_iter > m {
                    self.done = true;
                }
            }
            match &self.config.pat {
                TestGenTypes::Static { .. } => StaticStrategy.reset(&mut self.p.last),
                TestGenTypes::Sequence { .. } => SequenceStrategy.reset(&mut self.p.last),
                TestGenTypes::Increment { .. } => IncrementStrategy.reset(&mut self.p.last),
                TestGenTypes::Blocks { .. } => BlockStrategy.reset(&mut self.p.last),
                TestGenTypes::TextString { .. } => TextStringStrategy.reset(&mut self.p.last),
                TestGenTypes::HexString { .. } => HexStringStrategy.reset(&mut self.p.last),
                TestGenTypes::File { .. } => FileStrategy.reset(&mut self.p.last),
            }
        }
        self.taken_g = Ghost(self.taken_g@ + old_avail.take(real_size as int));
        proof {
            assert(final(self).taken() =~= old(self).taken() + old_avail.take(real_size as int));
            if real_size < sz {
                assert(real_size == old_avail.len());
                assert(old_avail.skip(real_size as int) =~= Seq::<u8>::empty());
                assert(old_avail.skip(real_size as int).is_prefix_of(final(self).avail()));
            } else {
                let new_avail = final(self).avail();
                assert forall|i: int| 0 <= i < old_avail.len() - real_size implies new_avail[i]
                    == old_avail[real_size + i] by {
                    lemma_pattern_shift(
                        self.config.pat,
                        self.file_data@,
                        old(self).p.last,
                        pos as int,
                        real_size as int,
                        i,
                    );
                }
                assert(old_avail.skip(real_size as int) =~= new_avail);
                assert(old_avail.skip(real_size as int).is_prefix_of(new_avail));
            }
        }
        Ok(real_size)
    }

    fn write(&mut self, data: &[u8], sz: usize) -> (r: Result<(), SockError>)
        ensures
            r is Ok,
    {
        // The generator has no peer: accepted bytes are dropped.
        self.sent_g = Ghost(self.sent_g@ + data@.take(sz as int));
        proof {
            assert(final(self).avail() =~= old(self).avail());
        }
        Ok(())
    }
}

impl SockBlockCtl for SimpleTestGen {
    fn set_block(&mut self, is_blocking: bool) -> (r: Result<(), SockError>)
        ensures
            r is Ok,
    {
        // The generator has no blocking concept: the request is recorded.
        self.blocking = is_blocking;
        Ok(())
    }
}

impl SockInfo for SimpleTestGen {
    open spec fn type_name_spec(&self) -> Seq<char> {
        "test-gen"@
    }

    closed spec fn id_spec(&self) -> u32 {
        self.id
    }

    closed spec fn description_spec(&self) -> Seq<char> {
        "test-gen"@ + strconv::dec_rep(self.id as nat)
    }

    fn get_type_name(&self) -> (r: &str) {
        "test-gen"
    }

    fn get_id(&self) -> (r: u32) {
        self.id
    }

    fn get_description(&self) -> (r: String) {
        strconv::default_description("test-gen", self.id)
    }
}


} // verus!
