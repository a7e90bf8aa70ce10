//! Big-endian primitive readers over an in-memory byte stream.
//!
//! The containers this crate parses are handed in as whole byte buffers; a
//! `ByteStream` is such a buffer together with a cursor.  Reading past the
//! end is an `EndOfStream` error and leaves the cursor where it was.

use vstd::prelude::*;

verus! {

/// Error of the primitive readers: the stream ended before the requested
/// number of bytes.
#[derive(Clone, Copy, Debug, PartialEq, Eq, Structural)]
pub enum ReadError {
    EndOfStream,
}

/// A byte buffer with a read cursor.
pub struct ByteStream {
    pub data: Vec<u8>,
    pub pos: usize,
}

/// The unsigned big-endian value of the two bytes of `b` at `i`.
pub open spec fn be16(b: Seq<u8>, i: int) -> int {
    b[i] * 0x100 + b[i + 1]
}

/// The unsigned big-endian value of the four bytes of `b` at `i`.
pub open spec fn be32(b: Seq<u8>, i: int) -> int {
    be16(b, i) * 0x10000 + be16(b, i + 2)
}

/// The unsigned big-endian value of the eight bytes of `b` at `i`.
pub open spec fn be64(b: Seq<u8>, i: int) -> int {
    be32(b, i) * 0x100000000 + be32(b, i + 4)
}

impl ByteStream {
    /// The cursor never points past the end of the buffer.
    pub open spec fn wf(self) -> bool {
        self.pos <= self.data.len()
    }

    /// A stream over `data` with the cursor at the start.
    pub fn new(data: Vec<u8>) -> (s: ByteStream)
        ensures
            s.wf(),
            s.data == data,
            s.pos == 0,
    {
        ByteStream { data, pos: 0 }
    }

    /// How many bytes remain before the end of the buffer.
    pub open spec fn remaining(self) -> int {
        self.data.len() - self.pos
    }

    /// Advances the cursor by `n` bytes, stopping at the end of the buffer;
    /// a later read then fails there, as a read after an overlong seek does.
    pub fn skip(&mut self, n: u64)
        requires
            old(self).wf(),
        ensures
            final(self).wf(),
            final(self).data == old(self).data,
            n <= old(self).remaining() ==> final(self).pos == old(self).pos + n,
            n > old(self).remaining() ==> final(self).pos == final(self).data.len(),
    {
        let rem: usize = self.data.len() - self.pos;
        if n <= rem as u64 {
            self.pos = self.pos + n as usize;
        } else {
            self.pos = self.data.len();
        }
    }
}

/// Reads one byte.
pub fn read8(s: &mut ByteStream) -> (r: Result<u8, ReadError>)
    requires
        old(s).wf(),
    ensures
        final(s).wf(),
        final(s).data == old(s).data,
        old(s).remaining() >= 1 ==> r == Ok::<u8, ReadError>(old(s).data[old(s).pos as int])
            && final(s).pos == old(s).pos + 1,
        old(s).remaining() < 1 ==> r == Err::<u8, ReadError>(ReadError::EndOfStream)
            && final(s).pos == old(s).pos,
{
    if s.pos < s.data.len() {
        let b = s.data[s.pos];
        s.pos = s.pos + 1;
        Ok(b)
    } else {
        Err(ReadError::EndOfStream)
    }
}

/// Reads a big-endian 16-bit integer.
pub fn read16(s: &mut ByteStream) -> (r: Result<u16, ReadError>)
    requires
        old(s).wf(),
    ensures
        final(s).wf(),
        final(s).data == old(s).data,
        old(s).remaining() >= 2 ==> r == Ok::<u16, ReadError>(be16(old(s).data@, old(s).pos as int) as u16)
            && final(s).pos == old(s).pos + 2,
        old(s).remaining() < 2 ==> r == Err::<u16, ReadError>(ReadError::EndOfStream)
            && final(s).pos == old(s).pos,
{
    if s.data.len() - s.pos >= 2 {
        let b0 = s.data[s.pos];
        let b1 = s.data[s.pos + 1];
        s.pos = s.pos + 2;
        Ok(b0 as u16 * 0x100 + b1 as u16)
    } else {
        Err(ReadError::EndOfStream)
    }
}

/// Reads a big-endian 32-bit integer.
pub fn read32(s: &mut ByteStream) -> (r: Result<u32, ReadError>)
    requires
        old(s).wf(),
    ensures
        final(s).wf(),
        final(s).data == old(s).data,
        old(s).remaining() >= 4 ==> r == Ok::<u32, ReadError>(be32(old(s).data@, old(s).pos as int) as u32)
            && final(s).pos == old(s).pos + 4,
        old(s).remaining() < 4 ==> r == Err::<u32, ReadError>(ReadError::EndOfStream)
            && final(s).pos == old(s).pos,
{
    if s.data.len() - s.pos >= 4 {
        let b0 = s.data[s.pos];
        let b1 = s.data[s.pos + 1];
        let b2 = s.data[s.pos + 2];
        let b3 = s.data[s.pos + 3];
        s.pos = s.pos + 4;
        Ok(b0 as u32 * 0x1000000 + b1 as u32 * 0x10000 + b2 as u32 * 0x100 + b3 as u32)
    } else {
        Err(ReadError::EndOfStream)
    }
}

/// Reads a big-endian 64-bit integer.
pub fn read64(s: &mut ByteStream) -> (r: Result<u64, ReadError>)
    requires
        old(s).wf(),
    ensures
        final(s).wf(),
        final(s).data == old(s).data,
        old(s).remaining() >= 8 ==> r == Ok::<u64, ReadError>(be64(old(s).data@, old(s).pos as int) as u64)
            && final(s).pos == old(s).pos + 8,
        old(s).remaining() < 8 ==> r == Err::<u64, ReadError>(ReadError::EndOfStream)
            && final(s).pos == old(s).pos,
{
    if s.data.len() - s.pos >= 8 {
        let b0 = s.data[s.pos];
        let b1 = s.data[s.pos + 1];
        let b2 = s.data[s.pos + 2];
        let b3 = s.data[s.pos + 3];
        let b4 = s.data[s.pos + 4];
        let b5 = s.data[s.pos + 5];
        let b6 = s.data[s.pos + 6];
        let b7 = s.data[s.pos + 7];
        s.pos = s.pos + 8;
        Ok(b0 as u64 * 0x100000000000000 + b1 as u64 * 0x1000000000000 + b2 as u64 * 0x10000000000
            + b3 as u64 * 0x100000000 + b4 as u64 * 0x1000000 + b5 as u64 * 0x10000
            + b6 as u64 * 0x100 + b7 as u64)
    } else {
        Err(ReadError::EndOfStream)
    }
}

} // verus!
