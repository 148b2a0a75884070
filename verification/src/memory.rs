//! Stream that reads from and writes to an owned buffer.
use vstd::prelude::*;

use crate::error::StreamError;
use crate::{read_at, read_len, write_at, ReadStream, SeekStream, Stream, WriteStream};

verus! {

/// Stream that wraps an owned buffer. The buffer grows only to
/// accommodate a write that reaches past its current end; a write that
/// starts beyond the end zero-fills the gap first.
pub struct MemoryStream {
    /// The owned bytes.
    pub buffer: Vec<u8>,
    /// The cursor. It may sit past the end of the buffer; reads from
    /// there yield nothing and writes there grow the buffer.
    pub position: usize,
}

impl MemoryStream {
    /// Create an empty memory stream with the cursor at the start.
    pub fn new() -> (s: Self)
        ensures
            s.buffer@ == Seq::<u8>::empty(),
            s.position == 0,
    {
        Self { buffer: Vec::new(), position: 0 }
    }
}

impl Default for MemoryStream {
    fn default() -> (s: Self)
        ensures
            s.buffer@ == Seq::<u8>::empty(),
            s.position == 0,
    {
        Self::new()
    }
}

impl SeekStream for MemoryStream {
    open spec fn data(&self) -> Seq<u8> {
        self.buffer@
    }

    open spec fn cursor(&self) -> nat {
        self.position as nat
    }

    fn seek(&mut self, to: u64) -> (r: Result<u64, StreamError>) {
        if to > usize::MAX as u64 {
            return Err(StreamError::TryFromInt);
        }
        self.position = to as usize;
        Ok(to)
    }

    fn position(&mut self) -> (r: Result<u64, StreamError>) {
        Ok(self.position as u64)
    }

    fn len(&mut self) -> (r: Result<u64, StreamError>) {
        Ok(self.buffer.len() as u64)
    }
}

impl ReadStream for MemoryStream {
    fn read(&mut self, dest: &mut Vec<u8>) -> (r: Result<usize, StreamError>) {
        if self.position >= self.buffer.len() {
            proof {
                assert(old(dest)@.skip(0) =~= old(dest)@);
                assert(read_at(self.buffer@, self.position as nat, old(dest)@.len())
                    + old(dest)@.skip(0) =~= old(dest)@);
            }
            return Ok(0);
        }
        let remaining = self.buffer.len() - self.position;
        let n = if dest.len() <= remaining {
            dest.len()
        } else {
            remaining
        };
        let mut i: usize = 0;
        while i < n
            invariant
                i <= n,
                n as nat == read_len(self.buffer@.len(), self.position as nat, old(dest)@.len()),
                n as nat <= old(dest)@.len(),
                self.position + n <= self.buffer@.len(),
                self.position + n <= usize::MAX,
                dest@.len() == old(dest)@.len(),
                forall|k: int| 0 <= k < i ==> dest@[k] == self.buffer@[self.position + k],
                forall|k: int| i <= k < dest@.len() ==> dest@[k] == old(dest)@[k],
            decreases n - i,
        {
            let b: u8 = self.buffer[self.position + i];
            dest[i] = b;
            i += 1;
        }
        self.position = self.position + n;
        proof {
            assert(dest@ =~= read_at(old(self).buffer@, old(self).position as nat, old(dest)@.len())
                + old(dest)@.skip(n as int));
        }
        Ok(n)
    }
}

impl WriteStream for MemoryStream {
    fn write(&mut self, bytes: &[u8]) -> (r: Result<usize, StreamError>) {
        let n = bytes.len();
        if n == 0 {
            return Ok(0);
        }
        let pos = self.position;
        let end = pos + n;
        proof {
            assert(self.buffer@.subrange(0, old(self).buffer@.len() as int) =~= old(self).buffer@);
        }
        while self.buffer.len() < end
            invariant
                n == bytes@.len(),
                n > 0,
                pos == old(self).position,
                end == pos + n,
                pos + n <= usize::MAX,
                self.position == old(self).position,
                old(self).buffer@.len() <= self.buffer@.len(),
                self.buffer@.len() <= (if old(self).buffer@.len() >= end {
                    old(self).buffer@.len() as int
                } else {
                    end as int
                }),
                self.buffer@.subrange(0, old(self).buffer@.len() as int) == old(self).buffer@,
                forall|k: int|
                    old(self).buffer@.len() <= k < self.buffer@.len() ==> self.buffer@[k] == 0u8,
            decreases end - self.buffer.len(),
        {
            self.buffer.push(0u8);
        }
        let mut i: usize = 0;
        while i < n
            invariant
                i <= n,
                n == bytes@.len(),
                n > 0,
                pos == old(self).position,
                end == pos + n,
                pos + n <= usize::MAX,
                self.position == old(self).position,
                self.buffer@.len() == (if old(self).buffer@.len() >= end {
                    old(self).buffer@.len() as int
                } else {
                    end as int
                }),
                forall|k: int| pos <= k < pos + i ==> self.buffer@[k] == bytes@[k - pos],
                forall|k: int|
                    0 <= k < self.buffer@.len() && !(pos <= k < pos + i)
                        ==> self.buffer@[k] == (if k < old(self).buffer@.len() {
                        old(self).buffer@[k]
                    } else {
                        0u8
                    }),
            decreases n - i,
        {
            let b: u8 = bytes[i];
            self.buffer[pos + i] = b;
            i += 1;
        }
        self.position = end;
        proof {
            assert(self.buffer@ =~= write_at(old(self).buffer@, pos as nat, bytes@));
        }
        Ok(n)
    }

    fn flush(&mut self) -> (r: Result<(), StreamError>) {
        Ok(())
    }
}

impl Stream for MemoryStream {
}

impl From<Vec<u8>> for MemoryStream {
    /// Move an owned buffer into a memory stream; the cursor starts at
    /// the front.
    fn from(buffer: Vec<u8>) -> (s: MemoryStream) {
        MemoryStream { buffer, position: 0 }
    }
}

impl vstd::std_specs::convert::FromSpecImpl<Vec<u8>> for MemoryStream {
    open spec fn obeys_from_spec() -> bool {
        true
    }

    open spec fn from_spec(buffer: Vec<u8>) -> MemoryStream {
        MemoryStream { buffer, position: 0 }
    }
}

impl From<MemoryStream> for Vec<u8> {
    /// Move the owned buffer back out of a memory stream.
    fn from(val: MemoryStream) -> (buffer: Vec<u8>) {
        val.buffer
    }
}

impl vstd::std_specs::convert::FromSpecImpl<MemoryStream> for Vec<u8> {
    open spec fn obeys_from_spec() -> bool {
        true
    }

    open spec fn from_spec(val: MemoryStream) -> Vec<u8> {
        val.buffer
    }
}

} // verus!
