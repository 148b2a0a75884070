//! Stream that reads from a slice of bytes.
use vstd::prelude::*;

use crate::error::StreamError;
use crate::{read_at, read_len, ReadStream, SeekStream};

verus! {

/// Read-only stream over a borrowed, fixed-size byte range. The
/// length is fixed at construction and there is no write capability:
/// using this backend as writable is a type-level impossibility, not
/// a runtime error.
pub struct SliceStream<'a> {
    /// The borrowed bytes.
    pub buffer: &'a [u8],
    /// The cursor. It may sit past the end of the slice; reads from
    /// there yield nothing.
    pub position: usize,
}

impl<'a> SliceStream<'a> {
    /// Create a slice stream with the cursor at the start.
    pub fn new(buffer: &'a [u8]) -> (s: Self)
        ensures
            s.buffer@ == buffer@,
            s.position == 0,
    {
        Self { buffer, position: 0 }
    }
}

impl<'a> SeekStream for SliceStream<'a> {
    open spec fn data(&self) -> Seq<u8> {
        self.buffer@
    }

    open spec fn cursor(&self) -> nat {
        self.position as nat
    }

    fn seek(&mut self, to: u64) -> (r: Result<u64, StreamError>) {
        if to > usize::MAX as u64 {
            return Err(StreamError::TryFromInt);
        }
        self.position = to as usize;
        Ok(to)
    }

    fn position(&mut self) -> (r: Result<u64, StreamError>) {
        Ok(self.position as u64)
    }

    fn len(&mut self) -> (r: Result<u64, StreamError>) {
        Ok(self.buffer.len() as u64)
    }
}

impl<'a> ReadStream for SliceStream<'a> {
    fn read(&mut self, dest: &mut Vec<u8>) -> (r: Result<usize, StreamError>) {
        if self.position >= self.buffer.len() {
            proof {
                assert(old(dest)@.skip(0) =~= old(dest)@);
                assert(read_at(self.buffer@, self.position as nat, old(dest)@.len())
                    + old(dest)@.skip(0) =~= old(dest)@);
            }
            return Ok(0);
        }
        let remaining = self.buffer.len() - self.position;
        let n = if dest.len() <= remaining {
            dest.len()
        } else {
            remaining
        };
        let mut i: usize = 0;
        while i < n
            invariant
                i <= n,
                n as nat == read_len(self.buffer@.len(), self.position as nat, old(dest)@.len()),
                n as nat <= old(dest)@.len(),
                self.position + n <= self.buffer@.len(),
                self.position + n <= usize::MAX,
                dest@.len() == old(dest)@.len(),
                forall|k: int| 0 <= k < i ==> dest@[k] == self.buffer@[self.position + k],
                forall|k: int| i <= k < dest@.len() ==> dest@[k] == old(dest)@[k],
            decreases n - i,
        {
            let b: u8 = self.buffer[self.position + i];
            dest[i] = b;
            i += 1;
        }
        self.position = self.position + n;
        proof {
            assert(dest@ =~= read_at(old(self).buffer@, old(self).position as nat, old(dest)@.len())
                + old(dest)@.skip(n as int));
        }
        Ok(n)
    }
}

} // verus!
