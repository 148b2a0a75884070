//! A uniform, seekable byte-stream abstraction.
//!
//! Callers read and write bytes at arbitrary positions without knowing
//! whether the underlying storage is a file, an in-memory buffer, or a
//! borrowed slice. Every backend satisfies the same capability traits,
//! so code written against [`SeekStream`], [`ReadStream`] and
//! [`WriteStream`] is backend-agnostic.
pub mod error;
pub mod file;
pub mod memory;
pub mod slice;

use vstd::prelude::*;

use crate::error::StreamError;

verus! {

/// How many bytes a read returns: a stream of `len` bytes, a cursor at
/// `pos` and a destination with room for `cap` bytes yield
/// `min(cap, len - pos)` bytes, or none at all once the cursor sits at
/// or past the end.
pub open spec fn read_len(len: nat, pos: nat, cap: nat) -> nat {
    if pos >= len {
        0
    } else if cap <= len - pos {
        cap
    } else {
        (len - pos) as nat
    }
}

/// The bytes a read returns: the slice of `data` starting at `pos`
/// holding `read_len(data.len(), pos, cap)` bytes.
pub open spec fn read_at(data: Seq<u8>, pos: nat, cap: nat) -> Seq<u8> {
    if pos >= data.len() {
        Seq::empty()
    } else {
        data.subrange(pos as int, (pos + read_len(data.len(), pos, cap)) as int)
    }
}

/// The contents of a stream after writing `bytes` at position `pos`
/// into `data`: existing bytes in the written range are overwritten,
/// the buffer grows just enough to hold the write, and a gap between
/// the old end and `pos` is filled with zeroes. Writing nothing
/// changes nothing, wherever the cursor sits.
pub open spec fn write_at(data: Seq<u8>, pos: nat, bytes: Seq<u8>) -> Seq<u8> {
    if bytes.len() == 0 {
        data
    } else {
        Seq::new(
            if data.len() >= pos + bytes.len() {
                data.len()
            } else {
                pos + bytes.len()
            },
            |i: int|
                if pos <= i < pos + bytes.len() {
                    bytes[i - pos]
                } else if i < data.len() {
                    data[i]
                } else {
                    0u8
                },
        )
    }
}

/// Round-trip: writing a byte sequence at the start of any stream,
/// seeking back to the start and reading the same number of bytes
/// yields the written sequence exactly, whatever the stream held
/// before.
pub proof fn lemma_write_read_round_trip(data: Seq<u8>, bytes: Seq<u8>)
    ensures
        read_at(write_at(data, 0, bytes), 0, bytes.len()) == bytes,
{
    if bytes.len() == 0 {
        assert(read_at(data, 0, 0) =~= bytes);
    } else {
        assert(read_at(write_at(data, 0, bytes), 0, bytes.len()) =~= bytes);
    }
}

/// Length reflects the furthest write: after writing `bytes` at
/// `pos`, the stream holds at least `pos + bytes.len()` bytes, and
/// exactly that many when the write reaches past the previous end;
/// overwriting mid-stream leaves the length alone.
pub proof fn lemma_length_reflects_furthest_write(data: Seq<u8>, pos: nat, bytes: Seq<u8>)
    requires
        bytes.len() > 0,
    ensures
        write_at(data, pos, bytes).len() >= pos + bytes.len(),
        pos + bytes.len() > data.len() ==> write_at(data, pos, bytes).len() == pos + bytes.len(),
        pos + bytes.len() <= data.len() ==> write_at(data, pos, bytes).len() == data.len(),
{
}

/// Sparse writes zero-fill: writing at a position past the end keeps
/// every byte the stream held, fills the gap up to the written range
/// with zeroes, and places the written bytes after it.
pub proof fn lemma_sparse_write_zero_fills(data: Seq<u8>, pos: nat, bytes: Seq<u8>)
    requires
        pos > data.len(),
        bytes.len() > 0,
    ensures
        forall|i: int| 0 <= i < data.len() ==> write_at(data, pos, bytes)[i] == data[i],
        forall|i: int| data.len() <= i < pos ==> write_at(data, pos, bytes)[i] == 0u8,
        forall|i: int|
            pos <= i < pos + bytes.len() ==> write_at(data, pos, bytes)[i] == bytes[i - pos],
{
}

/// Short read at the end: a read whose destination is larger than
/// what remains returns exactly the remainder — possibly nothing —
/// rather than an error.
pub proof fn lemma_short_read_at_end(data: Seq<u8>, pos: nat, cap: nat)
    requires
        pos <= data.len(),
        cap > data.len() - pos,
    ensures
        read_len(data.len(), pos, cap) == data.len() - pos,
        read_len(data.len(), pos, cap) < cap,
        read_at(data, pos, cap) == data.skip(pos as int),
{
    assert(read_at(data, pos, cap) =~= data.skip(pos as int));
}

/// Trait for streams that can seek.
pub trait SeekStream {
    /// The bytes the stream currently holds.
    spec fn data(&self) -> Seq<u8>;

    /// The current cursor position.
    spec fn cursor(&self) -> nat;

    /// Seek to a position. Seeking anywhere, even past the end, is
    /// valid; the call fails only when `to` does not fit the native
    /// offset width.
    fn seek(&mut self, to: u64) -> (r: Result<u64, StreamError>)
        ensures
            to as nat <= usize::MAX as nat ==> {
                &&& r == Result::<u64, StreamError>::Ok(to)
                &&& final(self).cursor() == to as nat
                &&& final(self).data() == old(self).data()
            },
            to as nat > usize::MAX as nat ==> {
                &&& r matches Err(e) && e is TryFromInt
                &&& final(self).cursor() == old(self).cursor()
                &&& final(self).data() == old(self).data()
            },
    ;

    /// Get the current position.
    fn position(&mut self) -> (r: Result<u64, StreamError>)
        ensures
            final(self).data() == old(self).data(),
            final(self).cursor() == old(self).cursor(),
            r matches Ok(p) && p as nat == old(self).cursor(),
    ;

    /// Get the length of the stream.
    fn len(&mut self) -> (r: Result<u64, StreamError>)
        ensures
            final(self).data() == old(self).data(),
            final(self).cursor() == old(self).cursor(),
            r matches Ok(n) && n as nat == old(self).data().len(),
    ;
}

/// Trait for a readable stream.
pub trait ReadStream: SeekStream {
    /// Copy up to `dest.len()` bytes from the cursor onward into the
    /// front of `dest` and advance the cursor by the count returned.
    /// A cursor at or past the end yields zero bytes, which is not an
    /// error.
    fn read(&mut self, dest: &mut Vec<u8>) -> (r: Result<usize, StreamError>)
        ensures
            final(self).data() == old(self).data(),
            ({
                let n = read_len(old(self).data().len(), old(self).cursor(), old(dest)@.len());
                &&& r matches Ok(m) && m as nat == n
                &&& final(self).cursor() == old(self).cursor() + n
                &&& final(dest)@ == read_at(old(self).data(), old(self).cursor(), old(dest)@.len())
                    + old(dest)@.skip(n as int)
            }),
    ;
}

/// Trait for a writable stream.
pub trait WriteStream: SeekStream {
    /// Write all of `bytes` at the cursor, growing the stream and
    /// zero-filling any gap as [`write_at`] describes, and advance the
    /// cursor past the written range.
    fn write(&mut self, bytes: &[u8]) -> (r: Result<usize, StreamError>)
        requires
            old(self).cursor() + bytes@.len() <= usize::MAX as nat,
        ensures
            r matches Ok(m) && m as nat == bytes@.len(),
            final(self).data() == write_at(old(self).data(), old(self).cursor(), bytes@),
            final(self).cursor() == old(self).cursor() + bytes@.len(),
    ;

    /// Force any buffered bytes out. Backends with nothing buffered
    /// succeed without doing anything.
    fn flush(&mut self) -> (r: Result<(), StreamError>)
        ensures
            r is Ok,
            final(self).data() == old(self).data(),
            final(self).cursor() == old(self).cursor(),
    ;
}

/// A full stream: readable, writable and seekable.
pub trait Stream: ReadStream + WriteStream {}

/// The bytes between the cursor and the end of the stream.
pub open spec fn remaining(len: nat, pos: nat) -> nat {
    if pos >= len {
        0
    } else {
        (len - pos) as nat
    }
}

/// Fill all of `dest` from the stream, or report `UnexpectedEof`.
///
/// The primitive `read` returns a short count when the stream runs
/// out; this helper turns that short count into an error for callers
/// that need exact-fill semantics. The bytes of a short read are
/// still delivered and the cursor still advances past them.
pub fn read_exact<S: ReadStream>(s: &mut S, dest: &mut Vec<u8>) -> (r: Result<(), StreamError>)
    ensures
        final(s).data() == old(s).data(),
        ({
            let n = read_len(old(s).data().len(), old(s).cursor(), old(dest)@.len());
            &&& final(s).cursor() == old(s).cursor() + n
            &&& final(dest)@ == read_at(old(s).data(), old(s).cursor(), old(dest)@.len())
                + old(dest)@.skip(n as int)
            &&& (r is Ok <==> n == old(dest)@.len())
            &&& (r matches Err(e) ==> e is UnexpectedEof)
        }),
{
    let want = dest.len();
    match s.read(dest) {
        Ok(n) => {
            if n == want {
                Ok(())
            } else {
                Err(StreamError::UnexpectedEof)
            }
        },
        Err(e) => Err(e),
    }
}

/// Read every byte from the cursor to the end of the stream.
pub fn read_to_end<S: ReadStream>(s: &mut S) -> (r: Result<Vec<u8>, StreamError>)
    requires
        old(s).data().len() <= usize::MAX as nat,
    ensures
        final(s).data() == old(s).data(),
        ({
            let n = remaining(old(s).data().len(), old(s).cursor());
            &&& final(s).cursor() == old(s).cursor() + n
            &&& r matches Ok(v) && v@ == read_at(old(s).data(), old(s).cursor(), n)
        }),
{
    let total = match s.len() {
        Ok(l) => l,
        Err(e) => {
            return Err(e);
        },
    };
    let at = match s.position() {
        Ok(p) => p,
        Err(e) => {
            return Err(e);
        },
    };
    let count: usize = if at >= total {
        0
    } else {
        (total - at) as usize
    };
    let mut dest: Vec<u8> = Vec::new();
    let mut i: usize = 0;
    while i < count
        invariant
            i <= count,
            dest@.len() == i,
        decreases count - i,
    {
        dest.push(0u8);
        i += 1;
    }
    match s.read(&mut dest) {
        Ok(_) => {
            proof {
                let n = remaining(s.data().len(), old(s).cursor());
                assert(dest@ =~= read_at(old(s).data(), old(s).cursor(), n));
            }
            Ok(dest)
        },
        Err(e) => Err(e),
    }
}

/// Write all of `bytes` at the cursor.
///
/// Every backend here writes the whole buffer in one step, so this
/// differs from `write` only in discarding the count.
pub fn write_all<S: WriteStream>(s: &mut S, bytes: &[u8]) -> (r: Result<(), StreamError>)
    requires
        old(s).cursor() + bytes@.len() <= usize::MAX as nat,
    ensures
        r is Ok,
        final(s).data() == write_at(old(s).data(), old(s).cursor(), bytes@),
        final(s).cursor() == old(s).cursor() + bytes@.len(),
{
    match s.write(bytes) {
        Ok(_) => Ok(()),
        Err(e) => Err(e),
    }
}

} // verus!
