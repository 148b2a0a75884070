//! The control core of a file-backed stream.
//!
//! A file-backed stream alternates between a buffered-reader mode and
//! a buffered-writer mode, derived lazily from which operation was
//! last requested. The crux of its correctness is the transition
//! rule: entering read mode from write mode must first flush every
//! buffered write to the physical file and re-seek the fresh reader
//! to the current position, while entering write mode from read mode
//! discards the reader (nothing was buffered for writing) and opens a
//! writer at the current position.
//!
//! The physical file handle and the buffered reader and writer live
//! with the embedding application, which performs the I/O. This
//! module holds everything that can be decided without touching the
//! operating system: the mode, the cursor, the cached length, and a
//! ghost model of the logical file contents. Each operation is split
//! into the decision — which transition applies and what the
//! application must do to the physical file — and the bookkeeping
//! that records the outcome.
use vstd::prelude::*;

use crate::write_at;

verus! {

/// Which buffered handle is currently active: exactly one of the two,
/// never both.
#[derive(Clone, Copy, Debug, PartialEq, Eq, Structural)]
pub enum FileStreamMode {
    /// A buffered reader is bound to the current position.
    Read,
    /// A buffered writer is bound to the current position.
    Write,
}

/// What the application must do to the physical file before it may
/// read.
#[derive(Clone, Copy, Debug, PartialEq, Eq, Structural)]
pub enum ReadPrep {
    /// A reader is already in place; read directly.
    Ready,
    /// The stream was in write mode: flush the buffered writer to the
    /// physical file, then seek a fresh buffered reader to the
    /// carried position.
    FlushAndReposition(u64),
}

/// What the application must do to the physical file before it may
/// write.
#[derive(Clone, Copy, Debug, PartialEq, Eq, Structural)]
pub enum WritePrep {
    /// A writer is already in place; write directly.
    Ready,
    /// The stream was in read mode: discard the reader — no flush,
    /// nothing was buffered for writing — and open a fresh buffered
    /// writer at the carried position.
    OpenWriterAt(u64),
}

/// The verified state of a file-backed stream: the active mode, the
/// cursor, the cached length, and a ghost model of the logical file
/// contents (the bytes the file holds once every buffered write is
/// flushed).
///
/// The cached length is seeded from file metadata at construction and
/// kept in step with the writes recorded here; it is never re-derived
/// from metadata mid-session.
pub struct FileStream {
    /// The active mode.
    pub mode: FileStreamMode,
    /// The cursor. Seeking past the cached length is valid; the
    /// operating system reconciles it on the next write.
    pub position: u64,
    /// The cached length of the file.
    pub length: u64,
    /// The logical file contents.
    pub contents: Ghost<Seq<u8>>,
}

impl FileStream {
    /// The cached length mirrors the logical contents at every
    /// observable point.
    pub open spec fn inv(&self) -> bool {
        self.contents@.len() == self.length as nat
    }

    /// Start in read mode on a file of `initial_len` bytes, cursor at
    /// the start. The contents are whatever the file holds; only
    /// their length is known.
    pub fn new_read(initial_len: u64) -> (s: Self)
        ensures
            s.mode == FileStreamMode::Read,
            s.position == 0,
            s.length == initial_len,
            s.inv(),
    {
        proof {
            let w = Seq::<u8>::new(initial_len as nat, |i: int| 0u8);
            assert(w.len() == initial_len as nat);
            assert(exists|c: Seq<u8>| c.len() == initial_len as nat);
        }
        Self {
            mode: FileStreamMode::Read,
            position: 0,
            length: initial_len,
            contents: Ghost(choose|c: Seq<u8>| c.len() == initial_len as nat),
        }
    }

    /// Start in write mode on a file of `initial_len` bytes, cursor
    /// at the start. Opening never truncates: the contents are kept.
    pub fn new_write(initial_len: u64) -> (s: Self)
        ensures
            s.mode == FileStreamMode::Write,
            s.position == 0,
            s.length == initial_len,
            s.inv(),
    {
        proof {
            let w = Seq::<u8>::new(initial_len as nat, |i: int| 0u8);
            assert(w.len() == initial_len as nat);
            assert(exists|c: Seq<u8>| c.len() == initial_len as nat);
        }
        Self {
            mode: FileStreamMode::Write,
            position: 0,
            length: initial_len,
            contents: Ghost(choose|c: Seq<u8>| c.len() == initial_len as nat),
        }
    }

    /// Record a seek that the active buffered handle carried out: the
    /// cursor moves, the mode and the contents do not.
    pub fn record_seek(&mut self, to: u64)
        ensures
            final(self).position == to,
            final(self).mode == old(self).mode,
            final(self).length == old(self).length,
            final(self).contents == old(self).contents,
    {
        self.position = to;
    }

    /// Decide the transition into read mode. Coming from write mode
    /// the application must flush the writer and seek a fresh reader
    /// to the current position — otherwise buffered writes would be
    /// invisible to the read, or the reader would sit at the wrong
    /// offset. Coming from read mode there is nothing to do.
    pub fn prepare_read(&mut self) -> (a: ReadPrep)
        ensures
            final(self).mode == FileStreamMode::Read,
            final(self).position == old(self).position,
            final(self).length == old(self).length,
            final(self).contents == old(self).contents,
            a == (if old(self).mode is Write {
                ReadPrep::FlushAndReposition(old(self).position)
            } else {
                ReadPrep::Ready
            }),
    {
        match self.mode {
            FileStreamMode::Write => {
                self.mode = FileStreamMode::Read;
                ReadPrep::FlushAndReposition(self.position)
            },
            FileStreamMode::Read => ReadPrep::Ready,
        }
    }

    /// Record a read of `n` bytes carried out by the reader. The
    /// operating system hands back at most the bytes that remain
    /// before the end of the file, and nothing at all once the cursor
    /// sits at or past the end.
    pub fn record_read(&mut self, n: u64)
        requires
            old(self).mode == FileStreamMode::Read,
            n == 0 || old(self).position as nat + n as nat <= old(self).length as nat,
        ensures
            final(self).position == old(self).position + n,
            final(self).mode == old(self).mode,
            final(self).length == old(self).length,
            final(self).contents == old(self).contents,
    {
        self.position = self.position + n;
    }

    /// Decide the transition into write mode. Coming from read mode
    /// the reader is discarded without a flush — it buffered nothing
    /// that needs writing — and a fresh writer opens at the current
    /// position. Coming from write mode there is nothing to do.
    pub fn prepare_write(&mut self) -> (a: WritePrep)
        ensures
            final(self).mode == FileStreamMode::Write,
            final(self).position == old(self).position,
            final(self).length == old(self).length,
            final(self).contents == old(self).contents,
            a == (if old(self).mode is Read {
                WritePrep::OpenWriterAt(old(self).position)
            } else {
                WritePrep::Ready
            }),
    {
        match self.mode {
            FileStreamMode::Read => {
                self.mode = FileStreamMode::Write;
                WritePrep::OpenWriterAt(self.position)
            },
            FileStreamMode::Write => WritePrep::Ready,
        }
    }

    /// Record a write of `bytes` handed to the writer. The cursor
    /// advances past the written range and the cached length grows
    /// exactly when the write reaches past the previous end;
    /// overwriting mid-file leaves the length alone.
    pub fn record_write(&mut self, bytes: &[u8])
        requires
            old(self).inv(),
            old(self).mode == FileStreamMode::Write,
            old(self).position as nat + bytes@.len() <= u64::MAX as nat,
        ensures
            final(self).inv(),
            final(self).mode == old(self).mode,
            final(self).position as nat == old(self).position as nat + bytes@.len(),
            final(self).contents@ == write_at(
                old(self).contents@,
                old(self).position as nat,
                bytes@,
            ),
            bytes@.len() > 0 ==> final(self).length as nat == (
                if old(self).position as nat + bytes@.len() > old(self).length as nat {
                    old(self).position as nat + bytes@.len()
                } else {
                    old(self).length as nat
                }),
            bytes@.len() == 0 ==> final(self).length == old(self).length,
    {
        let n_bytes = bytes.len();
        if n_bytes > 0 {
            let end = self.position + n_bytes as u64;
            self.contents = Ghost(write_at(self.contents@, self.position as nat, bytes@));
            if end > self.length {
                self.length = end;
            }
            self.position = end;
        }
    }

    /// Whether a flush has anything to do: only write mode holds
    /// buffered bytes; in read mode a flush is a successful no-op.
    pub fn must_flush(&self) -> (b: bool)
        ensures
            b == (self.mode is Write),
    {
        match self.mode {
            FileStreamMode::Write => true,
            FileStreamMode::Read => false,
        }
    }

    /// The current cursor position.
    pub fn position(&self) -> (p: u64)
        ensures
            p == self.position,
    {
        self.position
    }

    /// The cached length of the file.
    pub fn len(&self) -> (n: u64)
        ensures
            n == self.length,
    {
        self.length
    }

    /// The active mode.
    pub fn current_mode(&self) -> (m: FileStreamMode)
        ensures
            m == self.mode,
    {
        self.mode
    }
}

} // verus!
