//! Error taxonomy shared by every stream backend.
use vstd::prelude::*;

verus! {

/// Declares `std::io::Error` as an opaque type, so that an
/// operating-system failure can be carried through [`StreamError`]
/// verbatim. Nothing is assumed about its values; the verified code
/// never constructs or inspects one.
#[verifier::external_type_specification]
#[verifier::external_body]
pub struct ExIoError(std::io::Error);

/// Errors reported by the stream backends.
#[derive(Debug)]
pub enum StreamError {
    /// A helper that required an exact byte count met the end of the
    /// stream instead. The primitive `read` never reports this; it
    /// returns a short count.
    UnexpectedEof,
    /// The underlying operating-system operation failed. Surfaced
    /// verbatim, never retried.
    Io(std::io::Error),
    /// A position or length could not be represented in the native
    /// offset width.
    TryFromInt,
}

} // verus!
