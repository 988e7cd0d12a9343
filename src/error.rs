//! Kinds of failure that the library tells apart.
use vstd::prelude::*;

verus! {

/// The kind of an I/O failure. The handle decides on `Unsupported` alone:
/// it marks a backend that this platform, kernel or file system cannot
/// serve. The other kinds are carried through unchanged.
#[derive(Clone, Copy, Debug, PartialEq, Eq, Structural)]
pub enum ErrorKind {
    NotFound,
    PermissionDenied,
    AlreadyExists,
    WouldBlock,
    InvalidInput,
    InvalidData,
    TimedOut,
    WriteZero,
    Interrupted,
    Unsupported,
    UnexpectedEof,
    OutOfMemory,
    Other,
}

impl ErrorKind {
    /// Whether this kind marks a backend that cannot be used here.
    pub fn is_unsupported(&self) -> (r: bool)
        ensures
            r <==> *self == ErrorKind::Unsupported,
    {
        match self {
            ErrorKind::Unsupported => true,
            _ => false,
        }
    }
}

} // verus!
