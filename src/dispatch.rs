//! Choosing the backend that serves a file handle.
//!
//! Where the ring backend may exist, opening a file first tries it. If that
//! fails because the ring is unsupported, the same open is made on the
//! thread-pool backend, and the handle keeps that backend for its whole
//! life. Any other failure of the ring attempt is surfaced, with no second
//! try. A handle built around a descriptor that is already open takes the
//! ring backend if the process-wide ring can be set up, and the thread-pool
//! backend otherwise.
use vstd::prelude::*;
use crate::error::ErrorKind;

verus! {

/// The backend that serves a handle.
#[derive(Clone, Copy, Debug, PartialEq, Eq, Structural)]
pub enum Backend {
    /// Operations are submitted to the process-wide ring.
    Uring,
    /// Blocking positioned system calls run on a worker thread.
    Pos,
}

/// What to do once the ring backend has tried to open a file.
#[derive(Clone, Copy, Debug, PartialEq, Eq, Structural)]
pub enum OpenStep {
    /// Keep the file the ring backend opened.
    UseRing,
    /// Make the same open on the thread-pool backend.
    FallBack,
    /// Return the ring backend's error.
    Surface,
}

/// The step that follows a ring attempt that ended with `outcome`.
pub open spec fn ring_step(outcome: Result<(), ErrorKind>) -> OpenStep {
    match outcome {
        Ok(()) => OpenStep::UseRing,
        Err(ErrorKind::Unsupported) => OpenStep::FallBack,
        Err(_) => OpenStep::Surface,
    }
}

/// The backend of a handle built around an already-open descriptor, when
/// setting up the process-wide ring gave `ring`.
pub open spec fn existing_backend(ring: Result<(), ErrorKind>) -> Backend {
    match ring {
        Ok(()) => Backend::Uring,
        Err(_) => Backend::Pos,
    }
}

/// Decides what follows a ring attempt to open a file.
pub fn after_ring_open(outcome: &Result<(), ErrorKind>) -> (r: OpenStep)
    ensures
        r == ring_step(*outcome),
{
    match outcome {
        Ok(()) => OpenStep::UseRing,
        Err(kind) => if kind.is_unsupported() {
            OpenStep::FallBack
        } else {
            OpenStep::Surface
        },
    }
}

/// The backend for a handle built around an already-open descriptor, given
/// what setting up the process-wide ring gave.
pub fn backend_for_existing(ring: &Result<(), ErrorKind>) -> (r: Backend)
    ensures
        r == existing_backend(*ring),
{
    match ring {
        Ok(()) => Backend::Uring,
        Err(_) => Backend::Pos,
    }
}

/// Where the ring is unsupported, every handle falls back to the
/// thread-pool backend: an open goes on with the thread-pool open, and a
/// handle built around an open descriptor takes the thread-pool backend.
/// Where the ring attempt fails in any other way, its error is surfaced.
pub proof fn lemma_unsupported_ring_falls_back(kind: ErrorKind)
    ensures
        ring_step(Err(ErrorKind::Unsupported)) == OpenStep::FallBack,
        existing_backend(Err(kind)) == Backend::Pos,
        kind != ErrorKind::Unsupported ==> ring_step(Err(kind)) == OpenStep::Surface,
        ring_step(Ok(())) == OpenStep::UseRing,
        existing_backend(Ok(())) == Backend::Uring,
{
}

} // verus!
