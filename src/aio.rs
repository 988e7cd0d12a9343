//! The life of one kernel-queue AIO operation.
//!
//! A control block is submitted to the kernel on the first poll. Later polls
//! ask the event queue whether it is ready. When the queue reports it
//! complete, its result must be retrieved with a call distinct from
//! submission, exactly once: skipping that call leaks the kernel's record
//! of the operation. When the queue reports an error instead, the error is
//! surfaced as it is and nothing is retrieved.
use vstd::prelude::*;

verus! {

/// Where an operation stands.
#[derive(Clone, Copy, Debug, PartialEq, Eq, Structural)]
pub enum AioPhase {
    NotSubmitted,
    Submitted,
    Finished,
}

/// What the event queue says of the operation at a poll.
#[derive(Clone, Copy, Debug, PartialEq, Eq, Structural)]
pub enum Readiness {
    /// Nothing to report yet.
    Pending,
    /// The queue reported an error for the operation.
    Error,
    /// The operation has completed.
    Complete,
}

/// What the poller is to do next.
#[derive(Clone, Copy, Debug, PartialEq, Eq, Structural)]
pub enum AioAction {
    /// Submit the control block, then report the outcome with `submitted`.
    Submit,
    /// Report the operation as pending.
    Wait,
    /// Return the queue's error; the operation is over.
    SurfaceError,
    /// Retrieve the operation's result and return it; the operation is over.
    Retrieve,
}

/// One AIO operation, from before submission to its end.
pub struct AioOp {
    phase: AioPhase,
    retrievals: Ghost<nat>,
}

impl AioOp {
    /// Where the operation stands.
    pub closed spec fn phase(&self) -> AioPhase {
        self.phase
    }

    /// How many times its result has been retrieved.
    pub closed spec fn retrievals(&self) -> nat {
        self.retrievals@
    }

    /// Only a finished operation has had its result retrieved, and never
    /// more than once.
    pub open spec fn wf(&self) -> bool {
        &&& self.retrievals() <= 1
        &&& self.retrievals() == 1 ==> self.phase() == AioPhase::Finished
    }

    /// An operation whose control block is not submitted yet.
    pub fn new() -> (r: AioOp)
        ensures
            r.wf(),
            r.phase() == AioPhase::NotSubmitted,
            r.retrievals() == 0,
    {
        AioOp { phase: AioPhase::NotSubmitted, retrievals: Ghost(0) }
    }

    /// Where the operation stands.
    pub fn current_phase(&self) -> (r: AioPhase)
        ensures
            r == self.phase(),
    {
        self.phase
    }

    /// Decides a poll, given what the queue reports. An error is surfaced
    /// at once, in any phase. Otherwise a control block that is not
    /// submitted yet is submitted, and a submitted one waits until the
    /// queue reports it complete, and then has its result retrieved.
    pub fn poll(&mut self, readiness: Readiness) -> (r: AioAction)
        requires
            old(self).wf(),
            old(self).phase() != AioPhase::Finished,
        ensures
            final(self).wf(),
            final(self).retrievals() == if r == AioAction::Retrieve {
                1nat
            } else {
                0nat
            },
            readiness == Readiness::Error ==> r == AioAction::SurfaceError && final(self).phase()
                == AioPhase::Finished,
            readiness != Readiness::Error && old(self).phase() == AioPhase::NotSubmitted ==> r
                == AioAction::Submit && final(self).phase() == AioPhase::NotSubmitted,
            readiness == Readiness::Pending && old(self).phase() == AioPhase::Submitted ==> r
                == AioAction::Wait && final(self).phase() == AioPhase::Submitted,
            readiness == Readiness::Complete && old(self).phase() == AioPhase::Submitted ==> r
                == AioAction::Retrieve && final(self).phase() == AioPhase::Finished,
    {
        match readiness {
            Readiness::Error => {
                self.phase = AioPhase::Finished;
                AioAction::SurfaceError
            },
            _ => match self.phase {
                AioPhase::NotSubmitted => AioAction::Submit,
                _ => match readiness {
                    Readiness::Complete => {
                        self.phase = AioPhase::Finished;
                        self.retrievals = Ghost(self.retrievals@ + 1);
                        AioAction::Retrieve
                    },
                    _ => AioAction::Wait,
                },
            },
        }
    }

    /// Records the outcome of a submission: `Err(code)` is the OS error
    /// code. A failed submission ends the operation and its code is
    /// returned, to be surfaced; a successful one leaves it pending.
    pub fn submitted(&mut self, outcome: Result<(), i32>) -> (r: Option<i32>)
        requires
            old(self).wf(),
            old(self).phase() == AioPhase::NotSubmitted,
        ensures
            final(self).wf(),
            final(self).retrievals() == 0,
            outcome is Ok ==> r is None && final(self).phase() == AioPhase::Submitted,
            outcome matches Err(code) ==> r == Some(code) && final(self).phase()
                == AioPhase::Finished,
    {
        match outcome {
            Ok(()) => {
                self.phase = AioPhase::Submitted;
                None
            },
            Err(code) => {
                self.phase = AioPhase::Finished;
                Some(code)
            },
        }
    }
}

} // verus!
