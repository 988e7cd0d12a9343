//! The process-wide submission/completion ring, as a slot that is filled once.
//!
//! The ring is created lazily, on first use, and at most once per process.
//! If creation fails, whatever the OS error, the ring counts as unsupported
//! here: every attempt to use it, the first and all later ones, fails with
//! `Unsupported`, which lets a handle fall back to another backend, and
//! creation is never tried again.
use vstd::prelude::*;
use crate::error::ErrorKind;

verus! {

/// The state of the process-wide ring.
#[derive(Clone, Copy, Debug, PartialEq, Eq, Structural)]
pub enum RingSlot {
    /// No attempt to create the ring has been made.
    Unset,
    /// The ring exists.
    Ready,
    /// Creating the ring failed.
    Failed,
}

impl RingSlot {
    /// The slot after an attempt to create the ring, which succeeded when
    /// `created` holds.
    pub open spec fn after_record(self, created: bool) -> RingSlot {
        if self == RingSlot::Unset {
            if created {
                RingSlot::Ready
            } else {
                RingSlot::Failed
            }
        } else {
            self
        }
    }

    /// The slot after attempts that ended with each of `outcomes`, in order.
    pub open spec fn after_records(self, outcomes: Seq<bool>) -> RingSlot
        decreases outcomes.len(),
    {
        if outcomes.len() == 0 {
            self
        } else {
            self.after_record(outcomes[0]).after_records(outcomes.drop_first())
        }
    }

    /// What using the ring gives in this state.
    pub open spec fn use_result(self) -> Result<(), ErrorKind> {
        match self {
            RingSlot::Failed => Err(ErrorKind::Unsupported),
            _ => Ok(()),
        }
    }

    /// A slot before the first use.
    pub fn new() -> (r: RingSlot)
        ensures
            r == RingSlot::Unset,
    {
        RingSlot::Unset
    }

    /// Whether the ring is still to be created.
    pub fn needs_creation(&self) -> (r: bool)
        ensures
            r <==> *self == RingSlot::Unset,
    {
        match self {
            RingSlot::Unset => true,
            _ => false,
        }
    }

    /// Records whether the one attempt to create the ring succeeded. A slot
    /// that is already settled keeps what it holds.
    pub fn record(&mut self, created: bool)
        ensures
            *final(self) == old(self).after_record(created),
    {
        if let RingSlot::Unset = self {
            *self = if created {
                RingSlot::Ready
            } else {
                RingSlot::Failed
            };
        }
    }

    /// What using the ring gives, once an attempt has been recorded: success,
    /// or, if creating it failed, an `Unsupported` error.
    pub fn status(&self) -> (r: Result<(), ErrorKind>)
        requires
            *self != RingSlot::Unset,
        ensures
            r == self.use_result(),
    {
        match self {
            RingSlot::Failed => Err(ErrorKind::Unsupported),
            _ => Ok(()),
        }
    }
}

/// The ring is created at most once, and its first outcome is final: once
/// an attempt has been recorded, the slot asks for no further creation, any
/// number of later outcomes leave it as it is, and every use succeeds if the
/// first attempt did and fails with `Unsupported` otherwise.
pub proof fn lemma_first_outcome_is_permanent(first: bool, later: Seq<bool>)
    ensures
        RingSlot::Unset.after_record(first) != RingSlot::Unset,
        RingSlot::Unset.after_record(first).after_records(later) == RingSlot::Unset.after_record(
            first,
        ),
        first ==> RingSlot::Unset.after_record(first).after_records(later).use_result() is Ok,
        !first ==> RingSlot::Unset.after_record(first).after_records(later).use_result() == Err::<
            (),
            ErrorKind,
        >(ErrorKind::Unsupported),
    decreases later.len(),
{
    if later.len() > 0 {
        lemma_first_outcome_is_permanent(first, later.drop_first());
    }
}

} // verus!
