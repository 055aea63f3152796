//! Escalation policy: which automatic punishment a warning count calls for.

use vstd::prelude::*;

verus! {

/// Warning count at which a member is temporarily suspended.
pub const SUSPENSION_THRESHOLD: u64 = 3;

/// Warning count from which a member is permanently removed.
pub const REMOVAL_THRESHOLD: u64 = 5;

/// Length of the temporary suspension, in minutes.
pub const SUSPENSION_MINUTES: u64 = 10;

/// The punishment that follows from a member's warning count.
#[derive(Clone, Copy, Debug, PartialEq, Eq, Structural)]
pub enum EscalationDecision {
    /// Nothing happens.
    NoAction,
    /// The member may not communicate for `minutes` minutes.
    TemporarySuspension { minutes: u64 },
    /// The member is removed from the guild for good.
    PermanentRemoval,
}

/// The decision for a member who has `count` live warnings.
pub open spec fn decision_for(count: nat) -> EscalationDecision {
    if count == SUSPENSION_THRESHOLD {
        EscalationDecision::TemporarySuspension { minutes: SUSPENSION_MINUTES }
    } else if count >= REMOVAL_THRESHOLD {
        EscalationDecision::PermanentRemoval
    } else {
        EscalationDecision::NoAction
    }
}

/// Maps the warning count after an insert to the punishment it triggers.
pub fn evaluate(count: u64) -> (decision: EscalationDecision)
    ensures
        decision == decision_for(count as nat),
{
    if count == SUSPENSION_THRESHOLD {
        EscalationDecision::TemporarySuspension { minutes: SUSPENSION_MINUTES }
    } else if count >= REMOVAL_THRESHOLD {
        EscalationDecision::PermanentRemoval
    } else {
        EscalationDecision::NoAction
    }
}

} // verus!
