//! Why a moderation command was not carried out.

use vstd::prelude::*;
use vstd::string::*;

verus! {

/// Why a moderation command was not carried out.
#[derive(Clone, Copy, Debug, PartialEq, Eq, Structural)]
pub enum ModerationError {
    /// The input is malformed: the member is missing, or the reason is missing
    /// or empty.
    Validation,
    /// The ledger could not take or give the records.
    StoreUnavailable,
}

/// What the moderator is told of an error.
pub open spec fn error_text(error: ModerationError) -> Seq<char> {
    match error {
        ModerationError::Validation =>
            "Rejected: the command needs a member and, to warn, a reason that is not empty."@,
        ModerationError::StoreUnavailable =>
            "The warning ledger is unavailable; nothing was recorded."@,
    }
}

impl ModerationError {
    /// What the moderator is told of the error.
    pub fn message(&self) -> (text: String)
        ensures
            text@ == error_text(*self),
    {
        match self {
            ModerationError::Validation => String::from_str(
                "Rejected: the command needs a member and, to warn, a reason that is not empty.",
            ),
            ModerationError::StoreUnavailable => String::from_str(
                "The warning ledger is unavailable; nothing was recorded.",
            ),
        }
    }
}

} // verus!
