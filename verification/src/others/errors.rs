//! Why an operation was refused.

use vstd::prelude::*;

verus! {

/// Refusals of poll creation and of whitelist changes.
#[derive(Clone, Copy, Debug, PartialEq, Eq, Structural)]
pub enum PollError {
    /// The description is shorter than 16 bytes.
    DescUnderflow,
    /// A poll with this id was created before.
    AlreadyInitialized,
    /// The requested start lies in the past.
    StartTimeExpired,
    /// The duration is shorter than 24 hours.
    DurationUnderflow,
    /// The caller is not the poll's administrator.
    Unauthorized,
    /// A whitelist was given for a poll that everybody may vote on.
    PollIsPublic,
    /// The whitelist would hold more than 16 identities.
    WhitelistThresholdOverflow,
}

/// Refusals of option registration.
#[derive(Clone, Copy, Debug, PartialEq, Eq, Structural)]
pub enum PollOptionError {
    /// The poll was never created.
    PollNotFound,
    /// The title is empty.
    EmptyOptionTitle,
    /// The title is longer than 16 bytes.
    OptionTitleOverflow,
    /// The description is longer than 256 bytes.
    OptionDescriptionOverflow,
}

/// Refusals of a vote.
#[derive(Clone, Copy, Debug, PartialEq, Eq, Structural)]
pub enum VoteError {
    /// The poll is private and the voter is not on its whitelist.
    Unauthorized,
    /// The poll opens later.
    PollNotStarted,
    /// The poll's window has passed.
    PollHasEnded,
    /// The voter's one vote on this poll is already cast.
    AlreadyVoted,
}

/// Why the ledger refused an operation: a refusal of the operation itself, or
/// a fault of the store under it.
#[derive(Clone, Copy, Debug, PartialEq, Eq, Structural)]
pub enum LedgerError {
    /// Poll creation or a whitelist change was refused.
    Poll(PollError),
    /// Option registration was refused.
    PollOption(PollOptionError),
    /// A vote was refused.
    Vote(VoteError),
    /// A record that the operation updates is not in the store.
    RecordNotFound,
    /// A counter that the operation advances is at its largest value.
    CounterOverflow,
}

} // verus!
