//! The marker that a voter leaves on a poll.

use vstd::prelude::*;

verus! {

/// One per poll and voter. `has_voted` turns `true` with the voter's vote and
/// never turns back.
#[derive(Clone, Copy, Debug, PartialEq, Eq, Structural)]
pub struct VoterState {
    pub has_voted: bool,
}

impl VoterState {
    /// The record of a voter who has not voted.
    pub fn new() -> (v: VoterState)
        ensures
            !v.has_voted,
    {
        VoterState { has_voted: false }
    }
}

} // verus!
