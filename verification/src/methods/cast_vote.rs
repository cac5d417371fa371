//! Casting a vote.

use vstd::prelude::*;
use crate::identity::{contains_identity, Identity};
use crate::others::errors::VoteError;
use crate::state::poll::{PollState, PollView};
use crate::state::poll_option::{PollOptionState, PollOptionView};
use crate::state::voter::VoterState;

verus! {

/// Whether `voter` may vote on `poll`: everybody on a public poll, the
/// whitelisted identities on a private one.
pub open spec fn is_authorized(poll: PollView, voter: Seq<u8>) -> bool {
    poll.can_public_vote || match poll.whitelisted_voters {
        Some(list) => list.contains(voter),
        None => false,
    }
}

/// The first reason, in the order of the checks, for which a vote is refused;
/// `None` when it is accepted.
pub open spec fn vote_rejection(
    poll: PollView,
    voter: Seq<u8>,
    has_voted: bool,
    now: u64,
) -> Option<VoteError> {
    if !is_authorized(poll, voter) {
        Some(VoteError::Unauthorized)
    } else if now < poll.start_time {
        Some(VoteError::PollNotStarted)
    } else if now > poll.start_time + poll.duration {
        Some(VoteError::PollHasEnded)
    } else if has_voted {
        Some(VoteError::AlreadyVoted)
    } else {
        None
    }
}

/// The option after one more vote.
pub open spec fn voted_option(option: PollOptionView) -> PollOptionView {
    PollOptionView { count: (option.count + 1) as u64, ..option }
}

/// What a vote is handed: the voter, the poll, the option voted for, and the
/// voter's record on the poll.
pub struct CastVoteCalldata<'a> {
    pub voter: Identity,
    pub poll_account: &'a PollState,
    pub poll_option_account: &'a mut PollOptionState,
    pub voter_account: &'a mut VoterState,
}

/// Casts the vote of the voter of `ctx` for the option of `ctx`, at the time
/// `now`.
///
/// The vote is refused, and both records left as they were, for the first of
/// these that holds: the poll is private and does not list the voter; `now` is
/// before the poll's start; `now` is after start plus duration; the voter's
/// record says that the voter has voted. Otherwise the record is marked and
/// the option's tally grows by one.
///
/// The tally must be able to grow: an option at the largest count is left to
/// the caller.
pub fn cast_vote(ctx: CastVoteCalldata<'_>, now: u64) -> (r: Result<(), VoteError>)
    requires
        old(ctx.poll_option_account).count < u64::MAX,
    ensures
        match vote_rejection(ctx.poll_account@, ctx.voter@, old(ctx.voter_account).has_voted, now) {
            Some(e) => {
                &&& r == Err::<(), VoteError>(e)
                &&& *final(ctx.poll_option_account) == *old(ctx.poll_option_account)
                &&& *final(ctx.voter_account) == *old(ctx.voter_account)
            },
            None => {
                &&& r is Ok
                &&& final(ctx.voter_account).has_voted
                &&& final(ctx.poll_option_account)@ == voted_option(old(ctx.poll_option_account)@)
            },
        },
{
    let poll = ctx.poll_account;
    let poll_option = ctx.poll_option_account;
    let voter = ctx.voter_account;

    let is_voter_authorized: bool = if !poll.can_public_vote {
        match &poll.whitelisted_voters {
            Some(auth_voters) => contains_identity(auth_voters, &ctx.voter),
            None => false,
        }
    } else {
        true
    };
    if !is_voter_authorized {
        return Err(VoteError::Unauthorized);
    }

    // The end of the window is start plus duration, which may pass the largest
    // time; the time since the start is compared with the duration instead.
    if now < poll.start_time {
        return Err(VoteError::PollNotStarted);
    } else if now - poll.start_time > poll.duration {
        return Err(VoteError::PollHasEnded);
    }

    if voter.has_voted {
        return Err(VoteError::AlreadyVoted);
    }

    voter.has_voted = true;
    poll_option.count += 1;
    Ok(())
}

} // verus!
