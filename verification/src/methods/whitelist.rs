//! Growing the whitelist of a private poll.

use vstd::prelude::*;
use crate::identity::{identities_view, Identity};
use crate::others::constants::MAX_POLL_AUTHORIZED_VOTERS;
use crate::others::errors::PollError;
use crate::state::poll::{PollState, PollView};

verus! {

/// The number of identities on a poll's whitelist; 0 where it has none.
pub open spec fn whitelist_len(poll: PollView) -> nat {
    match poll.whitelisted_voters {
        Some(list) => list.len(),
        None => 0,
    }
}

/// The first reason, in the order of the checks, for which `added` more
/// identities are refused; `None` when they are accepted.
pub open spec fn whitelist_rejection(poll: PollView, caller: Seq<u8>, added: nat) -> Option<
    PollError,
> {
    if caller != poll.admin {
        Some(PollError::Unauthorized)
    } else if poll.can_public_vote {
        Some(PollError::PollIsPublic)
    } else if whitelist_len(poll) + added > MAX_POLL_AUTHORIZED_VOTERS {
        Some(PollError::WhitelistThresholdOverflow)
    } else {
        None
    }
}

/// The poll with `added` at the end of its whitelist. Nothing is removed, and
/// an identity that is listed already is listed once more.
pub open spec fn extended_poll(poll: PollView, added: Seq<Seq<u8>>) -> PollView {
    PollView {
        whitelisted_voters: Some(
            match poll.whitelisted_voters {
                Some(list) => list + added,
                None => added,
            },
        ),
        ..poll
    }
}

/// What a whitelist change is handed: who asks for it, and the poll.
pub struct WhitelistVotersCalldata<'a> {
    pub caller: Identity,
    pub poll_account: &'a mut PollState,
}

/// Adds `voter_ids` to the whitelist of the poll of `ctx` on behalf of its
/// caller.
///
/// The request is refused, and the poll left as it was, for the first of
/// these that holds: the caller is not the poll's administrator; the poll is
/// public; the whitelist would grow beyond 16 entries. Otherwise the
/// identities are appended in the order given.
pub fn authorize_voters(ctx: WhitelistVotersCalldata<'_>, voter_ids: Vec<Identity>) -> (r: Result<
    (),
    PollError,
>)
    ensures
        match whitelist_rejection(old(ctx.poll_account)@, ctx.caller@, voter_ids@.len()) {
            Some(e) => r == Err::<(), PollError>(e) && *final(ctx.poll_account) == *old(
                ctx.poll_account,
            ),
            None => r is Ok && final(ctx.poll_account)@ == extended_poll(
                old(ctx.poll_account)@,
                identities_view(voter_ids@),
            ),
        },
{
    let poll = ctx.poll_account;

    if !ctx.caller.same(&poll.admin) {
        return Err(PollError::Unauthorized);
    }
    if poll.can_public_vote {
        return Err(PollError::PollIsPublic);
    }
    let mut voter_ids = voter_ids;
    match &mut poll.whitelisted_voters {
        Some(wl_voter_ids) => {
            if voter_ids.len() > MAX_POLL_AUTHORIZED_VOTERS || wl_voter_ids.len()
                > MAX_POLL_AUTHORIZED_VOTERS - voter_ids.len() {
                return Err(PollError::WhitelistThresholdOverflow);
            }
            let ghost before = wl_voter_ids@;
            let ghost added = voter_ids@;
            wl_voter_ids.append(&mut voter_ids);
            assert(identities_view(before + added) =~= identities_view(before)
                + identities_view(added));
        },
        None => {
            if voter_ids.len() > MAX_POLL_AUTHORIZED_VOTERS {
                return Err(PollError::WhitelistThresholdOverflow);
            }
            poll.whitelisted_voters = Some(voter_ids);
        },
    }
    Ok(())
}

} // verus!
