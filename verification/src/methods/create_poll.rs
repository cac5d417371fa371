//! Creating a poll.

use vstd::prelude::*;
use crate::identity::Identity;
use crate::others::constants::{
    byte_len, MAX_POLL_AUTHORIZED_VOTERS, MIN_POLL_DESC_CHAR, MIN_POLL_DURATION,
};
use crate::others::errors::PollError;
use crate::state::poll::{opt_identities_view, PollState, PollView};

verus! {

/// When a poll opens: a requested start of 0 stands for `now`, a start that is
/// not in the past is taken as it is, and a start in the past gives `None`.
pub open spec fn resolved_start(start: u64, now: u64) -> Option<u64> {
    if start == 0 {
        Some(now)
    } else if start >= now {
        Some(start)
    } else {
        None
    }
}

/// The first reason, in the order of the checks, for which a creation request
/// is refused on the record `existing`; `None` when it is accepted.
pub open spec fn create_poll_rejection(
    existing: PollView,
    desc: Seq<char>,
    start: u64,
    duration: u64,
    is_public: bool,
    whitelist: Option<Seq<Seq<u8>>>,
    now: u64,
) -> Option<PollError> {
    if existing.is_created() {
        Some(PollError::AlreadyInitialized)
    } else if resolved_start(start, now) is None {
        Some(PollError::StartTimeExpired)
    } else if byte_len(desc) < MIN_POLL_DESC_CHAR {
        Some(PollError::DescUnderflow)
    } else if duration < MIN_POLL_DURATION {
        Some(PollError::DurationUnderflow)
    } else if whitelist is Some && is_public {
        Some(PollError::PollIsPublic)
    } else if whitelist is Some && whitelist->0.len() > MAX_POLL_AUTHORIZED_VOTERS {
        Some(PollError::WhitelistThresholdOverflow)
    } else {
        None
    }
}

/// The record that an accepted creation request writes.
pub open spec fn created_poll(
    admin: Seq<u8>,
    id: u64,
    desc: Seq<char>,
    start: u64,
    duration: u64,
    is_public: bool,
    whitelist: Option<Seq<Seq<u8>>>,
    now: u64,
) -> PollView {
    PollView {
        id,
        admin,
        description: desc,
        start_time: if start == 0 { now } else { start },
        duration,
        can_public_vote: is_public,
        whitelisted_voters: whitelist,
        options_index: 0,
    }
}

/// What poll creation is handed: who asks for it, and the record that the
/// poll is to be written to.
pub struct InitializePollCalldata<'a> {
    pub admin: Identity,
    pub poll_account: &'a mut PollState,
}

/// Creates the poll `id` in the record of `ctx` on behalf of its
/// administrator, at the time `now`.
///
/// The request is refused, and the record left as it was, for the first of
/// these that holds: the record already holds a poll; `start` is neither 0 nor
/// at or after `now`; `desc` has fewer than 16 bytes; `duration` is under 24
/// hours; a whitelist comes with a public poll; the whitelist has more than 16
/// entries. Otherwise the record holds the new poll, with no options yet.
pub fn execute(
    ctx: InitializePollCalldata<'_>,
    id: u64,
    desc: String,
    start: u64,
    duration: u64,
    is_public: bool,
    whitelist_voters: Option<Vec<Identity>>,
    now: u64,
) -> (r: Result<(), PollError>)
    ensures
        match create_poll_rejection(
            old(ctx.poll_account)@,
            desc@,
            start,
            duration,
            is_public,
            opt_identities_view(whitelist_voters),
            now,
        ) {
            Some(e) => r == Err::<(), PollError>(e) && *final(ctx.poll_account) == *old(
                ctx.poll_account,
            ),
            None => r is Ok && final(ctx.poll_account)@ == created_poll(
                ctx.admin@,
                id,
                desc@,
                start,
                duration,
                is_public,
                opt_identities_view(whitelist_voters),
                now,
            ),
        },
{
    let adj_start_time: u64;

    if ctx.poll_account.start_time != 0 {
        return Err(PollError::AlreadyInitialized);
    }
    if start == 0 {
        adj_start_time = now;
    } else if start >= now {
        adj_start_time = start;
    } else {
        return Err(PollError::StartTimeExpired);
    }
    if desc.as_str().as_bytes().len() < MIN_POLL_DESC_CHAR {
        return Err(PollError::DescUnderflow);
    }
    if duration < MIN_POLL_DURATION {
        return Err(PollError::DurationUnderflow);
    }
    match &whitelist_voters {
        Some(voter_ids) => {
            if is_public {
                return Err(PollError::PollIsPublic);
            }
            if voter_ids.len() > MAX_POLL_AUTHORIZED_VOTERS {
                return Err(PollError::WhitelistThresholdOverflow);
            }
        },
        None => {},
    }

    *ctx.poll_account = PollState {
        id,
        admin: ctx.admin,
        description: desc,
        start_time: adj_start_time,
        duration,
        can_public_vote: is_public,
        whitelisted_voters: whitelist_voters,
        options_index: 0,
    };
    Ok(())
}

/// A record that holds a poll takes no second one: once a creation request
/// was accepted, every further request on the record is refused with
/// `AlreadyInitialized`. This needs a start other than 0, given or taken from
/// the clock: a poll that starts at time 0 leaves its record marked as free.
pub proof fn law_record_is_written_once(
    existing: PollView,
    admin: Seq<u8>,
    id: u64,
    desc: Seq<char>,
    start: u64,
    duration: u64,
    is_public: bool,
    whitelist: Option<Seq<Seq<u8>>>,
    now: u64,
    desc2: Seq<char>,
    start2: u64,
    duration2: u64,
    is_public2: bool,
    whitelist2: Option<Seq<Seq<u8>>>,
    now2: u64,
)
    requires
        create_poll_rejection(existing, desc, start, duration, is_public, whitelist, now) is None,
        start != 0 || now != 0,
    ensures
        create_poll_rejection(
            created_poll(admin, id, desc, start, duration, is_public, whitelist, now),
            desc2,
            start2,
            duration2,
            is_public2,
            whitelist2,
            now2,
        ) == Some(PollError::AlreadyInitialized),
{
}

/// A poll that was created has a description of at least 16 bytes, lasts at
/// least 24 hours, does not start before its creation, and has a whitelist
/// only if it is private, of at most 16 identities.
pub proof fn law_created_poll_is_sound(
    existing: PollView,
    admin: Seq<u8>,
    id: u64,
    desc: Seq<char>,
    start: u64,
    duration: u64,
    is_public: bool,
    whitelist: Option<Seq<Seq<u8>>>,
    now: u64,
)
    requires
        create_poll_rejection(existing, desc, start, duration, is_public, whitelist, now) is None,
    ensures
        ({
            let poll = created_poll(admin, id, desc, start, duration, is_public, whitelist, now);
            &&& byte_len(poll.description) >= MIN_POLL_DESC_CHAR
            &&& poll.duration >= MIN_POLL_DURATION
            &&& poll.start_time >= now
            &&& poll.whitelist_bounded()
            &&& poll.options_index == 0
        }),
{
}

} // verus!
