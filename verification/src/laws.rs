//! What holds of the ledger in every state and after every series of
//! requests.

use vstd::prelude::*;
use crate::methods::cast_vote::is_authorized;
use crate::methods::create_poll::resolved_start;
use crate::model::{
    lemma_create_poll_option_valid, lemma_init_poll_valid, lemma_total_votes_bounds,
    lemma_vote_valid, lemma_whitelist_voters_valid, LedgerView, Request,
};
use crate::others::constants::{byte_len, MIN_POLL_DESC_CHAR, MIN_POLL_DURATION};
use crate::others::errors::{LedgerError, PollError, VoteError};
use crate::state::poll::PollView;
use crate::state::poll_option::PollOptionView;

verus! {

/// A request that is refused changes nothing.
pub proof fn law_refusal_changes_nothing(ledger: LedgerView, request: Request)
    requires
        ledger.apply(request).0 is Err,
    ensures
        ledger.apply(request).1 == ledger,
{
}

/// Every request keeps a valid ledger valid.
pub proof fn law_apply_keeps_valid(ledger: LedgerView, request: Request)
    requires
        ledger.valid(),
    ensures
        ledger.apply(request).1.valid(),
{
    match request {
        Request::InitPoll { admin, now, id, desc, start, duration, is_public, whitelist } => {
            lemma_init_poll_valid(ledger, admin, now, id, desc, start, duration, is_public, whitelist);
        },
        Request::CreatePollOption { poll_id, title, description } => {
            lemma_create_poll_option_valid(ledger, poll_id, title, description);
        },
        Request::WhitelistVoters { caller, poll_id, added } => {
            lemma_whitelist_voters_valid(ledger, caller, poll_id, added);
        },
        Request::Vote { voter, now, poll_id, option_id } => {
            lemma_vote_valid(ledger, voter, now, poll_id, option_id);
        },
    }
}

/// After any series of requests a valid ledger is valid: in every poll the
/// options carry the ordinals 0, 1, 2, ... without gap or repetition, no
/// identity has voted twice, the tallies add up to the number of voters, a
/// whitelist holds at most 16 identities, the description has at least 16
/// bytes and the duration is at least 24 hours.
pub proof fn law_run_keeps_valid(ledger: LedgerView, requests: Seq<Request>)
    requires
        ledger.valid(),
    ensures
        ledger.run(requests).valid(),
    decreases requests.len(),
{
    if requests.len() > 0 {
        law_run_keeps_valid(ledger, requests.drop_last());
        law_apply_keeps_valid(ledger.run(requests.drop_last()), requests.last());
    }
}

/// Whatever was requested of a ledger that started empty, it is valid.
pub proof fn law_reachable_is_valid(requests: Seq<Request>)
    ensures
        LedgerView::empty().run(requests).valid(),
{
    law_run_keeps_valid(LedgerView::empty(), requests);
}

/// A request removes no poll, no option and no voter, and leaves the rules of
/// a poll (id, administrator, description, start, duration, public or not)
/// as they were set at its creation.
pub proof fn law_records_stay(ledger: LedgerView, request: Request, poll_id: u64)
    requires
        ledger.books.contains_key(poll_id),
    ensures
        ({
            let before = ledger.books[poll_id];
            let after = ledger.apply(request).1;
            &&& after.books.contains_key(poll_id)
            &&& after.books[poll_id].poll == PollView {
                whitelisted_voters: after.books[poll_id].poll.whitelisted_voters,
                options_index: after.books[poll_id].poll.options_index,
                ..before.poll
            }
            &&& before.options.len() <= after.books[poll_id].options.len()
            &&& forall|voter: Seq<u8>|
                before.voters.contains(voter) ==> #[trigger] after.books[poll_id].voters.contains(voter)
        }),
{
    let before = ledger.books[poll_id];
    let after = ledger.apply(request).1;
    assert forall|voter: Seq<u8>| before.voters.contains(voter) implies #[trigger] after.books[poll_id].voters.contains(
        voter,
    ) by {
        let i = choose|i: int| 0 <= i < before.voters.len() && before.voters[i] == voter;
        if after.books[poll_id].voters != before.voters {
            assert(after.books[poll_id].voters[i] == voter);
        }
    }
}

/// After any series of requests, the polls and the voters that a ledger had
/// are still there.
pub proof fn law_run_keeps_records(
    ledger: LedgerView,
    requests: Seq<Request>,
    poll_id: u64,
    voter: Seq<u8>,
)
    requires
        ledger.books.contains_key(poll_id),
    ensures
        ledger.run(requests).books.contains_key(poll_id),
        ledger.has_voted(poll_id, voter) ==> ledger.run(requests).has_voted(poll_id, voter),
    decreases requests.len(),
{
    if requests.len() > 0 {
        law_run_keeps_records(ledger, requests.drop_last(), poll_id, voter);
        law_records_stay(ledger.run(requests.drop_last()), requests.last(), poll_id);
    }
}

/// Once a poll id is taken, creating a poll under it is refused with
/// `AlreadyInitialized` and changes nothing, whatever the request says
/// otherwise.
pub proof fn law_second_creation_refused(
    ledger: LedgerView,
    admin: Seq<u8>,
    now: u64,
    id: u64,
    desc: Seq<char>,
    start: u64,
    duration: u64,
    is_public: bool,
    whitelist: Option<Seq<Seq<u8>>>,
)
    requires
        ledger.books.contains_key(id),
    ensures
        ledger.init_poll(admin, now, id, desc, start, duration, is_public, whitelist) == (
            Err::<(), LedgerError>(LedgerError::Poll(PollError::AlreadyInitialized)),
            ledger,
        ),
{
}

/// Creating a poll twice under one id: if the first request succeeds, the
/// second is refused with `AlreadyInitialized` and changes nothing, however
/// many other requests were served in between.
pub proof fn law_create_poll_twice(
    ledger: LedgerView,
    first: Request,
    between: Seq<Request>,
    second: Request,
)
    requires
        first is InitPoll,
        second is InitPoll,
        first->InitPoll_id == second->InitPoll_id,
        ledger.apply(first).0 is Ok,
    ensures
        ({
            let later = ledger.apply(first).1.run(between);
            later.apply(second) == (
                Err::<(), LedgerError>(LedgerError::Poll(PollError::AlreadyInitialized)),
                later,
            )
        }),
{
    let id = first->InitPoll_id;
    let created = ledger.apply(first).1;
    assert(created.books.contains_key(id));
    law_run_keeps_records(created, between, id, Seq::empty());
}

/// A description of fewer than 16 bytes is refused with `DescUnderflow`
/// wherever the request gets as far as that check: the id is free and the
/// start is not in the past.
pub proof fn law_short_description_refused(
    ledger: LedgerView,
    admin: Seq<u8>,
    now: u64,
    id: u64,
    desc: Seq<char>,
    start: u64,
    duration: u64,
    is_public: bool,
    whitelist: Option<Seq<Seq<u8>>>,
)
    requires
        !ledger.books.contains_key(id),
        resolved_start(start, now) is Some,
        byte_len(desc) < MIN_POLL_DESC_CHAR,
    ensures
        ledger.init_poll(admin, now, id, desc, start, duration, is_public, whitelist) == (
            Err::<(), LedgerError>(LedgerError::Poll(PollError::DescUnderflow)),
            ledger,
        ),
{
}

/// A duration under 24 hours is refused with `DurationUnderflow` wherever the
/// request gets as far as that check: the id is free, the start is not in the
/// past and the description is long enough.
pub proof fn law_short_duration_refused(
    ledger: LedgerView,
    admin: Seq<u8>,
    now: u64,
    id: u64,
    desc: Seq<char>,
    start: u64,
    duration: u64,
    is_public: bool,
    whitelist: Option<Seq<Seq<u8>>>,
)
    requires
        !ledger.books.contains_key(id),
        resolved_start(start, now) is Some,
        byte_len(desc) >= MIN_POLL_DESC_CHAR,
        duration < MIN_POLL_DURATION,
    ensures
        ledger.init_poll(admin, now, id, desc, start, duration, is_public, whitelist) == (
            Err::<(), LedgerError>(LedgerError::Poll(PollError::DurationUnderflow)),
            ledger,
        ),
{
}

/// The counter of the poll `poll_id`; 0 for a poll that is not in the ledger.
pub open spec fn options_index_of(ledger: LedgerView, poll_id: u64) -> u64 {
    if ledger.books.contains_key(poll_id) {
        ledger.books[poll_id].poll.options_index
    } else {
        0
    }
}

/// Whether `request` registers an option of the poll `poll_id` on `ledger`.
pub open spec fn registers_option(ledger: LedgerView, request: Request, poll_id: u64) -> bool {
    &&& request is CreatePollOption
    &&& request->CreatePollOption_poll_id == poll_id
    &&& ledger.apply(request).0 is Ok
}

/// The ordinals that a series of requests gives to the options it registers
/// on the poll `poll_id`, in the order of the requests: each is the `id` of
/// the option that its request wrote.
pub open spec fn ordinals_assigned(ledger: LedgerView, requests: Seq<Request>, poll_id: u64) -> Seq<
    u64,
>
    decreases requests.len(),
{
    if requests.len() == 0 {
        Seq::empty()
    } else {
        let before = ledger.run(requests.drop_last());
        let earlier = ordinals_assigned(ledger, requests.drop_last(), poll_id);
        if registers_option(before, requests.last(), poll_id) {
            earlier.push(before.apply(requests.last()).1.books[poll_id].options.last().id)
        } else {
            earlier
        }
    }
}

/// Whatever other requests come in between, and in whatever order the callers
/// are served, the options registered on a poll get consecutive ordinals,
/// starting at the poll's counter, and the counter ends right after the last
/// of them.
pub proof fn law_ordinals_are_consecutive(
    ledger: LedgerView,
    requests: Seq<Request>,
    poll_id: u64,
)
    ensures
        forall|j: int|
            0 <= j < ordinals_assigned(ledger, requests, poll_id).len() ==> #[trigger] ordinals_assigned(
                ledger,
                requests,
                poll_id,
            )[j] == options_index_of(ledger, poll_id) + j,
        options_index_of(ledger.run(requests), poll_id) == options_index_of(ledger, poll_id)
            + ordinals_assigned(ledger, requests, poll_id).len(),
        ledger.books.contains_key(poll_id) ==> ledger.run(requests).books.contains_key(poll_id),
    decreases requests.len(),
{
    if requests.len() > 0 {
        let front = requests.drop_last();
        let before = ledger.run(front);
        law_ordinals_are_consecutive(ledger, front, poll_id);
        if before.books.contains_key(poll_id) {
            law_records_stay(before, requests.last(), poll_id);
        }
    }
}

/// On a ledger that started empty, the options of every poll are given the
/// ordinals 0, 1, 2, ... in the order of their registration.
pub proof fn law_ordinals_count_from_zero(requests: Seq<Request>, poll_id: u64)
    ensures
        ordinals_assigned(LedgerView::empty(), requests, poll_id) =~= Seq::new(
            ordinals_assigned(LedgerView::empty(), requests, poll_id).len(),
            |j: int| j as u64,
        ),
{
    law_ordinals_are_consecutive(LedgerView::empty(), requests, poll_id);
}

/// Whether `request` is a vote of `voter` on the poll `poll_id` that `ledger`
/// accepts.
pub open spec fn casts_vote(
    ledger: LedgerView,
    request: Request,
    poll_id: u64,
    voter: Seq<u8>,
) -> bool {
    &&& request is Vote
    &&& request->Vote_poll_id == poll_id
    &&& request->Vote_voter == voter
    &&& ledger.apply(request).0 is Ok
}

/// How many votes of `voter` on the poll `poll_id` a series of requests gets
/// accepted.
pub open spec fn votes_accepted(
    ledger: LedgerView,
    requests: Seq<Request>,
    poll_id: u64,
    voter: Seq<u8>,
) -> nat
    decreases requests.len(),
{
    if requests.len() == 0 {
        0
    } else {
        let before = ledger.run(requests.drop_last());
        let earlier = votes_accepted(ledger, requests.drop_last(), poll_id, voter);
        if casts_vote(before, requests.last(), poll_id, voter) {
            earlier + 1
        } else {
            earlier
        }
    }
}

/// A voter has voted on a poll after a request exactly if the voter had voted
/// before it or the request is the voter's accepted vote on that poll.
pub proof fn law_vote_marks_voter(
    ledger: LedgerView,
    request: Request,
    poll_id: u64,
    voter: Seq<u8>,
)
    ensures
        ledger.apply(request).1.has_voted(poll_id, voter) <==> ledger.has_voted(poll_id, voter)
            || casts_vote(ledger, request, poll_id, voter),
        casts_vote(ledger, request, poll_id, voter) ==> !ledger.has_voted(poll_id, voter),
{
    let after = ledger.apply(request).1;
    if ledger.books.contains_key(poll_id) {
        let old_voters = ledger.books[poll_id].voters;
        let new_voters = after.books[poll_id].voters;
        if ledger.has_voted(poll_id, voter) {
            law_records_stay(ledger, request, poll_id);
        }
        if new_voters != old_voters {
            let cast = request->Vote_voter;
            assert(new_voters == old_voters.push(cast));
            assert(new_voters[old_voters.len() as int] == cast);
            if new_voters.contains(voter) && !old_voters.contains(voter) {
                let i = choose|i: int| 0 <= i < new_voters.len() && new_voters[i] == voter;
                if i < old_voters.len() {
                    assert(old_voters[i] == voter);
                }
            }
        }
    } else if after.books.contains_key(poll_id) {
        assert(after.books[poll_id].voters =~= Seq::empty());
    }
}

/// A voter who has voted on a poll gets no further vote on it accepted: every
/// later attempt is refused and changes nothing.
pub proof fn law_second_vote_refused(
    ledger: LedgerView,
    voter: Seq<u8>,
    now: u64,
    poll_id: u64,
    option_id: u64,
)
    requires
        ledger.has_voted(poll_id, voter),
    ensures
        ledger.vote(voter, now, poll_id, option_id).0 is Err,
        ledger.vote(voter, now, poll_id, option_id).1 == ledger,
{
}

/// For every poll and voter, a series of requests gets at most one vote
/// accepted, whatever else is requested in between: exactly one if the voter
/// had not voted before and has voted at the end, and none otherwise.
pub proof fn law_at_most_one_vote(
    ledger: LedgerView,
    requests: Seq<Request>,
    poll_id: u64,
    voter: Seq<u8>,
)
    ensures
        votes_accepted(ledger, requests, poll_id, voter) <= 1,
        votes_accepted(ledger, requests, poll_id, voter) == 1 <==> !ledger.has_voted(poll_id, voter)
            && ledger.run(requests).has_voted(poll_id, voter),
        ledger.has_voted(poll_id, voter) ==> ledger.run(requests).has_voted(poll_id, voter),
    decreases requests.len(),
{
    if requests.len() > 0 {
        let front = requests.drop_last();
        law_at_most_one_vote(ledger, front, poll_id, voter);
        law_vote_marks_voter(ledger.run(front), requests.last(), poll_id, voter);
    }
}

/// Whether `request` is a vote for the option `ordinal` of the poll `poll_id`
/// that `ledger` accepts.
pub open spec fn counts_for(ledger: LedgerView, request: Request, poll_id: u64, ordinal: u64) -> bool {
    &&& request is Vote
    &&& request->Vote_poll_id == poll_id
    &&& request->Vote_option_id == ordinal
    &&& ledger.apply(request).0 is Ok
}

/// An option keeps its ordinal, title and description, and its tally never
/// falls: it grows by exactly one with every accepted vote for the option and
/// stays as it is with every other request.
pub proof fn law_tally_follows_votes(
    ledger: LedgerView,
    request: Request,
    poll_id: u64,
    ordinal: u64,
)
    requires
        ledger.has_option(poll_id, ordinal),
    ensures
        ({
            let before = ledger.books[poll_id].options[ordinal as int];
            let after = ledger.apply(request).1;
            &&& after.has_option(poll_id, ordinal)
            &&& after.books[poll_id].options[ordinal as int] == PollOptionView {
                count: after.books[poll_id].options[ordinal as int].count,
                ..before
            }
            &&& after.books[poll_id].options[ordinal as int].count == before.count + if counts_for(
                ledger,
                request,
                poll_id,
                ordinal,
            ) {
                1int
            } else {
                0int
            }
        }),
{
}

/// Whoever may vote on a poll may do so after every later request: a poll
/// stays public or private, and a whitelist loses no entry.
pub proof fn law_authorized_stays_authorized(
    ledger: LedgerView,
    request: Request,
    poll_id: u64,
    voter: Seq<u8>,
)
    requires
        ledger.books.contains_key(poll_id),
        is_authorized(ledger.books[poll_id].poll, voter),
    ensures
        ledger.apply(request).1.books.contains_key(poll_id),
        is_authorized(ledger.apply(request).1.books[poll_id].poll, voter),
{
    let before = ledger.books[poll_id].poll;
    let after = ledger.apply(request).1.books[poll_id].poll;
    law_records_stay(ledger, request, poll_id);
    if !before.can_public_vote && after.whitelisted_voters != before.whitelisted_voters {
        let list = before.whitelisted_voters->0;
        let i = choose|i: int| 0 <= i < list.len() && list[i] == voter;
        assert(after.whitelisted_voters->0[i] == voter);
    }
}

/// A voter who may vote, inside the poll's window, for an option whose tally
/// can grow, is refused with `AlreadyVoted` exactly if the voter has voted on
/// the poll, and is accepted otherwise.
pub proof fn law_vote_in_window(
    ledger: LedgerView,
    voter: Seq<u8>,
    now: u64,
    poll_id: u64,
    option_id: u64,
)
    requires
        ledger.has_option(poll_id, option_id),
        ledger.books[poll_id].options[option_id as int].count < u64::MAX,
        is_authorized(ledger.books[poll_id].poll, voter),
        ledger.books[poll_id].poll.start_time <= now <= ledger.books[poll_id].poll.start_time
            + ledger.books[poll_id].poll.duration,
    ensures
        ledger.vote(voter, now, poll_id, option_id).0 == if ledger.has_voted(poll_id, voter) {
            Err::<(), LedgerError>(LedgerError::Vote(VoteError::AlreadyVoted))
        } else {
            Ok::<(), LedgerError>(())
        },
{
}

/// In a valid ledger no option has more votes than its poll has voters.
pub proof fn law_tally_within_voters(ledger: LedgerView, poll_id: u64, ordinal: u64)
    requires
        ledger.valid(),
        ledger.has_option(poll_id, ordinal),
    ensures
        ledger.books[poll_id].options[ordinal as int].count <= ledger.books[poll_id].voters.len(),
{
    assert(ledger.books[poll_id].valid(poll_id));
    lemma_total_votes_bounds(ledger.books[poll_id].options, ordinal as int);
}

} // verus!
