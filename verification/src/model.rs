//! The ledger as a mathematical value, and what each operation makes of it.
//!
//! An operation either succeeds and changes the records of one poll, or fails
//! and changes nothing. The functions here say which, for every state and
//! every request; the executable operations are proved against them.

use vstd::prelude::*;
use crate::methods::cast_vote::{vote_rejection, voted_option};
use crate::methods::create_poll::{create_poll_rejection, created_poll};
use crate::methods::create_poll_option::{advanced_poll, created_option, option_rejection};
use crate::methods::whitelist::{extended_poll, whitelist_rejection};
use crate::others::constants::{byte_len, MIN_POLL_DESC_CHAR, MIN_POLL_DURATION};
use crate::others::errors::{LedgerError, PollError, PollOptionError};
use crate::state::poll::PollView;
use crate::state::poll_option::PollOptionView;

verus! {

/// The records of one poll: the poll itself, its options by ordinal, and the
/// identities that have voted, in the order of their votes.
pub struct PollBookView {
    pub poll: PollView,
    pub options: Seq<PollOptionView>,
    pub voters: Seq<Seq<u8>>,
}

/// The votes that a list of options has received in all.
pub open spec fn total_votes(options: Seq<PollOptionView>) -> int
    decreases options.len(),
{
    if options.len() == 0 {
        0
    } else {
        total_votes(options.drop_last()) + options.last().count
    }
}

impl PollBookView {
    /// The records of a poll that was just created.
    pub open spec fn opened(poll: PollView) -> PollBookView {
        PollBookView { poll, options: Seq::empty(), voters: Seq::empty() }
    }

    /// What holds of the records of the poll `id` at all times: the options
    /// carry the ordinals 0, 1, 2, ... up to the poll's counter, nobody voted
    /// twice, every vote is in exactly one tally, the whitelist is within its
    /// bound, and description and duration are not under their minimums.
    pub open spec fn valid(self, id: u64) -> bool {
        &&& self.poll.id == id
        &&& self.options.len() == self.poll.options_index
        &&& forall|k: int| 0 <= k < self.options.len() ==> (#[trigger] self.options[k]).id == k
        &&& self.voters.no_duplicates()
        &&& total_votes(self.options) == self.voters.len()
        &&& self.poll.whitelist_bounded()
        &&& byte_len(self.poll.description) >= MIN_POLL_DESC_CHAR
        &&& self.poll.duration >= MIN_POLL_DURATION
    }
}

/// All records of the ledger, by poll id.
#[verifier::ext_equal]
pub struct LedgerView {
    pub books: Map<u64, PollBookView>,
}

impl LedgerView {
    /// The ledger without any poll.
    pub open spec fn empty() -> LedgerView {
        LedgerView { books: Map::empty() }
    }

    /// Every poll's records are valid.
    pub open spec fn valid(self) -> bool {
        forall|id: u64| #[trigger] self.books.contains_key(id) ==> self.books[id].valid(id)
    }

    /// Whether the option `ordinal` of the poll `poll_id` is registered.
    pub open spec fn has_option(self, poll_id: u64, ordinal: u64) -> bool {
        self.books.contains_key(poll_id) && ordinal < self.books[poll_id].options.len()
    }

    /// Whether `voter` has voted on the poll `poll_id`.
    pub open spec fn has_voted(self, poll_id: u64, voter: Seq<u8>) -> bool {
        self.books.contains_key(poll_id) && self.books[poll_id].voters.contains(voter)
    }

    /// The ledger with the records of one poll replaced.
    pub open spec fn with_book(self, id: u64, book: PollBookView) -> LedgerView {
        LedgerView { books: self.books.insert(id, book) }
    }

    /// Creating the poll `id`. An id that is taken is refused with
    /// `AlreadyInitialized`; otherwise the request is judged against an empty
    /// record.
    pub open spec fn init_poll(
        self,
        admin: Seq<u8>,
        now: u64,
        id: u64,
        desc: Seq<char>,
        start: u64,
        duration: u64,
        is_public: bool,
        whitelist: Option<Seq<Seq<u8>>>,
    ) -> (Result<(), LedgerError>, LedgerView) {
        if self.books.contains_key(id) {
            (Err(LedgerError::Poll(PollError::AlreadyInitialized)), self)
        } else {
            match create_poll_rejection(
                PollView::blank(),
                desc,
                start,
                duration,
                is_public,
                whitelist,
                now,
            ) {
                Some(e) => (Err(LedgerError::Poll(e)), self),
                None => (
                    Ok(()),
                    self.with_book(
                        id,
                        PollBookView::opened(
                            created_poll(admin, id, desc, start, duration, is_public, whitelist, now),
                        ),
                    ),
                ),
            }
        }
    }

    /// Registering an option of the poll `poll_id`. The option goes to the end
    /// of the poll's options and the poll's counter moves with it.
    pub open spec fn create_poll_option(
        self,
        poll_id: u64,
        title: Seq<char>,
        description: Option<Seq<char>>,
    ) -> (Result<(), LedgerError>, LedgerView) {
        if !self.books.contains_key(poll_id) {
            (Err(LedgerError::PollOption(PollOptionError::PollNotFound)), self)
        } else {
            let book = self.books[poll_id];
            if book.poll.options_index == u64::MAX {
                (Err(LedgerError::CounterOverflow), self)
            } else {
                match option_rejection(book.poll, title, description) {
                    Some(e) => (Err(LedgerError::PollOption(e)), self),
                    None => (
                        Ok(()),
                        self.with_book(
                            poll_id,
                            PollBookView {
                                poll: advanced_poll(book.poll),
                                options: book.options.push(
                                    created_option(book.poll.options_index, title, description),
                                ),
                                voters: book.voters,
                            },
                        ),
                    ),
                }
            }
        }
    }

    /// Adding `added` to the whitelist of the poll `poll_id`.
    pub open spec fn whitelist_voters(
        self,
        caller: Seq<u8>,
        poll_id: u64,
        added: Seq<Seq<u8>>,
    ) -> (Result<(), LedgerError>, LedgerView) {
        if !self.books.contains_key(poll_id) {
            (Err(LedgerError::RecordNotFound), self)
        } else {
            let book = self.books[poll_id];
            match whitelist_rejection(book.poll, caller, added.len()) {
                Some(e) => (Err(LedgerError::Poll(e)), self),
                None => (
                    Ok(()),
                    self.with_book(
                        poll_id,
                        PollBookView { poll: extended_poll(book.poll, added), ..book },
                    ),
                ),
            }
        }
    }

    /// The vote of `voter` for the option `option_id` of the poll `poll_id`.
    /// A voter has a record on the poll exactly when the vote was cast.
    pub open spec fn vote(self, voter: Seq<u8>, now: u64, poll_id: u64, option_id: u64) -> (
        Result<(), LedgerError>,
        LedgerView,
    ) {
        if !self.has_option(poll_id, option_id) {
            (Err(LedgerError::RecordNotFound), self)
        } else {
            let book = self.books[poll_id];
            let option = book.options[option_id as int];
            if option.count == u64::MAX {
                (Err(LedgerError::CounterOverflow), self)
            } else {
                match vote_rejection(book.poll, voter, book.voters.contains(voter), now) {
                    Some(e) => (Err(LedgerError::Vote(e)), self),
                    None => (
                        Ok(()),
                        self.with_book(
                            poll_id,
                            PollBookView {
                                poll: book.poll,
                                options: book.options.update(option_id as int, voted_option(option)),
                                voters: book.voters.push(voter),
                            },
                        ),
                    ),
                }
            }
        }
    }
}

/// A request to the ledger: one of the four operations with its arguments.
pub enum Request {
    InitPoll {
        admin: Seq<u8>,
        now: u64,
        id: u64,
        desc: Seq<char>,
        start: u64,
        duration: u64,
        is_public: bool,
        whitelist: Option<Seq<Seq<u8>>>,
    },
    CreatePollOption { poll_id: u64, title: Seq<char>, description: Option<Seq<char>> },
    WhitelistVoters { caller: Seq<u8>, poll_id: u64, added: Seq<Seq<u8>> },
    Vote { voter: Seq<u8>, now: u64, poll_id: u64, option_id: u64 },
}

impl LedgerView {
    /// The answer to one request and the ledger after it.
    pub open spec fn apply(self, request: Request) -> (Result<(), LedgerError>, LedgerView) {
        match request {
            Request::InitPoll { admin, now, id, desc, start, duration, is_public, whitelist } => {
                self.init_poll(admin, now, id, desc, start, duration, is_public, whitelist)
            },
            Request::CreatePollOption { poll_id, title, description } => {
                self.create_poll_option(poll_id, title, description)
            },
            Request::WhitelistVoters { caller, poll_id, added } => {
                self.whitelist_voters(caller, poll_id, added)
            },
            Request::Vote { voter, now, poll_id, option_id } => {
                self.vote(voter, now, poll_id, option_id)
            },
        }
    }

    /// The ledger after a series of requests, served one after another in any
    /// mix of callers and polls.
    pub open spec fn run(self, requests: Seq<Request>) -> LedgerView
        decreases requests.len(),
    {
        if requests.len() == 0 {
            self
        } else {
            self.run(requests.drop_last()).apply(requests.last()).1
        }
    }
}

/// Replacing one option's tally moves the total by the difference.
pub proof fn lemma_total_votes_update(options: Seq<PollOptionView>, k: int, option: PollOptionView)
    requires
        0 <= k < options.len(),
    ensures
        total_votes(options.update(k, option)) == total_votes(options) - options[k].count
            + option.count,
    decreases options.len(),
{
    let updated = options.update(k, option);
    if k == options.len() - 1 {
        assert(updated.drop_last() =~= options.drop_last());
    } else {
        lemma_total_votes_update(options.drop_last(), k, option);
        assert(updated.drop_last() =~= options.drop_last().update(k, option));
    }
}

/// No single tally is larger than the total.
pub proof fn lemma_total_votes_bounds(options: Seq<PollOptionView>, k: int)
    requires
        0 <= k < options.len(),
    ensures
        options[k].count <= total_votes(options),
        0 <= total_votes(options),
    decreases options.len(),
{
    lemma_total_votes_nonnegative(options.drop_last());
    if k < options.len() - 1 {
        lemma_total_votes_bounds(options.drop_last(), k);
    }
}

/// A total of tallies is not negative.
pub proof fn lemma_total_votes_nonnegative(options: Seq<PollOptionView>)
    ensures
        0 <= total_votes(options),
    decreases options.len(),
{
    if options.len() > 0 {
        lemma_total_votes_nonnegative(options.drop_last());
    }
}

/// Replacing a poll's records by valid ones keeps a valid ledger valid.
pub proof fn lemma_with_book_valid(ledger: LedgerView, id: u64, book: PollBookView)
    requires
        ledger.valid(),
        book.valid(id),
    ensures
        ledger.with_book(id, book).valid(),
{
    let after = ledger.with_book(id, book);
    assert forall|other: u64| #[trigger] after.books.contains_key(other) implies after.books[other].valid(
        other,
    ) by {
        if other != id {
            assert(ledger.books.contains_key(other));
        }
    }
}

/// Poll creation keeps a valid ledger valid, whether it succeeds or not.
pub proof fn lemma_init_poll_valid(
    ledger: LedgerView,
    admin: Seq<u8>,
    now: u64,
    id: u64,
    desc: Seq<char>,
    start: u64,
    duration: u64,
    is_public: bool,
    whitelist: Option<Seq<Seq<u8>>>,
)
    requires
        ledger.valid(),
    ensures
        ledger.init_poll(admin, now, id, desc, start, duration, is_public, whitelist).1.valid(),
{
    let (result, after) = ledger.init_poll(
        admin,
        now,
        id,
        desc,
        start,
        duration,
        is_public,
        whitelist,
    );
    if result is Ok {
        let book = PollBookView::opened(
            created_poll(admin, id, desc, start, duration, is_public, whitelist, now),
        );
        assert(book.valid(id));
        lemma_with_book_valid(ledger, id, book);
    }
}

/// Option registration keeps a valid ledger valid, whether it succeeds or not.
pub proof fn lemma_create_poll_option_valid(
    ledger: LedgerView,
    poll_id: u64,
    title: Seq<char>,
    description: Option<Seq<char>>,
)
    requires
        ledger.valid(),
    ensures
        ledger.create_poll_option(poll_id, title, description).1.valid(),
{
    let (result, after) = ledger.create_poll_option(poll_id, title, description);
    if result is Ok {
        let before = ledger.books[poll_id];
        let book = after.books[poll_id];
        assert(before.valid(poll_id));
        assert(book.options.drop_last() =~= before.options);
        assert(book.valid(poll_id));
        lemma_with_book_valid(ledger, poll_id, book);
    }
}

/// A whitelist change keeps a valid ledger valid, whether it succeeds or not.
pub proof fn lemma_whitelist_voters_valid(
    ledger: LedgerView,
    caller: Seq<u8>,
    poll_id: u64,
    added: Seq<Seq<u8>>,
)
    requires
        ledger.valid(),
    ensures
        ledger.whitelist_voters(caller, poll_id, added).1.valid(),
{
    let (result, after) = ledger.whitelist_voters(caller, poll_id, added);
    if result is Ok {
        let before = ledger.books[poll_id];
        let book = after.books[poll_id];
        assert(before.valid(poll_id));
        assert(book.valid(poll_id));
        lemma_with_book_valid(ledger, poll_id, book);
    }
}

/// A vote keeps a valid ledger valid, whether it succeeds or not.
pub proof fn lemma_vote_valid(
    ledger: LedgerView,
    voter: Seq<u8>,
    now: u64,
    poll_id: u64,
    option_id: u64,
)
    requires
        ledger.valid(),
    ensures
        ledger.vote(voter, now, poll_id, option_id).1.valid(),
{
    let (result, after) = ledger.vote(voter, now, poll_id, option_id);
    if result is Ok {
        let before = ledger.books[poll_id];
        let book = after.books[poll_id];
        assert(before.valid(poll_id));
        lemma_total_votes_update(
            before.options,
            option_id as int,
            voted_option(before.options[option_id as int]),
        );
        assert(book.voters.no_duplicates()) by {
            assert forall|i: int, j: int|
                0 <= i < book.voters.len() && 0 <= j < book.voters.len() && i != j implies book.voters[i]
                != book.voters[j] by {
                if i < before.voters.len() {
                    assert(before.voters.contains(before.voters[i]));
                }
                if j < before.voters.len() {
                    assert(before.voters.contains(before.voters[j]));
                }
            }
        }
        assert(book.valid(poll_id));
        lemma_with_book_valid(ledger, poll_id, book);
    }
}

} // verus!
