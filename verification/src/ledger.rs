//! The records of all polls, and the four operations on them.
//!
//! The ledger is the store that the operations of [`crate::methods`] work on:
//! it finds the records that an operation names, hands them to the operation,
//! and keeps the result. An operation that fails leaves the ledger as it was.

use vstd::prelude::*;
use crate::identity::{contains_identity, identities_view, Identity};
use crate::methods::cast_vote::{cast_vote, CastVoteCalldata};
use crate::methods::create_poll::{execute, InitializePollCalldata};
use crate::methods::create_poll_option::{init_option, InitializePollOptionsCalldata};
use crate::methods::whitelist::{authorize_voters, WhitelistVotersCalldata};
use crate::model::{
    lemma_create_poll_option_valid, lemma_init_poll_valid, lemma_vote_valid,
    lemma_whitelist_voters_valid, LedgerView, PollBookView,
};
use crate::others::errors::{LedgerError, PollError, PollOptionError};
use crate::state::poll::{opt_identities_view, PollState};
use crate::state::poll_option::{opt_string_view, PollOptionState, PollOptionView};
use crate::state::voter::VoterState;

verus! {

/// The records of one poll. The option with ordinal `k` is `options[k]`, and
/// a voter's record is the voter's place in `voters`.
struct PollBook {
    poll: PollState,
    options: Vec<PollOptionState>,
    voters: Vec<Identity>,
}

/// The options of a list, each as a mathematical value.
spec fn options_view(options: Seq<PollOptionState>) -> Seq<PollOptionView> {
    Seq::new(options.len(), |k: int| options[k]@)
}

impl View for PollBook {
    type V = PollBookView;

    closed spec fn view(&self) -> PollBookView {
        PollBookView {
            poll: self.poll@,
            options: options_view(self.options@),
            voters: identities_view(self.voters@),
        }
    }
}

/// The books of a list, by the id of their poll.
spec fn books_view(books: Seq<PollBook>) -> Map<u64, PollBookView>
    decreases books.len(),
{
    if books.len() == 0 {
        Map::empty()
    } else {
        books_view(books.drop_last()).insert(books.last().poll.id, books.last()@)
    }
}

/// No two books of the list are for the same poll id.
spec fn distinct_ids(books: Seq<PollBook>) -> bool {
    forall|i: int, j: int|
        0 <= i < j < books.len() ==> (#[trigger] books[i]).poll.id != (#[trigger] books[j]).poll.id
}

/// The ids with a book are those of the books of the list.
proof fn lemma_books_view_keys(books: Seq<PollBook>, id: u64)
    ensures
        books_view(books).contains_key(id) <==> exists|i: int|
            0 <= i < books.len() && (#[trigger] books[i]).poll.id == id,
    decreases books.len(),
{
    if books.len() > 0 {
        let front = books.drop_last();
        lemma_books_view_keys(front, id);
        if books_view(books).contains_key(id) {
            if books.last().poll.id == id {
                assert(books[books.len() - 1].poll.id == id);
            } else {
                let i = choose|i: int| 0 <= i < front.len() && (#[trigger] front[i]).poll.id == id;
                assert(books[i].poll.id == id);
            }
        }
        if exists|i: int| 0 <= i < books.len() && (#[trigger] books[i]).poll.id == id {
            let i = choose|i: int| 0 <= i < books.len() && (#[trigger] books[i]).poll.id == id;
            if i < front.len() {
                assert(front[i].poll.id == id);
            }
        }
    }
}

/// Where ids are distinct, each book of the list is the one found under its id.
proof fn lemma_books_view_at(books: Seq<PollBook>, i: int)
    requires
        distinct_ids(books),
        0 <= i < books.len(),
    ensures
        books_view(books).contains_key(books[i].poll.id),
        books_view(books)[books[i].poll.id] == books[i]@,
    decreases books.len(),
{
    let front = books.drop_last();
    if i < books.len() - 1 {
        assert(distinct_ids(front)) by {
            assert forall|a: int, b: int| 0 <= a < b < front.len() implies (#[trigger] front[a]).poll.id
                != (#[trigger] front[b]).poll.id by {
                assert(books[a].poll.id != books[b].poll.id);
            }
        }
        lemma_books_view_at(front, i);
        assert(front[i] == books[i]);
        assert(books[i].poll.id != books[books.len() - 1].poll.id);
    }
}

/// Where ids are distinct, replacing a book by one for the same poll replaces
/// what is found under that id and nothing else.
proof fn lemma_books_view_update(books: Seq<PollBook>, i: int, book: PollBook)
    requires
        distinct_ids(books),
        0 <= i < books.len(),
        book.poll.id == books[i].poll.id,
    ensures
        distinct_ids(books.update(i, book)),
        books_view(books.update(i, book)) =~= books_view(books).insert(book.poll.id, book@),
    decreases books.len(),
{
    let updated = books.update(i, book);
    assert(distinct_ids(updated)) by {
        assert forall|a: int, b: int| 0 <= a < b < updated.len() implies (#[trigger] updated[a]).poll.id
            != (#[trigger] updated[b]).poll.id by {
            assert(books[a].poll.id != books[b].poll.id);
        }
    }
    let front = books.drop_last();
    if i == books.len() - 1 {
        assert(updated.drop_last() =~= front);
    } else {
        assert(distinct_ids(front)) by {
            assert forall|a: int, b: int| 0 <= a < b < front.len() implies (#[trigger] front[a]).poll.id
                != (#[trigger] front[b]).poll.id by {
                assert(books[a].poll.id != books[b].poll.id);
            }
        }
        lemma_books_view_update(front, i, book);
        assert(updated.drop_last() =~= front.update(i, book));
        assert(books[i].poll.id != books[books.len() - 1].poll.id);
    }
}

/// The polls of a ledger with their options and votes.
pub struct Ledger {
    books: Vec<PollBook>,
}

impl View for Ledger {
    type V = LedgerView;

    closed spec fn view(&self) -> LedgerView {
        LedgerView { books: books_view(self.books@) }
    }
}

impl Ledger {
    /// Each poll id has one place in the store.
    pub closed spec fn keyed(&self) -> bool {
        distinct_ids(self.books@)
    }

    /// What every operation expects of the ledger and leaves behind.
    pub open spec fn wf(&self) -> bool {
        self.keyed() && self@.valid()
    }

    /// The ledger without any poll.
    pub fn new() -> (ledger: Ledger)
        ensures
            ledger.wf(),
            ledger@ == LedgerView::empty(),
    {
        let ledger = Ledger { books: Vec::new() };
        assert(ledger@ =~= LedgerView::empty());
        ledger
    }

    /// Where the book of the poll `id` is kept.
    fn find(&self, id: u64) -> (r: Option<usize>)
        requires
            self.keyed(),
        ensures
            match r {
                Some(i) => {
                    &&& i < self.books.len()
                    &&& self.books[i as int].poll.id == id
                    &&& self@.books.contains_key(id)
                    &&& self@.books[id] == self.books[i as int]@
                },
                None => !self@.books.contains_key(id),
            },
    {
        let mut i: usize = 0;
        while i < self.books.len()
            invariant
                i <= self.books.len(),
                distinct_ids(self.books@),
                forall|j: int| 0 <= j < i ==> (#[trigger] self.books[j]).poll.id != id,
            decreases self.books.len() - i,
        {
            if self.books[i].poll.id == id {
                proof {
                    lemma_books_view_at(self.books@, i as int);
                }
                return Some(i);
            }
            i += 1;
        }
        proof {
            lemma_books_view_keys(self.books@, id);
        }
        None
    }

    /// The poll `id`, if it was created.
    pub fn poll(&self, id: u64) -> (r: Option<&PollState>)
        requires
            self.wf(),
        ensures
            match r {
                Some(poll) => self@.books.contains_key(id) && poll@ == self@.books[id].poll,
                None => !self@.books.contains_key(id),
            },
    {
        match self.find(id) {
            Some(i) => Some(&self.books[i].poll),
            None => None,
        }
    }

    /// The option `ordinal` of the poll `poll_id`, if it was registered.
    pub fn poll_option(&self, poll_id: u64, ordinal: u64) -> (r: Option<&PollOptionState>)
        requires
            self.wf(),
        ensures
            match r {
                Some(option) => {
                    &&& self@.has_option(poll_id, ordinal)
                    &&& option@ == self@.books[poll_id].options[ordinal as int]
                },
                None => !self@.has_option(poll_id, ordinal),
            },
    {
        match self.find(poll_id) {
            Some(i) => {
                let book = &self.books[i];
                if ordinal < book.options.len() as u64 {
                    Some(&book.options[ordinal as usize])
                } else {
                    None
                }
            },
            None => None,
        }
    }

    /// Whether `voter` has voted on the poll `poll_id`.
    pub fn has_voted(&self, poll_id: u64, voter: &Identity) -> (r: bool)
        requires
            self.wf(),
        ensures
            r == self@.has_voted(poll_id, voter@),
    {
        match self.find(poll_id) {
            Some(i) => contains_identity(&self.books[i].voters, voter),
            None => false,
        }
    }
}

/// Creates the poll `id` for `admin` at the time `now`.
///
/// An id that is taken is refused with `AlreadyInitialized`. Otherwise the
/// request goes through the checks of [`execute`] on an empty record, and on
/// success the ledger holds the new poll, without options and votes.
pub fn init_poll(
    ledger: &mut Ledger,
    admin: Identity,
    now: u64,
    id: u64,
    desc: String,
    start: u64,
    duration: u64,
    is_public: bool,
    voters: Option<Vec<Identity>>,
) -> (r: Result<(), LedgerError>)
    requires
        old(ledger).wf(),
    ensures
        final(ledger).wf(),
        r == old(ledger)@.init_poll(
            admin@,
            now,
            id,
            desc@,
            start,
            duration,
            is_public,
            opt_identities_view(voters),
        ).0,
        final(ledger)@ == old(ledger)@.init_poll(
            admin@,
            now,
            id,
            desc@,
            start,
            duration,
            is_public,
            opt_identities_view(voters),
        ).1,
{
    proof {
        lemma_init_poll_valid(
            ledger@,
            admin@,
            now,
            id,
            desc@,
            start,
            duration,
            is_public,
            opt_identities_view(voters),
        );
    }
    if ledger.find(id).is_some() {
        return Err(LedgerError::Poll(PollError::AlreadyInitialized));
    }
    let mut poll = PollState::blank();
    let ctx = InitializePollCalldata { admin, poll_account: &mut poll };
    match execute(ctx, id, desc, start, duration, is_public, voters, now) {
        Err(e) => Err(LedgerError::Poll(e)),
        Ok(()) => {
            let ghost before = ledger.books@;
            let book = PollBook { poll, options: Vec::new(), voters: Vec::new() };
            assert(book@ =~= PollBookView::opened(book.poll@)) by {
                assert(book@.options =~= Seq::empty());
                assert(book@.voters =~= Seq::empty());
            }
            ledger.books.push(book);
            proof {
                assert(ledger.books@.drop_last() =~= before);
                lemma_books_view_keys(before, id);
                assert(ledger@ =~= old(ledger)@.with_book(id, book@));
            }
            Ok(())
        },
    }
}

/// Registers an option of the poll `poll_id`.
///
/// A poll that was never created is refused with `PollNotFound`, and a poll
/// whose counter cannot advance with `CounterOverflow`. Otherwise the request
/// goes through the checks of [`init_option`], and on success the option
/// takes the poll's next ordinal and the counter moves on, both or neither.
pub fn create_poll_option(
    ledger: &mut Ledger,
    poll_id: u64,
    option_name: String,
    option_desc: Option<String>,
) -> (r: Result<(), LedgerError>)
    requires
        old(ledger).wf(),
    ensures
        final(ledger).wf(),
        r == old(ledger)@.create_poll_option(
            poll_id,
            option_name@,
            opt_string_view(option_desc),
        ).0,
        final(ledger)@ == old(ledger)@.create_poll_option(
            poll_id,
            option_name@,
            opt_string_view(option_desc),
        ).1,
{
    proof {
        lemma_create_poll_option_valid(
            ledger@,
            poll_id,
            option_name@,
            opt_string_view(option_desc),
        );
    }
    let i = match ledger.find(poll_id) {
        Some(i) => i,
        None => {
            return Err(LedgerError::PollOption(PollOptionError::PollNotFound));
        },
    };
    if ledger.books[i].poll.options_index == u64::MAX {
        return Err(LedgerError::CounterOverflow);
    }
    let ghost before = ledger.books@;
    let book = &mut ledger.books[i];
    let mut option = PollOptionState::blank();
    let ctx = InitializePollOptionsCalldata {
        poll_account: &mut book.poll,
        poll_option_account: &mut option,
    };
    match init_option(ctx, option_name, option_desc) {
        Err(e) => {
            assert(ledger.books@ =~= before);
            Err(LedgerError::PollOption(e))
        },
        Ok(()) => {
            book.options.push(option);
            proof {
                let after = ledger.books@[i as int];
                assert(after@.options =~= before[i as int]@.options.push(option@));
                lemma_books_view_update(before, i as int, after);
                assert(ledger.books@ =~= before.update(i as int, after));
            }
            Ok(())
        },
    }
}

/// Adds `addresses` to the whitelist of the poll `poll_id` for `caller`.
///
/// A poll that is not in the ledger is refused with `RecordNotFound`.
/// Otherwise the request goes through the checks of [`authorize_voters`].
pub fn whitelist_voters(
    ledger: &mut Ledger,
    caller: Identity,
    poll_id: u64,
    addresses: Vec<Identity>,
) -> (r: Result<(), LedgerError>)
    requires
        old(ledger).wf(),
    ensures
        final(ledger).wf(),
        r == old(ledger)@.whitelist_voters(caller@, poll_id, identities_view(addresses@)).0,
        final(ledger)@ == old(ledger)@.whitelist_voters(
            caller@,
            poll_id,
            identities_view(addresses@),
        ).1,
{
    proof {
        lemma_whitelist_voters_valid(ledger@, caller@, poll_id, identities_view(addresses@));
    }
    let i = match ledger.find(poll_id) {
        Some(i) => i,
        None => {
            return Err(LedgerError::RecordNotFound);
        },
    };
    let ghost before = ledger.books@;
    let book = &mut ledger.books[i];
    let ctx = WhitelistVotersCalldata { caller, poll_account: &mut book.poll };
    match authorize_voters(ctx, addresses) {
        Err(e) => {
            assert(ledger.books@ =~= before);
            Err(LedgerError::Poll(e))
        },
        Ok(()) => {
            proof {
                let after = ledger.books@[i as int];
                lemma_books_view_update(before, i as int, after);
                assert(ledger.books@ =~= before.update(i as int, after));
            }
            Ok(())
        },
    }
}

/// Casts the vote of `voter` for the option `poll_option_id` of the poll
/// `poll_id`, at the time `now`.
///
/// A poll or an option that is not in the ledger is refused with
/// `RecordNotFound`, and an option whose tally cannot grow with
/// `CounterOverflow`. Otherwise the vote goes through the checks of
/// [`cast_vote`], with the voter's record as the ledger has it. On success
/// the voter is recorded and the option's tally grows by one, both or neither.
pub fn vote(ledger: &mut Ledger, voter: Identity, now: u64, poll_id: u64, poll_option_id: u64) -> (r:
    Result<(), LedgerError>)
    requires
        old(ledger).wf(),
    ensures
        final(ledger).wf(),
        r == old(ledger)@.vote(voter@, now, poll_id, poll_option_id).0,
        final(ledger)@ == old(ledger)@.vote(voter@, now, poll_id, poll_option_id).1,
{
    proof {
        lemma_vote_valid(ledger@, voter@, now, poll_id, poll_option_id);
    }
    let i = match ledger.find(poll_id) {
        Some(i) => i,
        None => {
            return Err(LedgerError::RecordNotFound);
        },
    };
    if poll_option_id >= ledger.books[i].options.len() as u64 {
        return Err(LedgerError::RecordNotFound);
    }
    let k = poll_option_id as usize;
    if ledger.books[i].options[k].count == u64::MAX {
        return Err(LedgerError::CounterOverflow);
    }
    let ghost before = ledger.books@;
    let book = &mut ledger.books[i];
    let mut record = VoterState { has_voted: contains_identity(&book.voters, &voter) };
    let ctx = CastVoteCalldata {
        voter,
        poll_account: &book.poll,
        poll_option_account: &mut book.options[k],
        voter_account: &mut record,
    };
    match cast_vote(ctx, now) {
        Err(e) => {
            proof {
                let after = ledger.books@[i as int];
                assert(after@.options =~= before[i as int]@.options);
                lemma_books_view_update(before, i as int, after);
                assert(ledger.books@ =~= before.update(i as int, after));
                assert(ledger@ =~= old(ledger)@);
            }
            Err(LedgerError::Vote(e))
        },
        Ok(()) => {
            book.voters.push(voter);
            proof {
                let after = ledger.books@[i as int];
                assert(after@.options =~= before[i as int]@.options.update(
                    k as int,
                    after.options@[k as int]@,
                ));
                assert(after@.voters =~= before[i as int]@.voters.push(voter@));
                lemma_books_view_update(before, i as int, after);
                assert(ledger.books@ =~= before.update(i as int, after));
            }
            Ok(())
        },
    }
}

} // verus!
