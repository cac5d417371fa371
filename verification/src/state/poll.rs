//! The root record of a poll.

use vstd::prelude::*;
use crate::identity::{identities_view, Identity};
use crate::others::constants::MAX_POLL_AUTHORIZED_VOTERS;

verus! {

/// A poll's rules. `start_time` is 0 until the poll is created. Only
/// `whitelisted_voters` and `options_index` change after creation.
#[derive(Debug, PartialEq, Eq)]
pub struct PollState {
    pub id: u64,
    pub admin: Identity,
    pub description: String,
    pub start_time: u64,
    pub duration: u64,
    pub can_public_vote: bool,
    pub whitelisted_voters: Option<Vec<Identity>>,
    pub options_index: u64,
}

/// What a [`PollState`] holds, as mathematical values.
pub struct PollView {
    pub id: u64,
    pub admin: Seq<u8>,
    pub description: Seq<char>,
    pub start_time: u64,
    pub duration: u64,
    pub can_public_vote: bool,
    pub whitelisted_voters: Option<Seq<Seq<u8>>>,
    pub options_index: u64,
}

/// The key bytes of an optional list of identities.
pub open spec fn opt_identities_view(ids: Option<Vec<Identity>>) -> Option<Seq<Seq<u8>>> {
    match ids {
        Some(list) => Some(identities_view(list@)),
        None => None,
    }
}

impl View for PollState {
    type V = PollView;

    open spec fn view(&self) -> PollView {
        PollView {
            id: self.id,
            admin: self.admin@,
            description: self.description@,
            start_time: self.start_time,
            duration: self.duration,
            can_public_vote: self.can_public_vote,
            whitelisted_voters: opt_identities_view(self.whitelisted_voters),
            options_index: self.options_index,
        }
    }
}

impl PollView {
    /// The record at an id under which no poll was created.
    pub open spec fn blank() -> PollView {
        PollView {
            id: 0,
            admin: Seq::new(32, |i: int| 0u8),
            description: Seq::empty(),
            start_time: 0,
            duration: 0,
            can_public_vote: false,
            whitelisted_voters: None,
            options_index: 0,
        }
    }

    /// Whether a poll was created in this record.
    pub open spec fn is_created(self) -> bool {
        self.start_time != 0
    }

    /// A whitelist belongs to a private poll and stays within its bound.
    pub open spec fn whitelist_bounded(self) -> bool {
        match self.whitelisted_voters {
            Some(list) => !self.can_public_vote && list.len() <= MAX_POLL_AUTHORIZED_VOTERS,
            None => true,
        }
    }
}

impl PollState {
    /// An empty record, as the store hands it out for a new poll.
    pub fn blank() -> (poll: PollState)
        ensures
            poll@ == PollView::blank(),
    {
        let poll = PollState {
            id: 0,
            admin: Identity::new([0u8; 32]),
            description: String::new(),
            start_time: 0,
            duration: 0,
            can_public_vote: false,
            whitelisted_voters: None,
            options_index: 0,
        };
        assert(poll.admin@ =~= Seq::new(32, |i: int| 0u8));
        poll
    }
}

} // verus!
