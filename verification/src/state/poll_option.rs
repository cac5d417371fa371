//! One choice of a poll, with its tally.

use vstd::prelude::*;

verus! {

/// An option of a poll. `id` is the option's ordinal within its poll and
/// `count` the number of votes it has received.
#[derive(Debug, PartialEq, Eq)]
pub struct PollOptionState {
    pub id: u64,
    pub title: String,
    pub description: Option<String>,
    pub count: u64,
}

/// What a [`PollOptionState`] holds, as mathematical values.
pub struct PollOptionView {
    pub id: u64,
    pub title: Seq<char>,
    pub description: Option<Seq<char>>,
    pub count: u64,
}

/// The characters of an optional string.
pub open spec fn opt_string_view(s: Option<String>) -> Option<Seq<char>> {
    match s {
        Some(text) => Some(text@),
        None => None,
    }
}

impl View for PollOptionState {
    type V = PollOptionView;

    open spec fn view(&self) -> PollOptionView {
        PollOptionView {
            id: self.id,
            title: self.title@,
            description: opt_string_view(self.description),
            count: self.count,
        }
    }
}

impl PollOptionView {
    /// The record before an option is written to it.
    pub open spec fn blank() -> PollOptionView {
        PollOptionView { id: 0, title: Seq::empty(), description: None, count: 0 }
    }
}

impl PollOptionState {
    /// An empty record, as the store hands it out for a new option.
    pub fn blank() -> (option: PollOptionState)
        ensures
            option@ == PollOptionView::blank(),
    {
        PollOptionState { id: 0, title: String::new(), description: None, count: 0 }
    }
}

} // verus!
