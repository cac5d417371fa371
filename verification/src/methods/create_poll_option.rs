//! Registering an option of a poll.

use vstd::prelude::*;
use crate::others::constants::{byte_len, MAX_POLL_DESC_CHAR, MAX_POLL_OPTION_TITLE_CHAR};
use crate::others::errors::PollOptionError;
use crate::state::poll::{PollState, PollView};
use crate::state::poll_option::{opt_string_view, PollOptionState, PollOptionView};

verus! {

/// The first reason, in the order of the checks, for which an option is
/// refused; `None` when it is accepted.
pub open spec fn option_rejection(
    poll: PollView,
    title: Seq<char>,
    description: Option<Seq<char>>,
) -> Option<PollOptionError> {
    if !poll.is_created() {
        Some(PollOptionError::PollNotFound)
    } else if title.len() == 0 {
        Some(PollOptionError::EmptyOptionTitle)
    } else if byte_len(title) > MAX_POLL_OPTION_TITLE_CHAR {
        Some(PollOptionError::OptionTitleOverflow)
    } else if description is Some && byte_len(description->0) > MAX_POLL_DESC_CHAR {
        Some(PollOptionError::OptionDescriptionOverflow)
    } else {
        None
    }
}

/// The option that takes the ordinal `ordinal`, with no votes yet.
pub open spec fn created_option(
    ordinal: u64,
    title: Seq<char>,
    description: Option<Seq<char>>,
) -> PollOptionView {
    PollOptionView { id: ordinal, title, description, count: 0 }
}

/// The poll after one more option was registered.
pub open spec fn advanced_poll(poll: PollView) -> PollView {
    PollView { options_index: (poll.options_index + 1) as u64, ..poll }
}

/// What option registration is handed: the poll, and the record that the
/// option is to be written to.
pub struct InitializePollOptionsCalldata<'a> {
    pub poll_account: &'a mut PollState,
    pub poll_option_account: &'a mut PollOptionState,
}

/// Registers an option of the poll of `ctx` in the option record of `ctx`.
///
/// The option is refused, and both records left as they were, for the first of
/// these that holds: no poll was created in the poll record; the title is
/// empty; the title has more than 16 bytes; a description has more than 256
/// bytes. Otherwise the option takes the poll's next ordinal, and the poll's
/// counter moves on by one in the same step.
///
/// The counter must be able to move on: a poll at the largest ordinal is left
/// to the caller.
pub fn init_option(
    ctx: InitializePollOptionsCalldata<'_>,
    option_name: String,
    option_desc: Option<String>,
) -> (r: Result<(), PollOptionError>)
    requires
        old(ctx.poll_account).options_index < u64::MAX,
    ensures
        match option_rejection(old(ctx.poll_account)@, option_name@, opt_string_view(option_desc)) {
            Some(e) => {
                &&& r == Err::<(), PollOptionError>(e)
                &&& *final(ctx.poll_account) == *old(ctx.poll_account)
                &&& *final(ctx.poll_option_account) == *old(ctx.poll_option_account)
            },
            None => {
                &&& r is Ok
                &&& final(ctx.poll_option_account)@ == created_option(
                    old(ctx.poll_account).options_index,
                    option_name@,
                    opt_string_view(option_desc),
                )
                &&& final(ctx.poll_account)@ == advanced_poll(old(ctx.poll_account)@)
            },
        },
{
    let poll = ctx.poll_account;

    if poll.start_time == 0 {
        return Err(PollOptionError::PollNotFound);
    }
    if option_name.as_str().is_empty() {
        return Err(PollOptionError::EmptyOptionTitle);
    } else if option_name.as_str().as_bytes().len() > MAX_POLL_OPTION_TITLE_CHAR {
        return Err(PollOptionError::OptionTitleOverflow);
    }
    match &option_desc {
        Some(desc) => {
            if desc.as_str().as_bytes().len() > MAX_POLL_DESC_CHAR {
                return Err(PollOptionError::OptionDescriptionOverflow);
            }
        },
        None => {},
    }

    *ctx.poll_option_account = PollOptionState {
        id: poll.options_index,
        title: option_name,
        description: option_desc,
        count: 0,
    };
    poll.options_index += 1;
    Ok(())
}

} // verus!
