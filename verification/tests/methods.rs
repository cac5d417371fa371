//! The four operations on records held by the caller.

use voting::identity::Identity;
use voting::methods::cast_vote::{cast_vote, CastVoteCalldata};
use voting::methods::create_poll::{execute, InitializePollCalldata};
use voting::methods::create_poll_option::{init_option, InitializePollOptionsCalldata};
use voting::methods::whitelist::{authorize_voters, WhitelistVotersCalldata};
use voting::others::errors::{PollError, PollOptionError, VoteError};
use voting::state::poll::PollState;
use voting::state::poll_option::PollOptionState;
use voting::state::voter::VoterState;

fn who(tag: u8) -> Identity {
    Identity::new([tag; 32])
}

fn create(
    poll: &mut PollState,
    admin: Identity,
    id: u64,
    desc: String,
    start: u64,
    duration: u64,
    is_public: bool,
    list: Option<Vec<Identity>>,
    now: u64,
) -> Result<(), PollError> {
    let ctx = InitializePollCalldata { admin, poll_account: poll };
    execute(ctx, id, desc, start, duration, is_public, list, now)
}

fn register(
    poll: &mut PollState,
    option: &mut PollOptionState,
    title: String,
    description: Option<String>,
) -> Result<(), PollOptionError> {
    let ctx = InitializePollOptionsCalldata { poll_account: poll, poll_option_account: option };
    init_option(ctx, title, description)
}

fn allow(poll: &mut PollState, caller: Identity, ids: Vec<Identity>) -> Result<(), PollError> {
    authorize_voters(WhitelistVotersCalldata { caller, poll_account: poll }, ids)
}

fn ballot(
    voter: Identity,
    poll: &PollState,
    option: &mut PollOptionState,
    record: &mut VoterState,
    now: u64,
) -> Result<(), VoteError> {
    let ctx = CastVoteCalldata {
        voter,
        poll_account: poll,
        poll_option_account: option,
        voter_account: record,
    };
    cast_vote(ctx, now)
}

fn many(n: u8) -> Vec<Identity> {
    (0..n).map(|i| who(100 + i)).collect()
}

fn private_poll(admin: Identity, start: u64, duration: u64, list: Option<Vec<Identity>>) -> PollState {
    let mut poll = PollState::blank();
    let made = create(
        &mut poll,
        admin,
        7,
        String::from("Election for mayor"),
        start,
        duration,
        false,
        list,
        start,
    );
    assert_eq!(made, Ok(()));
    poll
}

#[test]
fn blank_poll_is_not_created() {
    let poll = PollState::blank();
    assert_eq!(poll.start_time, 0);
    assert_eq!(poll.options_index, 0);
    assert_eq!(poll.admin, who(0));
    assert!(poll.whitelisted_voters.is_none());
    assert!(!poll.can_public_vote);
}

#[test]
fn execute_writes_the_poll() {
    let mut poll = PollState::blank();
    let r = create(
        &mut poll,
        who(1),
        42,
        String::from("Election for mayor"),
        2000,
        90000,
        false,
        Some(vec![who(2), who(3)]),
        1500,
    );
    assert_eq!(r, Ok(()));
    assert_eq!(poll.id, 42);
    assert_eq!(poll.admin, who(1));
    assert_eq!(poll.description, "Election for mayor");
    assert_eq!(poll.start_time, 2000);
    assert_eq!(poll.duration, 90000);
    assert!(!poll.can_public_vote);
    assert_eq!(poll.whitelisted_voters, Some(vec![who(2), who(3)]));
    assert_eq!(poll.options_index, 0);
}

#[test]
fn execute_start_zero_means_now() {
    let mut poll = PollState::blank();
    let r = create(&mut poll, who(1), 1, String::from("0123456789abcdef"), 0, 86400, true, None, 777);
    assert_eq!(r, Ok(()));
    assert_eq!(poll.start_time, 777);
    assert!(poll.can_public_vote);
    assert!(poll.whitelisted_voters.is_none());
}

#[test]
fn execute_start_equal_to_now_is_kept() {
    let mut poll = PollState::blank();
    let r = create(&mut poll, who(1), 1, String::from("0123456789abcdef"), 500, 86400, true, None, 500);
    assert_eq!(r, Ok(()));
    assert_eq!(poll.start_time, 500);
}

#[test]
fn execute_start_in_the_past_is_refused() {
    let mut poll = PollState::blank();
    let r = create(&mut poll, who(1), 1, String::from("0123456789abcdef"), 499, 86400, true, None, 500);
    assert_eq!(r, Err(PollError::StartTimeExpired));
    assert_eq!(poll.start_time, 0);
    assert_eq!(poll.id, 0);
}

#[test]
fn execute_refuses_a_record_in_use() {
    let mut poll = private_poll(who(1), 1000, 90000, None);
    let r = create(&mut poll, who(9), 8, String::from("Another election here"), 0, 90000, true, None, 1000);
    assert_eq!(r, Err(PollError::AlreadyInitialized));
    assert_eq!(poll.id, 7);
    assert_eq!(poll.admin, who(1));
    assert_eq!(poll.description, "Election for mayor");
    assert!(!poll.can_public_vote);
}

#[test]
fn execute_in_use_comes_before_the_other_checks() {
    let mut poll = private_poll(who(1), 1000, 90000, None);
    let r = create(&mut poll, who(9), 8, String::from("short"), 5, 1, true, Some(many(20)), 1000);
    assert_eq!(r, Err(PollError::AlreadyInitialized));
}

#[test]
fn execute_description_of_15_bytes_is_refused() {
    let mut poll = PollState::blank();
    let r = create(&mut poll, who(1), 1, String::from("0123456789abcde"), 0, 90000, true, None, 10);
    assert_eq!(r, Err(PollError::DescUnderflow));
    assert_eq!(poll.start_time, 0);
}

#[test]
fn execute_description_of_16_bytes_is_accepted() {
    let mut poll = PollState::blank();
    let r = create(&mut poll, who(1), 1, String::from("0123456789abcdef"), 0, 90000, true, None, 10);
    assert_eq!(r, Ok(()));
}

#[test]
fn execute_description_length_counts_bytes() {
    // Eight two-byte characters are sixteen bytes.
    let mut poll = PollState::blank();
    let r = create(&mut poll, who(1), 1, String::from("éééééééé"), 0, 90000, true, None, 10);
    assert_eq!(r, Ok(()));
    let mut other = PollState::blank();
    let r = create(&mut other, who(1), 1, String::from("ééééééé"), 0, 90000, true, None, 10);
    assert_eq!(r, Err(PollError::DescUnderflow));
}

#[test]
fn execute_expired_start_comes_before_short_description() {
    let mut poll = PollState::blank();
    let r = create(&mut poll, who(1), 1, String::from("short"), 5, 90000, true, None, 10);
    assert_eq!(r, Err(PollError::StartTimeExpired));
}

#[test]
fn execute_duration_under_a_day_is_refused() {
    let mut poll = PollState::blank();
    let r = create(&mut poll, who(1), 1, String::from("0123456789abcdef"), 0, 86399, true, None, 10);
    assert_eq!(r, Err(PollError::DurationUnderflow));
    assert_eq!(poll.start_time, 0);
}

#[test]
fn execute_duration_of_a_day_is_accepted() {
    let mut poll = PollState::blank();
    let r = create(&mut poll, who(1), 1, String::from("0123456789abcdef"), 0, 86400, true, None, 10);
    assert_eq!(r, Ok(()));
    assert_eq!(poll.duration, 86400);
}

#[test]
fn execute_short_description_comes_before_short_duration() {
    let mut poll = PollState::blank();
    let r = create(&mut poll, who(1), 1, String::from("short"), 0, 5, true, None, 10);
    assert_eq!(r, Err(PollError::DescUnderflow));
}

#[test]
fn execute_whitelist_on_public_poll_is_refused() {
    let mut poll = PollState::blank();
    let r = create(
        &mut poll,
        who(1),
        1,
        String::from("0123456789abcdef"),
        0,
        90000,
        true,
        Some(vec![who(2)]),
        10,
    );
    assert_eq!(r, Err(PollError::PollIsPublic));
    assert_eq!(poll.start_time, 0);
}

#[test]
fn execute_public_comes_before_whitelist_size() {
    let mut poll = PollState::blank();
    let r = create(&mut poll, who(1), 1, String::from("0123456789abcdef"), 0, 90000, true, Some(many(17)), 10);
    assert_eq!(r, Err(PollError::PollIsPublic));
}

#[test]
fn execute_whitelist_of_17_is_refused() {
    let mut poll = PollState::blank();
    let r = create(&mut poll, who(1), 1, String::from("0123456789abcdef"), 0, 90000, false, Some(many(17)), 10);
    assert_eq!(r, Err(PollError::WhitelistThresholdOverflow));
    assert_eq!(poll.start_time, 0);
}

#[test]
fn execute_whitelist_of_16_is_accepted() {
    let mut poll = PollState::blank();
    let r = create(&mut poll, who(1), 1, String::from("0123456789abcdef"), 0, 90000, false, Some(many(16)), 10);
    assert_eq!(r, Ok(()));
    assert_eq!(poll.whitelisted_voters.map(|l| l.len()), Some(16));
}

#[test]
fn execute_at_time_zero_leaves_the_record_free() {
    // With a clock at 0 and no start given the poll starts at 0, which is
    // also the mark of a free record: the record can be written again.
    let mut poll = PollState::blank();
    let r = create(&mut poll, who(1), 1, String::from("0123456789abcdef"), 0, 90000, true, None, 0);
    assert_eq!(r, Ok(()));
    assert_eq!(poll.start_time, 0);
    let again = create(&mut poll, who(2), 2, String::from("0123456789abcdef"), 0, 90000, true, None, 5);
    assert_eq!(again, Ok(()));
    assert_eq!(poll.id, 2);
}

#[test]
fn init_option_assigns_the_next_ordinal() {
    let mut poll = private_poll(who(1), 1000, 90000, None);
    let mut first = PollOptionState::blank();
    let r = register(&mut poll, &mut first, String::from("Alice"), Some(String::from("The incumbent")));
    assert_eq!(r, Ok(()));
    assert_eq!(first.id, 0);
    assert_eq!(first.title, "Alice");
    assert_eq!(first.description, Some(String::from("The incumbent")));
    assert_eq!(first.count, 0);
    assert_eq!(poll.options_index, 1);

    let mut second = PollOptionState::blank();
    let r = register(&mut poll, &mut second, String::from("Bob"), None);
    assert_eq!(r, Ok(()));
    assert_eq!(second.id, 1);
    assert_eq!(second.description, None);
    assert_eq!(poll.options_index, 2);
    assert_eq!(poll.id, 7);
    assert_eq!(poll.start_time, 1000);
}

#[test]
fn init_option_on_a_free_record_is_refused() {
    let mut poll = PollState::blank();
    let mut option = PollOptionState::blank();
    let r = register(&mut poll, &mut option, String::from("Alice"), None);
    assert_eq!(r, Err(PollOptionError::PollNotFound));
    assert_eq!(poll.options_index, 0);
    assert_eq!(option.title, "");
}

#[test]
fn init_option_missing_poll_comes_before_title_checks() {
    let mut poll = PollState::blank();
    let mut option = PollOptionState::blank();
    let r = register(&mut poll, &mut option, String::new(), None);
    assert_eq!(r, Err(PollOptionError::PollNotFound));
}

#[test]
fn init_option_empty_title_is_refused() {
    let mut poll = private_poll(who(1), 1000, 90000, None);
    let mut option = PollOptionState::blank();
    let r = register(&mut poll, &mut option, String::new(), None);
    assert_eq!(r, Err(PollOptionError::EmptyOptionTitle));
    assert_eq!(poll.options_index, 0);
}

#[test]
fn init_option_title_of_17_bytes_is_refused() {
    let mut poll = private_poll(who(1), 1000, 90000, None);
    let mut option = PollOptionState::blank();
    let r = register(&mut poll, &mut option, String::from("0123456789abcdefg"), None);
    assert_eq!(r, Err(PollOptionError::OptionTitleOverflow));
    assert_eq!(poll.options_index, 0);
    assert_eq!(option.title, "");
}

#[test]
fn init_option_title_of_16_bytes_is_accepted() {
    let mut poll = private_poll(who(1), 1000, 90000, None);
    let mut option = PollOptionState::blank();
    let r = register(&mut poll, &mut option, String::from("0123456789abcdef"), None);
    assert_eq!(r, Ok(()));
    assert_eq!(option.title, "0123456789abcdef");
}

#[test]
fn init_option_description_of_257_bytes_is_refused() {
    let mut poll = private_poll(who(1), 1000, 90000, None);
    let mut option = PollOptionState::blank();
    let r = register(&mut poll, &mut option, String::from("Alice"), Some("x".repeat(257)));
    assert_eq!(r, Err(PollOptionError::OptionDescriptionOverflow));
    assert_eq!(poll.options_index, 0);
}

#[test]
fn init_option_description_of_256_bytes_is_accepted() {
    let mut poll = private_poll(who(1), 1000, 90000, None);
    let mut option = PollOptionState::blank();
    let r = register(&mut poll, &mut option, String::from("Alice"), Some("x".repeat(256)));
    assert_eq!(r, Ok(()));
    assert_eq!(option.description.map(|d| d.len()), Some(256));
}

#[test]
fn init_option_title_comes_before_description() {
    let mut poll = private_poll(who(1), 1000, 90000, None);
    let mut option = PollOptionState::blank();
    let r = register(&mut poll, &mut option, String::from("0123456789abcdefg"), Some("x".repeat(300)));
    assert_eq!(r, Err(PollOptionError::OptionTitleOverflow));
}

#[test]
fn authorize_voters_by_another_caller_is_refused() {
    let mut poll = private_poll(who(1), 1000, 90000, None);
    let r = allow(&mut poll, who(2), vec![who(3)]);
    assert_eq!(r, Err(PollError::Unauthorized));
    assert!(poll.whitelisted_voters.is_none());
}

#[test]
fn authorize_voters_on_public_poll_is_refused() {
    let mut poll = PollState::blank();
    assert_eq!(
        create(&mut poll, who(1), 1, String::from("0123456789abcdef"), 0, 90000, true, None, 10),
        Ok(())
    );
    let r = allow(&mut poll, who(1), vec![who(3)]);
    assert_eq!(r, Err(PollError::PollIsPublic));
    assert!(poll.whitelisted_voters.is_none());
}

#[test]
fn authorize_voters_caller_comes_before_public() {
    let mut poll = PollState::blank();
    assert_eq!(
        create(&mut poll, who(1), 1, String::from("0123456789abcdef"), 0, 90000, true, None, 10),
        Ok(())
    );
    let r = allow(&mut poll, who(2), vec![who(3)]);
    assert_eq!(r, Err(PollError::Unauthorized));
}

#[test]
fn authorize_voters_creates_the_whitelist() {
    let mut poll = private_poll(who(1), 1000, 90000, None);
    let r = allow(&mut poll, who(1), vec![who(3), who(4)]);
    assert_eq!(r, Ok(()));
    assert_eq!(poll.whitelisted_voters, Some(vec![who(3), who(4)]));
}

#[test]
fn authorize_voters_appends_in_order() {
    let mut poll = private_poll(who(1), 1000, 90000, Some(vec![who(2)]));
    let r = allow(&mut poll, who(1), vec![who(3), who(4)]);
    assert_eq!(r, Ok(()));
    assert_eq!(poll.whitelisted_voters, Some(vec![who(2), who(3), who(4)]));
    assert_eq!(poll.options_index, 0);
    assert_eq!(poll.start_time, 1000);
}

#[test]
fn authorize_voters_keeps_duplicates() {
    let mut poll = private_poll(who(1), 1000, 90000, Some(vec![who(2)]));
    let r = allow(&mut poll, who(1), vec![who(2), who(2)]);
    assert_eq!(r, Ok(()));
    assert_eq!(poll.whitelisted_voters, Some(vec![who(2), who(2), who(2)]));
}

#[test]
fn authorize_voters_seventeenth_is_refused() {
    let mut poll = private_poll(who(1), 1000, 90000, Some(many(16)));
    let r = allow(&mut poll, who(1), vec![who(50)]);
    assert_eq!(r, Err(PollError::WhitelistThresholdOverflow));
    assert_eq!(poll.whitelisted_voters, Some(many(16)));
}

#[test]
fn authorize_voters_fills_up_to_16() {
    let mut poll = private_poll(who(1), 1000, 90000, Some(many(10)));
    let r = allow(&mut poll, who(1), (0..6).map(|i| who(60 + i)).collect());
    assert_eq!(r, Ok(()));
    assert_eq!(poll.whitelisted_voters.as_ref().map(|l| l.len()), Some(16));
    let r = allow(&mut poll, who(1), Vec::new());
    assert_eq!(r, Ok(()));
    assert_eq!(poll.whitelisted_voters.as_ref().map(|l| l.len()), Some(16));
}

#[test]
fn authorize_voters_17_at_once_without_whitelist_is_refused() {
    let mut poll = private_poll(who(1), 1000, 90000, None);
    let r = allow(&mut poll, who(1), many(17));
    assert_eq!(r, Err(PollError::WhitelistThresholdOverflow));
    assert!(poll.whitelisted_voters.is_none());
}

#[test]
fn authorize_voters_empty_list_creates_empty_whitelist() {
    let mut poll = private_poll(who(1), 1000, 90000, None);
    let r = allow(&mut poll, who(1), Vec::new());
    assert_eq!(r, Ok(()));
    assert_eq!(poll.whitelisted_voters, Some(Vec::new()));
}

fn option_with(count: u64) -> PollOptionState {
    let mut option = PollOptionState::blank();
    option.id = 3;
    option.title = String::from("Alice");
    option.count = count;
    option
}

#[test]
fn cast_vote_counts_the_vote() {
    let poll = private_poll(who(1), 1000, 90000, Some(vec![who(2)]));
    let mut option = option_with(5);
    let mut record = VoterState::new();
    let r = ballot(who(2), &poll, &mut option, &mut record, 1000);
    assert_eq!(r, Ok(()));
    assert_eq!(option.count, 6);
    assert_eq!(option.id, 3);
    assert_eq!(option.title, "Alice");
    assert!(record.has_voted);
}

#[test]
fn cast_vote_second_vote_is_refused() {
    let poll = private_poll(who(1), 1000, 90000, Some(vec![who(2)]));
    let mut option = option_with(0);
    let mut record = VoterState::new();
    assert_eq!(ballot(who(2), &poll, &mut option, &mut record, 1000), Ok(()));
    let r = ballot(who(2), &poll, &mut option, &mut record, 1001);
    assert_eq!(r, Err(VoteError::AlreadyVoted));
    assert_eq!(option.count, 1);
    assert!(record.has_voted);
}

#[test]
fn cast_vote_unlisted_voter_is_refused() {
    let poll = private_poll(who(1), 1000, 90000, Some(vec![who(2)]));
    let mut option = option_with(0);
    let mut record = VoterState::new();
    let r = ballot(who(3), &poll, &mut option, &mut record, 1000);
    assert_eq!(r, Err(VoteError::Unauthorized));
    assert_eq!(option.count, 0);
    assert!(!record.has_voted);
}

#[test]
fn cast_vote_private_poll_without_whitelist_admits_nobody() {
    let poll = private_poll(who(1), 1000, 90000, None);
    let mut option = option_with(0);
    let mut record = VoterState::new();
    let r = ballot(who(1), &poll, &mut option, &mut record, 1000);
    assert_eq!(r, Err(VoteError::Unauthorized));
}

#[test]
fn cast_vote_identities_differ_in_one_byte() {
    let mut near = [2u8; 32];
    near[31] = 3;
    let poll = private_poll(who(1), 1000, 90000, Some(vec![who(2)]));
    let mut option = option_with(0);
    let mut record = VoterState::new();
    let r = ballot(Identity::new(near), &poll, &mut option, &mut record, 1000);
    assert_eq!(r, Err(VoteError::Unauthorized));
}

#[test]
fn cast_vote_public_poll_admits_everybody() {
    let mut poll = PollState::blank();
    assert_eq!(
        create(&mut poll, who(1), 1, String::from("0123456789abcdef"), 0, 90000, true, None, 10),
        Ok(())
    );
    let mut option = option_with(0);
    let mut record = VoterState::new();
    let r = ballot(who(77), &poll, &mut option, &mut record, 10);
    assert_eq!(r, Ok(()));
    assert_eq!(option.count, 1);
}

#[test]
fn cast_vote_before_start_is_refused() {
    let poll = private_poll(who(1), 1000, 90000, Some(vec![who(2)]));
    let mut option = option_with(0);
    let mut record = VoterState::new();
    let r = ballot(who(2), &poll, &mut option, &mut record, 999);
    assert_eq!(r, Err(VoteError::PollNotStarted));
    assert_eq!(option.count, 0);
    assert!(!record.has_voted);
}

#[test]
fn cast_vote_at_the_last_second_is_accepted() {
    let poll = private_poll(who(1), 1000, 90000, Some(vec![who(2)]));
    let mut option = option_with(0);
    let mut record = VoterState::new();
    let r = ballot(who(2), &poll, &mut option, &mut record, 91000);
    assert_eq!(r, Ok(()));
}

#[test]
fn cast_vote_after_the_end_is_refused() {
    let poll = private_poll(who(1), 1000, 90000, Some(vec![who(2)]));
    let mut option = option_with(0);
    let mut record = VoterState::new();
    let r = ballot(who(2), &poll, &mut option, &mut record, 91001);
    assert_eq!(r, Err(VoteError::PollHasEnded));
    assert_eq!(option.count, 0);
    assert!(!record.has_voted);
}

#[test]
fn cast_vote_window_that_passes_the_largest_time_never_ends() {
    let poll = private_poll(who(1), u64::MAX - 10, 90000, Some(vec![who(2)]));
    let mut option = option_with(0);
    let mut record = VoterState::new();
    let r = ballot(who(2), &poll, &mut option, &mut record, u64::MAX);
    assert_eq!(r, Ok(()));
}

#[test]
fn cast_vote_authorization_comes_before_timing() {
    let poll = private_poll(who(1), 1000, 90000, Some(vec![who(2)]));
    let mut option = option_with(0);
    let mut record = VoterState::new();
    assert_eq!(ballot(who(3), &poll, &mut option, &mut record, 5), Err(VoteError::Unauthorized));
    assert_eq!(
        ballot(who(3), &poll, &mut option, &mut record, 999_999),
        Err(VoteError::Unauthorized)
    );
}

#[test]
fn cast_vote_timing_comes_before_already_voted() {
    let poll = private_poll(who(1), 1000, 90000, Some(vec![who(2)]));
    let mut option = option_with(0);
    let mut record = VoterState { has_voted: true };
    assert_eq!(ballot(who(2), &poll, &mut option, &mut record, 5), Err(VoteError::PollNotStarted));
    assert_eq!(
        ballot(who(2), &poll, &mut option, &mut record, 999_999),
        Err(VoteError::PollHasEnded)
    );
    assert_eq!(ballot(who(2), &poll, &mut option, &mut record, 2000), Err(VoteError::AlreadyVoted));
}

#[test]
fn identity_same_compares_all_bytes() {
    let a = who(5);
    let mut bytes = [5u8; 32];
    assert!(a.same(&Identity::new(bytes)));
    bytes[0] = 6;
    assert!(!a.same(&Identity::new(bytes)));
    bytes[0] = 5;
    bytes[31] = 0;
    assert!(!a.same(&Identity::new(bytes)));
    assert_eq!(a.to_bytes(), [5u8; 32]);
    assert_eq!(a.to_vec(), vec![5u8; 32]);
}
