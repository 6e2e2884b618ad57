use prediction_poll::errors::ProgramError;
use prediction_poll::handlers::{
    finish_poll, pay_out, PayoutEntry, PollAccount, TallyAccount,
};

fn poll_with_marker(key: u64, marker: u8, escrow: u64) -> PollAccount {
    let mut data = vec![0u8; 8];
    data[0] = marker;
    PollAccount { key, data, escrow }
}

fn winners_tally(poll_key: u64, winners: Vec<u64>) -> TallyAccount {
    TallyAccount { data_type: 3, poll_key, entries: winners }
}

#[test]
fn finish_tied_poll_is_poll_cannot_be_even() {
    let mut poll = poll_with_marker(7, 1, 50);
    let before = poll.clone();
    let r = finish_poll(&mut poll, 6, 6);
    assert_eq!(r, Err(ProgramError::PollCannotBeEven));
    assert_eq!(poll, before);
}

#[test]
fn finish_open_poll_marks_it_finished() {
    let mut poll = poll_with_marker(7, 1, 50);
    let r = finish_poll(&mut poll, 6, 4);
    assert_eq!(r, Ok(()));
    assert_eq!(poll.data[0], 2);
    assert_eq!(poll.escrow, 50);
}

#[test]
fn payout_on_open_poll_is_poll_not_finished() {
    let mut poll = poll_with_marker(7, 1, 50);
    let tally = winners_tally(7, vec![21]);
    let list = vec![PayoutEntry { wager_key: 21, amount: 50 }];
    let r = pay_out(&mut poll, &tally, &list);
    assert_eq!(r, Err(ProgramError::PollNotFinished));
    assert_eq!(poll.escrow, 50);
}

#[test]
fn payout_of_empty_escrow_is_poll_has_no_funds() {
    let mut poll = poll_with_marker(7, 2, 0);
    let tally = winners_tally(7, vec![21]);
    let list = vec![PayoutEntry { wager_key: 21, amount: 1 }];
    let r = pay_out(&mut poll, &tally, &list);
    assert_eq!(r, Err(ProgramError::PollHasNoFunds));
}

#[test]
fn payout_with_foreign_tally_is_invalid_tally_key() {
    let mut poll = poll_with_marker(7, 2, 50);
    let tally = winners_tally(9, vec![21]);
    let list = vec![PayoutEntry { wager_key: 21, amount: 50 }];
    let r = pay_out(&mut poll, &tally, &list);
    assert_eq!(r, Err(ProgramError::InvalidTallyKey));
    assert_eq!(poll.escrow, 50);
}

#[test]
fn payout_list_of_wrong_length_is_invalid_payout_list() {
    // The list has two entries but the tally records one winning wager.
    let mut poll = poll_with_marker(7, 2, 50);
    let before = poll.clone();
    let tally = winners_tally(7, vec![21]);
    let list = vec![
        PayoutEntry { wager_key: 21, amount: 25 },
        PayoutEntry { wager_key: 22, amount: 25 },
    ];
    let r = pay_out(&mut poll, &tally, &list);
    assert_eq!(r, Err(ProgramError::InvalidPayoutList));
    // Zero funds were transferred.
    assert_eq!(poll, before);
}

#[test]
fn payout_to_wrong_recipient_is_cannot_payout_to_losers() {
    let mut poll = poll_with_marker(7, 2, 50);
    let tally = winners_tally(7, vec![21, 22]);
    let list = vec![
        PayoutEntry { wager_key: 21, amount: 25 },
        PayoutEntry { wager_key: 99, amount: 25 },
    ];
    let r = pay_out(&mut poll, &tally, &list);
    assert_eq!(r, Err(ProgramError::CannotPayoutToLosers));
    assert_eq!(poll.escrow, 50);
}

#[test]
fn payout_owing_a_winner_nothing_is_wager_has_no_funds() {
    let mut poll = poll_with_marker(7, 2, 50);
    let tally = winners_tally(7, vec![21, 22]);
    let list = vec![
        PayoutEntry { wager_key: 21, amount: 50 },
        PayoutEntry { wager_key: 22, amount: 0 },
    ];
    let r = pay_out(&mut poll, &tally, &list);
    assert_eq!(r, Err(ProgramError::WagerHasNoFunds));
    assert_eq!(poll.escrow, 50);
}

#[test]
fn payout_not_matching_escrow_is_invalid_payout_list() {
    let mut poll = poll_with_marker(7, 2, 50);
    let tally = winners_tally(7, vec![21, 22]);
    let list = vec![
        PayoutEntry { wager_key: 21, amount: 20 },
        PayoutEntry { wager_key: 22, amount: 20 },
    ];
    let r = pay_out(&mut poll, &tally, &list);
    assert_eq!(r, Err(ProgramError::InvalidPayoutList));
    assert_eq!(poll.escrow, 50);
}

#[test]
fn payout_overflowing_escrow_is_invalid_payout_list() {
    let mut poll = poll_with_marker(7, 2, 50);
    let tally = winners_tally(7, vec![21, 22]);
    let list = vec![
        PayoutEntry { wager_key: 21, amount: u64::MAX },
        PayoutEntry { wager_key: 22, amount: u64::MAX },
    ];
    let r = pay_out(&mut poll, &tally, &list);
    assert_eq!(r, Err(ProgramError::InvalidPayoutList));
    assert_eq!(poll.escrow, 50);
}

#[test]
fn payout_success_releases_whole_escrow() {
    let mut poll = poll_with_marker(7, 2, 50);
    let tally = winners_tally(7, vec![21, 22]);
    let list = vec![
        PayoutEntry { wager_key: 21, amount: 30 },
        PayoutEntry { wager_key: 22, amount: 20 },
    ];
    let r = pay_out(&mut poll, &tally, &list);
    assert_eq!(r, Ok(50));
    assert_eq!(poll.escrow, 0);
    assert_eq!(poll.data[0], 2);
}

#[test]
fn payout_of_empty_winner_list_with_funds_is_invalid_payout_list() {
    // A finished poll with funds but no recorded winners cannot distribute
    // its escrow: the empty list's total of zero never matches the escrow.
    let mut poll = poll_with_marker(7, 2, 50);
    let tally = winners_tally(7, vec![]);
    let list: Vec<PayoutEntry> = vec![];
    let r = pay_out(&mut poll, &tally, &list);
    assert_eq!(r, Err(ProgramError::InvalidPayoutList));
    assert_eq!(poll.escrow, 50);
}
