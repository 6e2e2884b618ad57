use prediction_poll::errors::ProgramError;
use prediction_poll::handlers::{
    check_key, place_wager, record_tally, PollAccount, TallyAccount,
};

fn poll_with_marker(key: u64, marker: u8, escrow: u64) -> PollAccount {
    let mut data = vec![0u8; 8];
    data[0] = marker;
    PollAccount { key, data, escrow }
}

#[test]
fn wager_on_finished_poll_is_poll_already_finished() {
    let mut poll = poll_with_marker(7, 2, 44);
    let mut stake: u64 = 5;
    let r = place_wager(&mut poll, &mut stake, 7, 10);
    assert_eq!(r, Err(ProgramError::PollAlreadyFinished));
    // The escrow balance is unchanged, and so is the wager's stake.
    assert_eq!(poll.escrow, 44);
    assert_eq!(stake, 5);
}

#[test]
fn wager_on_uncreated_poll_is_invalid_account() {
    let mut poll = poll_with_marker(7, 0, 0);
    let mut stake: u64 = 0;
    let r = place_wager(&mut poll, &mut stake, 7, 10);
    assert_eq!(r, Err(ProgramError::InvalidAccount));
}

#[test]
fn wager_on_unrecognized_marker_is_invalid_data_type() {
    let mut poll = poll_with_marker(7, 77, 0);
    let mut stake: u64 = 0;
    let r = place_wager(&mut poll, &mut stake, 7, 10);
    assert_eq!(r, Err(ProgramError::InvalidDataType));
}

#[test]
fn wager_with_wrong_poll_key_is_invalid_key() {
    let mut poll = poll_with_marker(7, 1, 0);
    let mut stake: u64 = 0;
    let r = place_wager(&mut poll, &mut stake, 8, 10);
    assert_eq!(r, Err(ProgramError::InvalidKey));
    assert_eq!(poll.escrow, 0);
}

#[test]
fn wager_of_nothing_is_invalid_input() {
    let mut poll = poll_with_marker(7, 1, 30);
    let mut stake: u64 = 0;
    let r = place_wager(&mut poll, &mut stake, 7, 0);
    assert_eq!(r, Err(ProgramError::InvalidInput));
    assert_eq!(poll.escrow, 30);
}

#[test]
fn wager_success_moves_amount_into_escrow() {
    let mut poll = poll_with_marker(7, 1, 30);
    let mut stake: u64 = 2;
    let r = place_wager(&mut poll, &mut stake, 7, 10);
    assert_eq!(r, Ok(()));
    assert_eq!(poll.escrow, 40);
    assert_eq!(stake, 12);
}

#[test]
fn check_key_mismatch_is_invalid_key() {
    assert_eq!(check_key(7, 8), Err(ProgramError::InvalidKey));
    assert_eq!(check_key(7, 7), Ok(()));
}

#[test]
fn tally_on_wrong_record_type_is_invalid_data_type() {
    let mut tally = TallyAccount { data_type: 1, poll_key: 7, entries: vec![] };
    let r = record_tally(&mut tally, 7, 21);
    assert_eq!(r, Err(ProgramError::InvalidDataType));
}

#[test]
fn tally_for_other_poll_is_invalid_tally_key() {
    let mut tally = TallyAccount { data_type: 3, poll_key: 9, entries: vec![] };
    let r = record_tally(&mut tally, 7, 21);
    assert_eq!(r, Err(ProgramError::InvalidTallyKey));
    assert_eq!(tally.entries, Vec::<u64>::new());
}

#[test]
fn tally_at_full_capacity_is_max_tally_capacity() {
    let full: Vec<u64> = (0..16).collect();
    let mut tally = TallyAccount { data_type: 3, poll_key: 7, entries: full.clone() };
    let r = record_tally(&mut tally, 7, 21);
    assert_eq!(r, Err(ProgramError::MaxTallyCapacity));
    // No entry, not even a partial one, was written.
    assert_eq!(tally.entries, full);
}

#[test]
fn tally_success_appends_the_wager_key() {
    let mut tally = TallyAccount { data_type: 3, poll_key: 7, entries: vec![11] };
    let r = record_tally(&mut tally, 7, 21);
    assert_eq!(r, Ok(()));
    assert_eq!(tally.entries, vec![11, 21]);
}
