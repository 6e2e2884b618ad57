use prediction_poll::errors::ProgramError;
use prediction_poll::handlers::{
    create_poll, decode_command, register_poll, Command, PollAccount, PollRegistry,
};

fn fresh_poll(key: u64) -> PollAccount {
    PollAccount { key, data: vec![0; 8], escrow: 0 }
}

#[test]
fn create_poll_on_used_account_is_account_not_new() {
    // A non-zero byte already sits at the designated marker offset.
    let mut poll = PollAccount { key: 7, data: vec![9, 0, 0, 0, 0, 0, 0, 0], escrow: 0 };
    let mut registry = PollRegistry { keys: vec![] };
    let before = poll.clone();

    let r = create_poll(&mut poll, &mut registry, true);

    assert_eq!(r, Err(ProgramError::AccountNotNew));
    // The handler mutated neither the poll account nor the other account
    // (the registry) before returning.
    assert_eq!(poll, before);
    assert_eq!(registry, PollRegistry { keys: vec![] });
}

#[test]
fn create_poll_without_signer_is_missing_signer() {
    let mut poll = fresh_poll(7);
    let mut registry = PollRegistry { keys: vec![] };
    let r = create_poll(&mut poll, &mut registry, false);
    assert_eq!(r, Err(ProgramError::MissingSigner));
    assert_eq!(poll, fresh_poll(7));
}

#[test]
fn create_poll_on_small_account_is_account_data_too_small() {
    let mut poll = PollAccount { key: 7, data: vec![0, 0, 0], escrow: 0 };
    let mut registry = PollRegistry { keys: vec![] };
    let r = create_poll(&mut poll, &mut registry, true);
    assert_eq!(r, Err(ProgramError::AccountDataTooSmall));
}

#[test]
fn create_poll_success_marks_account_open_and_indexes_key() {
    let mut poll = fresh_poll(7);
    let mut registry = PollRegistry { keys: vec![3] };
    let r = create_poll(&mut poll, &mut registry, true);
    assert_eq!(r, Ok(()));
    assert_eq!(poll.data[0], 1);
    assert_eq!(registry.keys, vec![3, 7]);
}

#[test]
fn register_existing_key_is_poll_already_created() {
    let mut registry = PollRegistry { keys: vec![3, 7, 11] };
    let r = register_poll(&mut registry, 7);
    assert_eq!(r, Err(ProgramError::PollAlreadyCreated));
    assert_eq!(registry.keys, vec![3, 7, 11]);
}

#[test]
fn register_into_full_index_is_max_poll_capacity() {
    let keys: Vec<u64> = (0..32).collect();
    let mut registry = PollRegistry { keys: keys.clone() };
    let r = register_poll(&mut registry, 99);
    assert_eq!(r, Err(ProgramError::MaxPollCapacity));
    assert_eq!(registry.keys, keys);
}

#[test]
fn decode_empty_payload_is_invalid_input() {
    let payload: Vec<u8> = vec![];
    assert_eq!(decode_command(&payload), Err(ProgramError::InvalidInput));
}

#[test]
fn decode_unknown_byte_is_invalid_command() {
    let payload: Vec<u8> = vec![200, 1, 2];
    assert_eq!(decode_command(&payload), Err(ProgramError::InvalidCommand));
}

#[test]
fn decode_recognized_commands() {
    assert_eq!(decode_command(&vec![0]), Ok(Command::CreatePoll));
    assert_eq!(decode_command(&vec![1, 9]), Ok(Command::PlaceWager));
    assert_eq!(decode_command(&vec![2]), Ok(Command::FinishPoll));
    assert_eq!(decode_command(&vec![3]), Ok(Command::RecordTally));
    assert_eq!(decode_command(&vec![4]), Ok(Command::PayOut));
}
