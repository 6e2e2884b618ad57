//! Poll-lifecycle instruction handlers.
//!
//! Each handler validates the preconditions of its instruction and raises
//! exactly one failure variant — the most specific applicable one — per
//! detected violation. A handler that receives a failure from a subordinate
//! check propagates it unchanged, unless a doc comment states the more
//! specific variant it narrows the failure to. On every failing path the
//! handler leaves every account exactly as it found it, matching the host's
//! all-or-nothing transaction semantics; a success means the instruction's
//! whole mutation has happened.

use vstd::prelude::*;

use crate::errors::{ProgramError, ProgramResult};

verus! {

/// Offset of the lifecycle marker byte within a poll account's data.
pub const MARKER_OFFSET: usize = 0;

/// Fewest bytes a poll account must hold for the poll record.
pub const MIN_POLL_DATA: usize = 8;

/// Marker byte of a freshly allocated, not yet created poll account.
pub const POLL_STATE_FRESH: u8 = 0;

/// Marker byte of a created poll that still accepts wagers.
pub const POLL_STATE_OPEN: u8 = 1;

/// Marker byte of a finished poll.
pub const POLL_STATE_FINISHED: u8 = 2;

/// Record-type byte that identifies a tally account's data.
pub const TALLY_DATA_TYPE: u8 = 3;

/// Most votes a tally record can hold.
pub const MAX_TALLY_ENTRIES: usize = 16;

/// Most polls the poll index can hold.
pub const MAX_POLL_COUNT: usize = 32;

/// The on-ledger record of one prediction poll, with its escrowed funds.
#[derive(Clone, Debug, PartialEq, Eq)]
pub struct PollAccount {
    /// The poll account's address.
    pub key: u64,
    /// Raw account data; the byte at [`MARKER_OFFSET`] is the lifecycle marker.
    pub data: Vec<u8>,
    /// Funds escrowed by this poll's wagers.
    pub escrow: u64,
}

/// The on-ledger record counting votes for a poll's outcomes.
#[derive(Clone, Debug, PartialEq, Eq)]
pub struct TallyAccount {
    /// Record-type byte; a tally account carries [`TALLY_DATA_TYPE`].
    pub data_type: u8,
    /// Address of the poll this tally belongs to.
    pub poll_key: u64,
    /// Keys of the wager accounts recorded so far, in recording order.
    pub entries: Vec<u64>,
}

/// The index of created polls.
#[derive(Clone, Debug, PartialEq, Eq)]
pub struct PollRegistry {
    /// Keys of the created polls, in creation order.
    pub keys: Vec<u64>,
}

/// One entry of a payout list: a winning wager account and the amount owed
/// to it.
#[derive(Clone, Copy, Debug, PartialEq, Eq, Structural)]
pub struct PayoutEntry {
    /// Address of the wager account to pay.
    pub wager_key: u64,
    /// Funds owed to it.
    pub amount: u64,
}

impl PollAccount {
    /// Whether the account is large enough to hold the poll record.
    pub open spec fn is_sized(self) -> bool {
        self.data@.len() >= MIN_POLL_DATA
    }

    /// The lifecycle marker byte.
    pub open spec fn marker(self) -> u8
        recommends
            self.is_sized(),
    {
        self.data@[MARKER_OFFSET as int]
    }
}

/// What checking a key against the expected one yields: the generic
/// [`ProgramError::InvalidKey`] on a mismatch.
pub open spec fn check_key_outcome(expected: u64, actual: u64) -> ProgramResult<()> {
    if actual != expected {
        Err(ProgramError::InvalidKey)
    } else {
        Ok(())
    }
}

/// Checks a supplied key against the expected account key.
pub fn check_key(expected: u64, actual: u64) -> (r: ProgramResult<()>)
    ensures
        r == check_key_outcome(expected, actual),
{
    if actual != expected {
        Err(ProgramError::InvalidKey)
    } else {
        Ok(())
    }
}

/// What validating a to-be-created poll account yields: the account must be
/// large enough for the record and must not hold data already.
pub open spec fn fresh_account_outcome(poll: PollAccount) -> ProgramResult<()> {
    if !poll.is_sized() {
        Err(ProgramError::AccountDataTooSmall)
    } else if poll.marker() != POLL_STATE_FRESH {
        Err(ProgramError::AccountNotNew)
    } else {
        Ok(())
    }
}

/// Checks that a poll account is fit to receive a new poll record.
pub fn check_account_fresh(poll: &PollAccount) -> (r: ProgramResult<()>)
    ensures
        r == fresh_account_outcome(*poll),
{
    if poll.data.len() < MIN_POLL_DATA {
        Err(ProgramError::AccountDataTooSmall)
    } else if poll.data[MARKER_OFFSET] != POLL_STATE_FRESH {
        Err(ProgramError::AccountNotNew)
    } else {
        Ok(())
    }
}

/// What validating an existing poll account for wagering yields: the
/// account must hold a created, still-open poll record.
pub open spec fn open_poll_outcome(poll: PollAccount) -> ProgramResult<()> {
    if !poll.is_sized() {
        Err(ProgramError::AccountDataTooSmall)
    } else if poll.marker() == POLL_STATE_FRESH {
        Err(ProgramError::InvalidAccount)
    } else if poll.marker() == POLL_STATE_FINISHED {
        Err(ProgramError::PollAlreadyFinished)
    } else if poll.marker() != POLL_STATE_OPEN {
        Err(ProgramError::InvalidDataType)
    } else {
        Ok(())
    }
}

/// Checks that a poll account holds a created, still-open poll record.
pub fn check_poll_open(poll: &PollAccount) -> (r: ProgramResult<()>)
    ensures
        r == open_poll_outcome(*poll),
{
    if poll.data.len() < MIN_POLL_DATA {
        Err(ProgramError::AccountDataTooSmall)
    } else if poll.data[MARKER_OFFSET] == POLL_STATE_FRESH {
        Err(ProgramError::InvalidAccount)
    } else if poll.data[MARKER_OFFSET] == POLL_STATE_FINISHED {
        Err(ProgramError::PollAlreadyFinished)
    } else if poll.data[MARKER_OFFSET] != POLL_STATE_OPEN {
        Err(ProgramError::InvalidDataType)
    } else {
        Ok(())
    }
}

/// What registering a poll key in the index yields.
pub open spec fn register_poll_outcome(registry: PollRegistry, key: u64) -> ProgramResult<()> {
    if registry.keys@.contains(key) {
        Err(ProgramError::PollAlreadyCreated)
    } else if registry.keys@.len() >= MAX_POLL_COUNT {
        Err(ProgramError::MaxPollCapacity)
    } else {
        Ok(())
    }
}

/// Whether the registry already indexes the given poll key.
pub fn registry_contains(registry: &PollRegistry, key: u64) -> (found: bool)
    ensures
        found == registry.keys@.contains(key),
{
    let mut i: usize = 0;
    while i < registry.keys.len()
        invariant
            i <= registry.keys@.len(),
            forall|j: int| 0 <= j < i ==> registry.keys@[j] != key,
        decreases registry.keys@.len() - i,
    {
        if registry.keys[i] == key {
            return true;
        }
        i += 1;
    }
    false
}

/// Adds a newly created poll's key to the index, raising
/// [`ProgramError::PollAlreadyCreated`] for a key already present and
/// [`ProgramError::MaxPollCapacity`] for a full index.
pub fn register_poll(registry: &mut PollRegistry, key: u64) -> (r: ProgramResult<()>)
    ensures
        r == register_poll_outcome(*old(registry), key),
        r is Err ==> *final(registry) == *old(registry),
        r is Ok ==> final(registry).keys@ =~= old(registry).keys@.push(key),
{
    if registry_contains(registry, key) {
        Err(ProgramError::PollAlreadyCreated)
    } else if registry.keys.len() >= MAX_POLL_COUNT {
        Err(ProgramError::MaxPollCapacity)
    } else {
        registry.keys.push(key);
        Ok(())
    }
}

/// What the poll-creation instruction yields: the creator must have signed,
/// the target account must be fresh and large enough, and the index must
/// accept the new key.
pub open spec fn create_poll_outcome(
    poll: PollAccount,
    registry: PollRegistry,
    creator_signed: bool,
) -> ProgramResult<()> {
    if !creator_signed {
        Err(ProgramError::MissingSigner)
    } else if fresh_account_outcome(poll) is Err {
        fresh_account_outcome(poll)
    } else {
        register_poll_outcome(registry, poll.key)
    }
}

/// Handles the poll-creation instruction: validates the target account,
/// indexes the new poll, and marks the account's record as an open poll.
///
/// Subordinate failures are propagated unchanged. On any failing path
/// neither the poll account nor the registry — the only other account this
/// handler touches — is mutated.
pub fn create_poll(
    poll: &mut PollAccount,
    registry: &mut PollRegistry,
    creator_signed: bool,
) -> (r: ProgramResult<()>)
    ensures
        r == create_poll_outcome(*old(poll), *old(registry), creator_signed),
        r is Err ==> *final(poll) == *old(poll) && *final(registry) == *old(registry),
        r is Ok ==> final(poll).data@ =~= old(poll).data@.update(
            MARKER_OFFSET as int,
            POLL_STATE_OPEN,
        ),
        r is Ok ==> final(poll).key == old(poll).key && final(poll).escrow == old(poll).escrow,
        r is Ok ==> final(registry).keys@ =~= old(registry).keys@.push(old(poll).key),
{
    if !creator_signed {
        return Err(ProgramError::MissingSigner);
    }
    if let Err(error) = check_account_fresh(poll) {
        return Err(error);
    }
    if let Err(error) = register_poll(registry, poll.key) {
        return Err(error);
    }
    poll.data[MARKER_OFFSET] = POLL_STATE_OPEN;
    Ok(())
}

/// What the wager instruction yields: the poll must be open, the wager must
/// reference this poll, and the committed amount must not be empty.
pub open spec fn place_wager_outcome(
    poll: PollAccount,
    wager_poll_key: u64,
    amount: u64,
) -> ProgramResult<()> {
    if open_poll_outcome(poll) is Err {
        open_poll_outcome(poll)
    } else if check_key_outcome(poll.key, wager_poll_key) is Err {
        check_key_outcome(poll.key, wager_poll_key)
    } else if amount == 0 {
        Err(ProgramError::InvalidInput)
    } else {
        Ok(())
    }
}

/// Handles the wager instruction: commits `amount` from the wager account's
/// owner to the poll's escrow and records the added stake on the wager.
///
/// Subordinate failures are propagated unchanged. On any failing path —
/// in particular a wager on an already finished poll — neither the poll's
/// escrow nor the wager account is mutated.
pub fn place_wager(
    poll: &mut PollAccount,
    wager_stake: &mut u64,
    wager_poll_key: u64,
    amount: u64,
) -> (r: ProgramResult<()>)
    requires
        old(poll).escrow + amount <= u64::MAX,
        *old(wager_stake) + amount <= u64::MAX,
    ensures
        r == place_wager_outcome(*old(poll), wager_poll_key, amount),
        r is Err ==> *final(poll) == *old(poll) && *final(wager_stake) == *old(wager_stake),
        r is Ok ==> final(poll).escrow == old(poll).escrow + amount,
        r is Ok ==> final(poll).data@ =~= old(poll).data@ && final(poll).key == old(poll).key,
        r is Ok ==> *final(wager_stake) == *old(wager_stake) + amount,
{
    if let Err(error) = check_poll_open(poll) {
        return Err(error);
    }
    if let Err(error) = check_key(poll.key, wager_poll_key) {
        return Err(error);
    }
    if amount == 0 {
        return Err(ProgramError::InvalidInput);
    }
    poll.escrow = poll.escrow + amount;
    *wager_stake = *wager_stake + amount;
    Ok(())
}

/// What finishing a poll yields: the poll must be open, and the two
/// outcome counts must not be tied, else no winner is decidable.
pub open spec fn finish_poll_outcome(
    poll: PollAccount,
    votes_for: u64,
    votes_against: u64,
) -> ProgramResult<()> {
    if open_poll_outcome(poll) is Err {
        open_poll_outcome(poll)
    } else if votes_for == votes_against {
        Err(ProgramError::PollCannotBeEven)
    } else {
        Ok(())
    }
}

/// Handles the poll-finishing instruction: given the tallied counts for the
/// two outcomes, moves an open poll to the finished lifecycle state.
///
/// Subordinate failures are propagated unchanged; a tie is rejected as
/// [`ProgramError::PollCannotBeEven`]. On any failing path the poll account
/// is not mutated.
pub fn finish_poll(
    poll: &mut PollAccount,
    votes_for: u64,
    votes_against: u64,
) -> (r: ProgramResult<()>)
    ensures
        r == finish_poll_outcome(*old(poll), votes_for, votes_against),
        r is Err ==> *final(poll) == *old(poll),
        r is Ok ==> final(poll).data@ =~= old(poll).data@.update(
            MARKER_OFFSET as int,
            POLL_STATE_FINISHED,
        ),
        r is Ok ==> final(poll).key == old(poll).key && final(poll).escrow == old(poll).escrow,
{
    if let Err(error) = check_poll_open(poll) {
        return Err(error);
    }
    if votes_for == votes_against {
        return Err(ProgramError::PollCannotBeEven);
    }
    poll.data[MARKER_OFFSET] = POLL_STATE_FINISHED;
    Ok(())
}

/// What recording a vote in a tally yields: the account must carry a tally
/// record for this poll, with room for one more entry.
pub open spec fn record_tally_outcome(tally: TallyAccount, poll_key: u64) -> ProgramResult<()> {
    if tally.data_type != TALLY_DATA_TYPE {
        Err(ProgramError::InvalidDataType)
    } else if check_key_outcome(poll_key, tally.poll_key) is Err {
        Err(ProgramError::InvalidTallyKey)
    } else if tally.entries@.len() >= MAX_TALLY_ENTRIES {
        Err(ProgramError::MaxTallyCapacity)
    } else {
        Ok(())
    }
}

/// Handles the tally instruction: records one wager's vote in the poll's
/// tally.
///
/// The generic [`ProgramError::InvalidKey`] raised by the subordinate key
/// check is narrowed to the more specific [`ProgramError::InvalidTallyKey`],
/// for which this handler is itself responsible: the tally referenced is
/// not the one associated with the poll. On any failing path — in
/// particular a tally at full capacity — no entry, not even a partial one,
/// is written.
pub fn record_tally(
    tally: &mut TallyAccount,
    poll_key: u64,
    wager_key: u64,
) -> (r: ProgramResult<()>)
    ensures
        r == record_tally_outcome(*old(tally), poll_key),
        r is Err ==> *final(tally) == *old(tally),
        r is Ok ==> final(tally).entries@ =~= old(tally).entries@.push(wager_key),
        r is Ok ==> final(tally).data_type == old(tally).data_type && final(tally).poll_key
            == old(tally).poll_key,
{
    if tally.data_type != TALLY_DATA_TYPE {
        return Err(ProgramError::InvalidDataType);
    }
    if let Err(_) = check_key(poll_key, tally.poll_key) {
        return Err(ProgramError::InvalidTallyKey);
    }
    if tally.entries.len() >= MAX_TALLY_ENTRIES {
        return Err(ProgramError::MaxTallyCapacity);
    }
    tally.entries.push(wager_key);
    Ok(())
}

/// A recognized instruction command, decoded from the payload's leading
/// command byte.
#[derive(Clone, Copy, Debug, PartialEq, Eq, Structural)]
pub enum Command {
    /// Create a poll on a fresh account.
    CreatePoll,
    /// Commit a wager to an open poll's escrow.
    PlaceWager,
    /// Move an open poll to the finished lifecycle state.
    FinishPoll,
    /// Record a wager's vote in a poll's tally.
    RecordTally,
    /// Distribute a finished poll's escrow to the winning wagers.
    PayOut,
}

/// What decoding the instruction payload yields: an empty payload is
/// malformed input, and an unrecognized command byte is an invalid command.
pub open spec fn decode_command_outcome(payload: Seq<u8>) -> ProgramResult<Command> {
    if payload.len() == 0 {
        Err(ProgramError::InvalidInput)
    } else if payload[0] == 0 {
        Ok(Command::CreatePoll)
    } else if payload[0] == 1 {
        Ok(Command::PlaceWager)
    } else if payload[0] == 2 {
        Ok(Command::FinishPoll)
    } else if payload[0] == 3 {
        Ok(Command::RecordTally)
    } else if payload[0] == 4 {
        Ok(Command::PayOut)
    } else {
        Err(ProgramError::InvalidCommand)
    }
}

/// Decodes the instruction payload's leading byte into a command.
pub fn decode_command(payload: &Vec<u8>) -> (r: ProgramResult<Command>)
    ensures
        r == decode_command_outcome(payload@),
{
    if payload.len() == 0 {
        Err(ProgramError::InvalidInput)
    } else if payload[0] == 0 {
        Ok(Command::CreatePoll)
    } else if payload[0] == 1 {
        Ok(Command::PlaceWager)
    } else if payload[0] == 2 {
        Ok(Command::FinishPoll)
    } else if payload[0] == 3 {
        Ok(Command::RecordTally)
    } else if payload[0] == 4 {
        Ok(Command::PayOut)
    } else {
        Err(ProgramError::InvalidCommand)
    }
}

/// What validating a poll account for payout yields: the account must hold
/// a created poll record that has reached the finished lifecycle state.
pub open spec fn finished_poll_outcome(poll: PollAccount) -> ProgramResult<()> {
    if !poll.is_sized() {
        Err(ProgramError::AccountDataTooSmall)
    } else if poll.marker() == POLL_STATE_FRESH {
        Err(ProgramError::InvalidAccount)
    } else if poll.marker() == POLL_STATE_OPEN {
        Err(ProgramError::PollNotFinished)
    } else if poll.marker() != POLL_STATE_FINISHED {
        Err(ProgramError::InvalidDataType)
    } else {
        Ok(())
    }
}

/// Checks that a poll account holds a finished poll record.
pub fn check_poll_finished(poll: &PollAccount) -> (r: ProgramResult<()>)
    ensures
        r == finished_poll_outcome(*poll),
{
    if poll.data.len() < MIN_POLL_DATA {
        Err(ProgramError::AccountDataTooSmall)
    } else if poll.data[MARKER_OFFSET] == POLL_STATE_FRESH {
        Err(ProgramError::InvalidAccount)
    } else if poll.data[MARKER_OFFSET] == POLL_STATE_OPEN {
        Err(ProgramError::PollNotFinished)
    } else if poll.data[MARKER_OFFSET] != POLL_STATE_FINISHED {
        Err(ProgramError::InvalidDataType)
    } else {
        Ok(())
    }
}

/// Whether the payout list names exactly the recorded winning wagers, in
/// recording order.
pub open spec fn keys_match(list: Seq<PayoutEntry>, winners: Seq<u64>) -> bool {
    forall|i: int| 0 <= i < list.len() ==> list[i].wager_key == winners[i]
}

/// Whether every entry of the payout list owes its wager some funds.
pub open spec fn all_entries_funded(list: Seq<PayoutEntry>) -> bool {
    forall|i: int| 0 <= i < list.len() ==> list[i].amount > 0
}

/// The funds the payout list distributes in total.
pub open spec fn total_amount(list: Seq<PayoutEntry>) -> int
    decreases list.len(),
{
    if list.len() == 0 {
        0
    } else {
        total_amount(list.drop_last()) + list.last().amount
    }
}

/// Extending a prefix of the payout list by one entry adds that entry's
/// amount to the prefix's total.
proof fn lemma_total_amount_take_step(list: Seq<PayoutEntry>, i: int)
    requires
        0 <= i < list.len(),
    ensures
        total_amount(list.take(i + 1)) == total_amount(list.take(i)) + list[i].amount,
{
    assert(list.take(i + 1).drop_last() =~= list.take(i));
    assert(list.take(i + 1).last() == list[i]);
}

/// No prefix of the payout list distributes more than the whole list does.
proof fn lemma_total_amount_take_bound(list: Seq<PayoutEntry>, i: int)
    requires
        0 <= i <= list.len(),
    ensures
        total_amount(list.take(i)) <= total_amount(list),
    decreases list.len() - i,
{
    if i == list.len() {
        assert(list.take(i) =~= list);
    } else {
        lemma_total_amount_take_step(list, i);
        lemma_total_amount_take_bound(list, i + 1);
    }
}

/// What the payout instruction yields.
///
/// The boundary between the list-shape failures and the wrong-recipient
/// failure is: a list of the wrong length, or whose amounts do not
/// distribute exactly the escrow, is malformed
/// ([`ProgramError::InvalidPayoutList`]); a correctly shaped list naming an
/// account that is not one of the recorded winning wagers is a payout to a
/// loser ([`ProgramError::CannotPayoutToLosers`]); a winning wager owed
/// nothing has no escrowed funds to pay out
/// ([`ProgramError::WagerHasNoFunds`]).
pub open spec fn pay_out_outcome(
    poll: PollAccount,
    tally: TallyAccount,
    list: Seq<PayoutEntry>,
) -> ProgramResult<u64> {
    if finished_poll_outcome(poll) is Err {
        Err(finished_poll_outcome(poll)->Err_0)
    } else if tally.data_type != TALLY_DATA_TYPE {
        Err(ProgramError::InvalidDataType)
    } else if check_key_outcome(poll.key, tally.poll_key) is Err {
        Err(ProgramError::InvalidTallyKey)
    } else if poll.escrow == 0 {
        Err(ProgramError::PollHasNoFunds)
    } else if list.len() != tally.entries@.len() {
        Err(ProgramError::InvalidPayoutList)
    } else if !keys_match(list, tally.entries@) {
        Err(ProgramError::CannotPayoutToLosers)
    } else if !all_entries_funded(list) {
        Err(ProgramError::WagerHasNoFunds)
    } else if total_amount(list) != poll.escrow {
        Err(ProgramError::InvalidPayoutList)
    } else {
        Ok(poll.escrow)
    }
}

/// Handles the payout instruction: validates the payout list against the
/// tally's recorded winning wagers and, only if every check passes, releases
/// the poll's whole escrow, returning the amount released.
///
/// Subordinate failures are propagated unchanged, except the subordinate
/// key check's generic [`ProgramError::InvalidKey`], which is narrowed to
/// [`ProgramError::InvalidTallyKey`]. On any failing path — in particular a
/// payout list whose length differs from the number of recorded winning
/// wagers — zero funds are transferred: the escrow and the rest of the poll
/// account stay untouched.
#[verifier::loop_isolation(false)]
pub fn pay_out(
    poll: &mut PollAccount,
    tally: &TallyAccount,
    payout_list: &Vec<PayoutEntry>,
) -> (r: ProgramResult<u64>)
    ensures
        r == pay_out_outcome(*old(poll), *tally, payout_list@),
        r is Err ==> *final(poll) == *old(poll),
        r is Ok ==> final(poll).escrow == 0,
        r is Ok ==> final(poll).data@ =~= old(poll).data@ && final(poll).key == old(poll).key,
        r is Ok ==> r->Ok_0 == old(poll).escrow,
{
    if let Err(error) = check_poll_finished(poll) {
        return Err(error);
    }
    if tally.data_type != TALLY_DATA_TYPE {
        return Err(ProgramError::InvalidDataType);
    }
    if let Err(_) = check_key(poll.key, tally.poll_key) {
        return Err(ProgramError::InvalidTallyKey);
    }
    if poll.escrow == 0 {
        return Err(ProgramError::PollHasNoFunds);
    }
    if payout_list.len() != tally.entries.len() {
        return Err(ProgramError::InvalidPayoutList);
    }
    let mut i: usize = 0;
    while i < payout_list.len()
        invariant
            i <= payout_list@.len(),
            forall|j: int| 0 <= j < i ==> payout_list@[j].wager_key == tally.entries@[j],
        decreases payout_list@.len() - i,
    {
        if payout_list[i].wager_key != tally.entries[i] {
            return Err(ProgramError::CannotPayoutToLosers);
        }
        i += 1;
    }
    let mut j: usize = 0;
    while j < payout_list.len()
        invariant
            j <= payout_list@.len(),
            forall|k: int| 0 <= k < j ==> payout_list@[k].amount > 0,
        decreases payout_list@.len() - j,
    {
        if payout_list[j].amount == 0 {
            return Err(ProgramError::WagerHasNoFunds);
        }
        j += 1;
    }
    let escrow: u64 = poll.escrow;
    let mut total: u64 = 0;
    let mut k: usize = 0;
    while k < payout_list.len()
        invariant
            k <= payout_list@.len(),
            total == total_amount(payout_list@.take(k as int)),
            total <= escrow,
        decreases payout_list@.len() - k,
    {
        let amount: u64 = payout_list[k].amount;
        if amount > escrow - total {
            proof {
                lemma_total_amount_take_step(payout_list@, k as int);
                lemma_total_amount_take_bound(payout_list@, k as int + 1);
            }
            return Err(ProgramError::InvalidPayoutList);
        }
        proof {
            lemma_total_amount_take_step(payout_list@, k as int);
        }
        total = total + amount;
        k += 1;
    }
    proof {
        assert(payout_list@.take(payout_list@.len() as int) =~= payout_list@);
    }
    if total != escrow {
        return Err(ProgramError::InvalidPayoutList);
    }
    poll.escrow = 0;
    Ok(escrow)
}

/// Law: when poll creation's subordinate checks fail, the handler returns
/// that failure unchanged — the signer check, the fresh-account check and
/// the index registration are consulted in that order, and the first
/// failure among them becomes the handler's own result.
pub proof fn lemma_create_poll_propagates_failure(
    poll: PollAccount,
    registry: PollRegistry,
    creator_signed: bool,
)
    ensures
        !creator_signed ==> create_poll_outcome(poll, registry, creator_signed)
            == ProgramResult::<()>::Err(ProgramError::MissingSigner),
        creator_signed && fresh_account_outcome(poll) is Err ==> create_poll_outcome(
            poll,
            registry,
            creator_signed,
        ) == fresh_account_outcome(poll),
        creator_signed && fresh_account_outcome(poll) is Ok && register_poll_outcome(
            registry,
            poll.key,
        ) is Err ==> create_poll_outcome(poll, registry, creator_signed) == register_poll_outcome(
            registry,
            poll.key,
        ),
{
}

/// Law: when the wager instruction's subordinate checks fail, the handler
/// returns that failure unchanged — first the open-poll check, then the
/// key check.
pub proof fn lemma_place_wager_propagates_failure(
    poll: PollAccount,
    wager_poll_key: u64,
    amount: u64,
)
    ensures
        open_poll_outcome(poll) is Err ==> place_wager_outcome(poll, wager_poll_key, amount)
            == open_poll_outcome(poll),
        open_poll_outcome(poll) is Ok && check_key_outcome(poll.key, wager_poll_key) is Err
            ==> place_wager_outcome(poll, wager_poll_key, amount) == check_key_outcome(
            poll.key,
            wager_poll_key,
        ),
{
}

/// Law: when the open-poll check fails, the poll-finishing handler returns
/// that failure unchanged.
pub proof fn lemma_finish_poll_propagates_failure(
    poll: PollAccount,
    votes_for: u64,
    votes_against: u64,
)
    ensures
        open_poll_outcome(poll) is Err ==> finish_poll_outcome(poll, votes_for, votes_against)
            == open_poll_outcome(poll),
{
}

/// Law: when the subordinate key check fails, the tally handler fails too,
/// with the subordinate's generic [`ProgramError::InvalidKey`] narrowed to
/// the documented, more specific [`ProgramError::InvalidTallyKey`].
pub proof fn lemma_record_tally_narrows_key_failure(tally: TallyAccount, poll_key: u64)
    ensures
        tally.data_type == TALLY_DATA_TYPE && check_key_outcome(poll_key, tally.poll_key) is Err
            ==> record_tally_outcome(tally, poll_key) == ProgramResult::<()>::Err(
            ProgramError::InvalidTallyKey,
        ),
{
}

/// Law: when the payout instruction's subordinate checks fail, the handler
/// fails too — the finished-poll check's failure is returned unchanged,
/// and the subordinate key check's generic [`ProgramError::InvalidKey`] is
/// narrowed to the documented [`ProgramError::InvalidTallyKey`].
pub proof fn lemma_pay_out_propagates_failure(
    poll: PollAccount,
    tally: TallyAccount,
    list: Seq<PayoutEntry>,
)
    ensures
        finished_poll_outcome(poll) is Err ==> pay_out_outcome(poll, tally, list)
            == ProgramResult::<u64>::Err(finished_poll_outcome(poll)->Err_0),
        finished_poll_outcome(poll) is Ok && tally.data_type == TALLY_DATA_TYPE
            && check_key_outcome(poll.key, tally.poll_key) is Err ==> pay_out_outcome(
            poll,
            tally,
            list,
        ) == ProgramResult::<u64>::Err(ProgramError::InvalidTallyKey),
{
}

} // verus!
