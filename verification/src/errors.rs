//! The failure taxonomy and the result type of the program.
//!
//! Every instruction handler reports failure through exactly one variant of
//! [`ProgramError`]; the set is closed and exhaustive for the poll lifecycle
//! (creation, wagering, tallying, payout). A variant carries no payload:
//! diagnostic detail is produced at report time, never stored in the value.

use std::io::Write;

use vstd::prelude::*;

verus! {

/// Every distinguishable terminal failure of the poll lifecycle.
///
/// Two different root causes are never reported under the same variant, and
/// the same root cause is always reported under the same variant, so a client
/// can branch on the variant recovered from a failed transaction's log.
#[derive(Clone, Copy, Debug, PartialEq, Eq, Structural)]
pub enum ProgramError {
    /// The target account must be freshly allocated but already holds data.
    AccountNotNew,
    /// The target account is too small to hold the expected record.
    AccountDataTooSmall,
    /// A payout targets an account that did not back the winning outcome.
    CannotPayoutToLosers,
    /// The target account fails a structural or ownership precondition.
    InvalidAccount,
    /// The account data does not carry the expected record type.
    InvalidDataType,
    /// The instruction payload's arguments are malformed.
    InvalidInput,
    /// A supplied key does not match the expected account key.
    InvalidKey,
    /// The instruction payload does not decode into a recognized command.
    InvalidCommand,
    /// The tally record referenced is not the one associated with the poll.
    InvalidTallyKey,
    /// The supplied payout list is malformed (wrong length or wrong amounts).
    InvalidPayoutList,
    /// The structure that indexes polls has no room for a new entry.
    MaxPollCapacity,
    /// The tally has no remaining capacity to record another vote.
    MaxTallyCapacity,
    /// A required signer is absent from the instruction.
    MissingSigner,
    /// A poll with this key has already been created.
    PollAlreadyCreated,
    /// The poll is already in the finished lifecycle state.
    PollAlreadyFinished,
    /// The poll is not yet in the finished lifecycle state.
    PollNotFinished,
    /// The poll's escrow holds no funds.
    PollHasNoFunds,
    /// The poll's outcome counts are tied, so no winner is decidable.
    PollCannotBeEven,
    /// The wager account holds no escrowed funds to pay out.
    WagerHasNoFunds,
}

/// The return type of every fallible instruction-handling operation: either
/// a caller-supplied success value or exactly one failure variant.
pub type ProgramResult<T> = core::result::Result<T, ProgramError>;

/// The fixed prefix of every diagnostic line.
pub open spec fn message_prefix() -> Seq<char> {
    "Error: "@
}

impl ProgramError {
    /// The variant's name, exactly as a client sees it in diagnostics.
    pub open spec fn spec_name(self) -> Seq<char> {
        match self {
            ProgramError::AccountNotNew => "AccountNotNew"@,
            ProgramError::AccountDataTooSmall => "AccountDataTooSmall"@,
            ProgramError::CannotPayoutToLosers => "CannotPayoutToLosers"@,
            ProgramError::InvalidAccount => "InvalidAccount"@,
            ProgramError::InvalidDataType => "InvalidDataType"@,
            ProgramError::InvalidInput => "InvalidInput"@,
            ProgramError::InvalidKey => "InvalidKey"@,
            ProgramError::InvalidCommand => "InvalidCommand"@,
            ProgramError::InvalidTallyKey => "InvalidTallyKey"@,
            ProgramError::InvalidPayoutList => "InvalidPayoutList"@,
            ProgramError::MaxPollCapacity => "MaxPollCapacity"@,
            ProgramError::MaxTallyCapacity => "MaxTallyCapacity"@,
            ProgramError::MissingSigner => "MissingSigner"@,
            ProgramError::PollAlreadyCreated => "PollAlreadyCreated"@,
            ProgramError::PollAlreadyFinished => "PollAlreadyFinished"@,
            ProgramError::PollNotFinished => "PollNotFinished"@,
            ProgramError::PollHasNoFunds => "PollHasNoFunds"@,
            ProgramError::PollCannotBeEven => "PollCannotBeEven"@,
            ProgramError::WagerHasNoFunds => "WagerHasNoFunds"@,
        }
    }

    /// The stable diagnostic line for this variant: the fixed prefix
    /// followed by the variant's name and nothing else.
    pub open spec fn spec_message(self) -> Seq<char> {
        match self {
            ProgramError::AccountNotNew => "Error: AccountNotNew"@,
            ProgramError::AccountDataTooSmall => "Error: AccountDataTooSmall"@,
            ProgramError::CannotPayoutToLosers => "Error: CannotPayoutToLosers"@,
            ProgramError::InvalidAccount => "Error: InvalidAccount"@,
            ProgramError::InvalidDataType => "Error: InvalidDataType"@,
            ProgramError::InvalidInput => "Error: InvalidInput"@,
            ProgramError::InvalidKey => "Error: InvalidKey"@,
            ProgramError::InvalidCommand => "Error: InvalidCommand"@,
            ProgramError::InvalidTallyKey => "Error: InvalidTallyKey"@,
            ProgramError::InvalidPayoutList => "Error: InvalidPayoutList"@,
            ProgramError::MaxPollCapacity => "Error: MaxPollCapacity"@,
            ProgramError::MaxTallyCapacity => "Error: MaxTallyCapacity"@,
            ProgramError::MissingSigner => "Error: MissingSigner"@,
            ProgramError::PollAlreadyCreated => "Error: PollAlreadyCreated"@,
            ProgramError::PollAlreadyFinished => "Error: PollAlreadyFinished"@,
            ProgramError::PollNotFinished => "Error: PollNotFinished"@,
            ProgramError::PollHasNoFunds => "Error: PollHasNoFunds"@,
            ProgramError::PollCannotBeEven => "Error: PollCannotBeEven"@,
            ProgramError::WagerHasNoFunds => "Error: WagerHasNoFunds"@,
        }
    }

    /// Renders the diagnostic line for this variant. Rendering allocates
    /// nothing beyond the returned string and reads no program state, so the
    /// same variant always renders the same line.
    pub fn message(&self) -> (line: String)
        ensures
            line@ == self.spec_message(),
    {
        match self {
            ProgramError::AccountNotNew => "Error: AccountNotNew".to_owned(),
            ProgramError::AccountDataTooSmall => "Error: AccountDataTooSmall".to_owned(),
            ProgramError::CannotPayoutToLosers => "Error: CannotPayoutToLosers".to_owned(),
            ProgramError::InvalidAccount => "Error: InvalidAccount".to_owned(),
            ProgramError::InvalidDataType => "Error: InvalidDataType".to_owned(),
            ProgramError::InvalidInput => "Error: InvalidInput".to_owned(),
            ProgramError::InvalidKey => "Error: InvalidKey".to_owned(),
            ProgramError::InvalidCommand => "Error: InvalidCommand".to_owned(),
            ProgramError::InvalidTallyKey => "Error: InvalidTallyKey".to_owned(),
            ProgramError::InvalidPayoutList => "Error: InvalidPayoutList".to_owned(),
            ProgramError::MaxPollCapacity => "Error: MaxPollCapacity".to_owned(),
            ProgramError::MaxTallyCapacity => "Error: MaxTallyCapacity".to_owned(),
            ProgramError::MissingSigner => "Error: MissingSigner".to_owned(),
            ProgramError::PollAlreadyCreated => "Error: PollAlreadyCreated".to_owned(),
            ProgramError::PollAlreadyFinished => "Error: PollAlreadyFinished".to_owned(),
            ProgramError::PollNotFinished => "Error: PollNotFinished".to_owned(),
            ProgramError::PollHasNoFunds => "Error: PollHasNoFunds".to_owned(),
            ProgramError::PollCannotBeEven => "Error: PollCannotBeEven".to_owned(),
            ProgramError::WagerHasNoFunds => "Error: WagerHasNoFunds".to_owned(),
        }
    }

    /// Renders the diagnostic line for this variant and writes it to the
    /// host's diagnostic channel. Reporting is a side effect only: it neither
    /// recovers from the failure nor raises a different one.
    pub fn print(&self) {
        let line = self.message();
        emit_line(&line);
    }
}

/// Law: the diagnostic line for a variant is exactly the fixed prefix
/// followed by that variant's own name — in particular the line contains the
/// variant's name (as the suffix starting right after the prefix) and
/// nothing else besides the prefix.
pub proof fn lemma_message_is_prefix_plus_name(v: ProgramError)
    ensures
        v.spec_message() == message_prefix() + v.spec_name(),
        v.spec_message().len() == message_prefix().len() + v.spec_name().len(),
        v.spec_message().subrange(
            message_prefix().len() as int,
            v.spec_message().len() as int,
        ) == v.spec_name(),
{
    reveal_strlit("Error: ");
    reveal_strlit("AccountNotNew");
    reveal_strlit("AccountDataTooSmall");
    reveal_strlit("CannotPayoutToLosers");
    reveal_strlit("InvalidAccount");
    reveal_strlit("InvalidDataType");
    reveal_strlit("InvalidInput");
    reveal_strlit("InvalidKey");
    reveal_strlit("InvalidCommand");
    reveal_strlit("InvalidTallyKey");
    reveal_strlit("InvalidPayoutList");
    reveal_strlit("MaxPollCapacity");
    reveal_strlit("MaxTallyCapacity");
    reveal_strlit("MissingSigner");
    reveal_strlit("PollAlreadyCreated");
    reveal_strlit("PollAlreadyFinished");
    reveal_strlit("PollNotFinished");
    reveal_strlit("PollHasNoFunds");
    reveal_strlit("PollCannotBeEven");
    reveal_strlit("WagerHasNoFunds");
    reveal_strlit("Error: AccountNotNew");
    reveal_strlit("Error: AccountDataTooSmall");
    reveal_strlit("Error: CannotPayoutToLosers");
    reveal_strlit("Error: InvalidAccount");
    reveal_strlit("Error: InvalidDataType");
    reveal_strlit("Error: InvalidInput");
    reveal_strlit("Error: InvalidKey");
    reveal_strlit("Error: InvalidCommand");
    reveal_strlit("Error: InvalidTallyKey");
    reveal_strlit("Error: InvalidPayoutList");
    reveal_strlit("Error: MaxPollCapacity");
    reveal_strlit("Error: MaxTallyCapacity");
    reveal_strlit("Error: MissingSigner");
    reveal_strlit("Error: PollAlreadyCreated");
    reveal_strlit("Error: PollAlreadyFinished");
    reveal_strlit("Error: PollNotFinished");
    reveal_strlit("Error: PollHasNoFunds");
    reveal_strlit("Error: PollCannotBeEven");
    reveal_strlit("Error: WagerHasNoFunds");
    match v {
        ProgramError::AccountNotNew => {
            assert(v.spec_message() =~= message_prefix() + v.spec_name());
        },
        ProgramError::AccountDataTooSmall => {
            assert(v.spec_message() =~= message_prefix() + v.spec_name());
        },
        ProgramError::CannotPayoutToLosers => {
            assert(v.spec_message() =~= message_prefix() + v.spec_name());
        },
        ProgramError::InvalidAccount => {
            assert(v.spec_message() =~= message_prefix() + v.spec_name());
        },
        ProgramError::InvalidDataType => {
            assert(v.spec_message() =~= message_prefix() + v.spec_name());
        },
        ProgramError::InvalidInput => {
            assert(v.spec_message() =~= message_prefix() + v.spec_name());
        },
        ProgramError::InvalidKey => {
            assert(v.spec_message() =~= message_prefix() + v.spec_name());
        },
        ProgramError::InvalidCommand => {
            assert(v.spec_message() =~= message_prefix() + v.spec_name());
        },
        ProgramError::InvalidTallyKey => {
            assert(v.spec_message() =~= message_prefix() + v.spec_name());
        },
        ProgramError::InvalidPayoutList => {
            assert(v.spec_message() =~= message_prefix() + v.spec_name());
        },
        ProgramError::MaxPollCapacity => {
            assert(v.spec_message() =~= message_prefix() + v.spec_name());
        },
        ProgramError::MaxTallyCapacity => {
            assert(v.spec_message() =~= message_prefix() + v.spec_name());
        },
        ProgramError::MissingSigner => {
            assert(v.spec_message() =~= message_prefix() + v.spec_name());
        },
        ProgramError::PollAlreadyCreated => {
            assert(v.spec_message() =~= message_prefix() + v.spec_name());
        },
        ProgramError::PollAlreadyFinished => {
            assert(v.spec_message() =~= message_prefix() + v.spec_name());
        },
        ProgramError::PollNotFinished => {
            assert(v.spec_message() =~= message_prefix() + v.spec_name());
        },
        ProgramError::PollHasNoFunds => {
            assert(v.spec_message() =~= message_prefix() + v.spec_name());
        },
        ProgramError::PollCannotBeEven => {
            assert(v.spec_message() =~= message_prefix() + v.spec_name());
        },
        ProgramError::WagerHasNoFunds => {
            assert(v.spec_message() =~= message_prefix() + v.spec_name());
        },
    }
    assert(v.spec_message().subrange(
        message_prefix().len() as int,
        v.spec_message().len() as int,
    ) =~= v.spec_name());
}

/// Law: distinct variants render distinct diagnostic lines, so the line
/// uniquely identifies the failure in a client's post-transaction log.
pub proof fn lemma_messages_distinct(v: ProgramError, w: ProgramError)
    ensures
        v != w ==> v.spec_message() != w.spec_message(),
{
    // Seq disequality needs a stated witness: each pair of lines is told
    // apart by its length or by a character at a named position.
    reveal_strlit("Error: AccountNotNew");
    reveal_strlit("Error: AccountDataTooSmall");
    reveal_strlit("Error: CannotPayoutToLosers");
    reveal_strlit("Error: InvalidAccount");
    reveal_strlit("Error: InvalidDataType");
    reveal_strlit("Error: InvalidInput");
    reveal_strlit("Error: InvalidKey");
    reveal_strlit("Error: InvalidCommand");
    reveal_strlit("Error: InvalidTallyKey");
    reveal_strlit("Error: InvalidPayoutList");
    reveal_strlit("Error: MaxPollCapacity");
    reveal_strlit("Error: MaxTallyCapacity");
    reveal_strlit("Error: MissingSigner");
    reveal_strlit("Error: PollAlreadyCreated");
    reveal_strlit("Error: PollAlreadyFinished");
    reveal_strlit("Error: PollNotFinished");
    reveal_strlit("Error: PollHasNoFunds");
    reveal_strlit("Error: PollCannotBeEven");
    reveal_strlit("Error: WagerHasNoFunds");
    assert("Error: AccountNotNew"@ != "Error: AccountDataTooSmall"@) by { assert("Error: AccountNotNew"@.len() != "Error: AccountDataTooSmall"@.len()); }
    assert("Error: AccountNotNew"@ != "Error: CannotPayoutToLosers"@) by { assert("Error: AccountNotNew"@.len() != "Error: CannotPayoutToLosers"@.len()); }
    assert("Error: AccountNotNew"@ != "Error: InvalidAccount"@) by { assert("Error: AccountNotNew"@.len() != "Error: InvalidAccount"@.len()); }
    assert("Error: AccountNotNew"@ != "Error: InvalidDataType"@) by { assert("Error: AccountNotNew"@.len() != "Error: InvalidDataType"@.len()); }
    assert("Error: AccountNotNew"@ != "Error: InvalidInput"@) by { assert("Error: AccountNotNew"@.len() != "Error: InvalidInput"@.len()); }
    assert("Error: AccountNotNew"@ != "Error: InvalidKey"@) by { assert("Error: AccountNotNew"@.len() != "Error: InvalidKey"@.len()); }
    assert("Error: AccountNotNew"@ != "Error: InvalidCommand"@) by { assert("Error: AccountNotNew"@.len() != "Error: InvalidCommand"@.len()); }
    assert("Error: AccountNotNew"@ != "Error: InvalidTallyKey"@) by { assert("Error: AccountNotNew"@.len() != "Error: InvalidTallyKey"@.len()); }
    assert("Error: AccountNotNew"@ != "Error: InvalidPayoutList"@) by { assert("Error: AccountNotNew"@.len() != "Error: InvalidPayoutList"@.len()); }
    assert("Error: AccountNotNew"@ != "Error: MaxPollCapacity"@) by { assert("Error: AccountNotNew"@.len() != "Error: MaxPollCapacity"@.len()); }
    assert("Error: AccountNotNew"@ != "Error: MaxTallyCapacity"@) by { assert("Error: AccountNotNew"@.len() != "Error: MaxTallyCapacity"@.len()); }
    assert("Error: AccountNotNew"@ != "Error: MissingSigner"@) by { assert("Error: AccountNotNew"@[7] != "Error: MissingSigner"@[7]); }
    assert("Error: AccountNotNew"@ != "Error: PollAlreadyCreated"@) by { assert("Error: AccountNotNew"@.len() != "Error: PollAlreadyCreated"@.len()); }
    assert("Error: AccountNotNew"@ != "Error: PollAlreadyFinished"@) by { assert("Error: AccountNotNew"@.len() != "Error: PollAlreadyFinished"@.len()); }
    assert("Error: AccountNotNew"@ != "Error: PollNotFinished"@) by { assert("Error: AccountNotNew"@.len() != "Error: PollNotFinished"@.len()); }
    assert("Error: AccountNotNew"@ != "Error: PollHasNoFunds"@) by { assert("Error: AccountNotNew"@.len() != "Error: PollHasNoFunds"@.len()); }
    assert("Error: AccountNotNew"@ != "Error: PollCannotBeEven"@) by { assert("Error: AccountNotNew"@.len() != "Error: PollCannotBeEven"@.len()); }
    assert("Error: AccountNotNew"@ != "Error: WagerHasNoFunds"@) by { assert("Error: AccountNotNew"@.len() != "Error: WagerHasNoFunds"@.len()); }
    assert("Error: AccountDataTooSmall"@ != "Error: CannotPayoutToLosers"@) by { assert("Error: AccountDataTooSmall"@.len() != "Error: CannotPayoutToLosers"@.len()); }
    assert("Error: AccountDataTooSmall"@ != "Error: InvalidAccount"@) by { assert("Error: AccountDataTooSmall"@.len() != "Error: InvalidAccount"@.len()); }
    assert("Error: AccountDataTooSmall"@ != "Error: InvalidDataType"@) by { assert("Error: AccountDataTooSmall"@.len() != "Error: InvalidDataType"@.len()); }
    assert("Error: AccountDataTooSmall"@ != "Error: InvalidInput"@) by { assert("Error: AccountDataTooSmall"@.len() != "Error: InvalidInput"@.len()); }
    assert("Error: AccountDataTooSmall"@ != "Error: InvalidKey"@) by { assert("Error: AccountDataTooSmall"@.len() != "Error: InvalidKey"@.len()); }
    assert("Error: AccountDataTooSmall"@ != "Error: InvalidCommand"@) by { assert("Error: AccountDataTooSmall"@.len() != "Error: InvalidCommand"@.len()); }
    assert("Error: AccountDataTooSmall"@ != "Error: InvalidTallyKey"@) by { assert("Error: AccountDataTooSmall"@.len() != "Error: InvalidTallyKey"@.len()); }
    assert("Error: AccountDataTooSmall"@ != "Error: InvalidPayoutList"@) by { assert("Error: AccountDataTooSmall"@.len() != "Error: InvalidPayoutList"@.len()); }
    assert("Error: AccountDataTooSmall"@ != "Error: MaxPollCapacity"@) by { assert("Error: AccountDataTooSmall"@.len() != "Error: MaxPollCapacity"@.len()); }
    assert("Error: AccountDataTooSmall"@ != "Error: MaxTallyCapacity"@) by { assert("Error: AccountDataTooSmall"@.len() != "Error: MaxTallyCapacity"@.len()); }
    assert("Error: AccountDataTooSmall"@ != "Error: MissingSigner"@) by { assert("Error: AccountDataTooSmall"@.len() != "Error: MissingSigner"@.len()); }
    assert("Error: AccountDataTooSmall"@ != "Error: PollAlreadyCreated"@) by { assert("Error: AccountDataTooSmall"@.len() != "Error: PollAlreadyCreated"@.len()); }
    assert("Error: AccountDataTooSmall"@ != "Error: PollAlreadyFinished"@) by { assert("Error: AccountDataTooSmall"@[7] != "Error: PollAlreadyFinished"@[7]); }
    assert("Error: AccountDataTooSmall"@ != "Error: PollNotFinished"@) by { assert("Error: AccountDataTooSmall"@.len() != "Error: PollNotFinished"@.len()); }
    assert("Error: AccountDataTooSmall"@ != "Error: PollHasNoFunds"@) by { assert("Error: AccountDataTooSmall"@.len() != "Error: PollHasNoFunds"@.len()); }
    assert("Error: AccountDataTooSmall"@ != "Error: PollCannotBeEven"@) by { assert("Error: AccountDataTooSmall"@.len() != "Error: PollCannotBeEven"@.len()); }
    assert("Error: AccountDataTooSmall"@ != "Error: WagerHasNoFunds"@) by { assert("Error: AccountDataTooSmall"@.len() != "Error: WagerHasNoFunds"@.len()); }
    assert("Error: CannotPayoutToLosers"@ != "Error: InvalidAccount"@) by { assert("Error: CannotPayoutToLosers"@.len() != "Error: InvalidAccount"@.len()); }
    assert("Error: CannotPayoutToLosers"@ != "Error: InvalidDataType"@) by { assert("Error: CannotPayoutToLosers"@.len() != "Error: InvalidDataType"@.len()); }
    assert("Error: CannotPayoutToLosers"@ != "Error: InvalidInput"@) by { assert("Error: CannotPayoutToLosers"@.len() != "Error: InvalidInput"@.len()); }
    assert("Error: CannotPayoutToLosers"@ != "Error: InvalidKey"@) by { assert("Error: CannotPayoutToLosers"@.len() != "Error: InvalidKey"@.len()); }
    assert("Error: CannotPayoutToLosers"@ != "Error: InvalidCommand"@) by { assert("Error: CannotPayoutToLosers"@.len() != "Error: InvalidCommand"@.len()); }
    assert("Error: CannotPayoutToLosers"@ != "Error: InvalidTallyKey"@) by { assert("Error: CannotPayoutToLosers"@.len() != "Error: InvalidTallyKey"@.len()); }
    assert("Error: CannotPayoutToLosers"@ != "Error: InvalidPayoutList"@) by { assert("Error: CannotPayoutToLosers"@.len() != "Error: InvalidPayoutList"@.len()); }
    assert("Error: CannotPayoutToLosers"@ != "Error: MaxPollCapacity"@) by { assert("Error: CannotPayoutToLosers"@.len() != "Error: MaxPollCapacity"@.len()); }
    assert("Error: CannotPayoutToLosers"@ != "Error: MaxTallyCapacity"@) by { assert("Error: CannotPayoutToLosers"@.len() != "Error: MaxTallyCapacity"@.len()); }
    assert("Error: CannotPayoutToLosers"@ != "Error: MissingSigner"@) by { assert("Error: CannotPayoutToLosers"@.len() != "Error: MissingSigner"@.len()); }
    assert("Error: CannotPayoutToLosers"@ != "Error: PollAlreadyCreated"@) by { assert("Error: CannotPayoutToLosers"@.len() != "Error: PollAlreadyCreated"@.len()); }
    assert("Error: CannotPayoutToLosers"@ != "Error: PollAlreadyFinished"@) by { assert("Error: CannotPayoutToLosers"@.len() != "Error: PollAlreadyFinished"@.len()); }
    assert("Error: CannotPayoutToLosers"@ != "Error: PollNotFinished"@) by { assert("Error: CannotPayoutToLosers"@.len() != "Error: PollNotFinished"@.len()); }
    assert("Error: CannotPayoutToLosers"@ != "Error: PollHasNoFunds"@) by { assert("Error: CannotPayoutToLosers"@.len() != "Error: PollHasNoFunds"@.len()); }
    assert("Error: CannotPayoutToLosers"@ != "Error: PollCannotBeEven"@) by { assert("Error: CannotPayoutToLosers"@.len() != "Error: PollCannotBeEven"@.len()); }
    assert("Error: CannotPayoutToLosers"@ != "Error: WagerHasNoFunds"@) by { assert("Error: CannotPayoutToLosers"@.len() != "Error: WagerHasNoFunds"@.len()); }
    assert("Error: InvalidAccount"@ != "Error: InvalidDataType"@) by { assert("Error: InvalidAccount"@.len() != "Error: InvalidDataType"@.len()); }
    assert("Error: InvalidAccount"@ != "Error: InvalidInput"@) by { assert("Error: InvalidAccount"@.len() != "Error: InvalidInput"@.len()); }
    assert("Error: InvalidAccount"@ != "Error: InvalidKey"@) by { assert("Error: InvalidAccount"@.len() != "Error: InvalidKey"@.len()); }
    assert("Error: InvalidAccount"@ != "Error: InvalidCommand"@) by { assert("Error: InvalidAccount"@[14] != "Error: InvalidCommand"@[14]); }
    assert("Error: InvalidAccount"@ != "Error: InvalidTallyKey"@) by { assert("Error: InvalidAccount"@.len() != "Error: InvalidTallyKey"@.len()); }
    assert("Error: InvalidAccount"@ != "Error: InvalidPayoutList"@) by { assert("Error: InvalidAccount"@.len() != "Error: InvalidPayoutList"@.len()); }
    assert("Error: InvalidAccount"@ != "Error: MaxPollCapacity"@) by { assert("Error: InvalidAccount"@.len() != "Error: MaxPollCapacity"@.len()); }
    assert("Error: InvalidAccount"@ != "Error: MaxTallyCapacity"@) by { assert("Error: InvalidAccount"@.len() != "Error: MaxTallyCapacity"@.len()); }
    assert("Error: InvalidAccount"@ != "Error: MissingSigner"@) by { assert("Error: InvalidAccount"@.len() != "Error: MissingSigner"@.len()); }
    assert("Error: InvalidAccount"@ != "Error: PollAlreadyCreated"@) by { assert("Error: InvalidAccount"@.len() != "Error: PollAlreadyCreated"@.len()); }
    assert("Error: InvalidAccount"@ != "Error: PollAlreadyFinished"@) by { assert("Error: InvalidAccount"@.len() != "Error: PollAlreadyFinished"@.len()); }
    assert("Error: InvalidAccount"@ != "Error: PollNotFinished"@) by { assert("Error: InvalidAccount"@.len() != "Error: PollNotFinished"@.len()); }
    assert("Error: InvalidAccount"@ != "Error: PollHasNoFunds"@) by { assert("Error: InvalidAccount"@[7] != "Error: PollHasNoFunds"@[7]); }
    assert("Error: InvalidAccount"@ != "Error: PollCannotBeEven"@) by { assert("Error: InvalidAccount"@.len() != "Error: PollCannotBeEven"@.len()); }
    assert("Error: InvalidAccount"@ != "Error: WagerHasNoFunds"@) by { assert("Error: InvalidAccount"@.len() != "Error: WagerHasNoFunds"@.len()); }
    assert("Error: InvalidDataType"@ != "Error: InvalidInput"@) by { assert("Error: InvalidDataType"@.len() != "Error: InvalidInput"@.len()); }
    assert("Error: InvalidDataType"@ != "Error: InvalidKey"@) by { assert("Error: InvalidDataType"@.len() != "Error: InvalidKey"@.len()); }
    assert("Error: InvalidDataType"@ != "Error: InvalidCommand"@) by { assert("Error: InvalidDataType"@.len() != "Error: InvalidCommand"@.len()); }
    assert("Error: InvalidDataType"@ != "Error: InvalidTallyKey"@) by { assert("Error: InvalidDataType"@[14] != "Error: InvalidTallyKey"@[14]); }
    assert("Error: InvalidDataType"@ != "Error: InvalidPayoutList"@) by { assert("Error: InvalidDataType"@.len() != "Error: InvalidPayoutList"@.len()); }
    assert("Error: InvalidDataType"@ != "Error: MaxPollCapacity"@) by { assert("Error: InvalidDataType"@[7] != "Error: MaxPollCapacity"@[7]); }
    assert("Error: InvalidDataType"@ != "Error: MaxTallyCapacity"@) by { assert("Error: InvalidDataType"@.len() != "Error: MaxTallyCapacity"@.len()); }
    assert("Error: InvalidDataType"@ != "Error: MissingSigner"@) by { assert("Error: InvalidDataType"@.len() != "Error: MissingSigner"@.len()); }
    assert("Error: InvalidDataType"@ != "Error: PollAlreadyCreated"@) by { assert("Error: InvalidDataType"@.len() != "Error: PollAlreadyCreated"@.len()); }
    assert("Error: InvalidDataType"@ != "Error: PollAlreadyFinished"@) by { assert("Error: InvalidDataType"@.len() != "Error: PollAlreadyFinished"@.len()); }
    assert("Error: InvalidDataType"@ != "Error: PollNotFinished"@) by { assert("Error: InvalidDataType"@[7] != "Error: PollNotFinished"@[7]); }
    assert("Error: InvalidDataType"@ != "Error: PollHasNoFunds"@) by { assert("Error: InvalidDataType"@.len() != "Error: PollHasNoFunds"@.len()); }
    assert("Error: InvalidDataType"@ != "Error: PollCannotBeEven"@) by { assert("Error: InvalidDataType"@.len() != "Error: PollCannotBeEven"@.len()); }
    assert("Error: InvalidDataType"@ != "Error: WagerHasNoFunds"@) by { assert("Error: InvalidDataType"@[7] != "Error: WagerHasNoFunds"@[7]); }
    assert("Error: InvalidInput"@ != "Error: InvalidKey"@) by { assert("Error: InvalidInput"@.len() != "Error: InvalidKey"@.len()); }
    assert("Error: InvalidInput"@ != "Error: InvalidCommand"@) by { assert("Error: InvalidInput"@.len() != "Error: InvalidCommand"@.len()); }
    assert("Error: InvalidInput"@ != "Error: InvalidTallyKey"@) by { assert("Error: InvalidInput"@.len() != "Error: InvalidTallyKey"@.len()); }
    assert("Error: InvalidInput"@ != "Error: InvalidPayoutList"@) by { assert("Error: InvalidInput"@.len() != "Error: InvalidPayoutList"@.len()); }
    assert("Error: InvalidInput"@ != "Error: MaxPollCapacity"@) by { assert("Error: InvalidInput"@.len() != "Error: MaxPollCapacity"@.len()); }
    assert("Error: InvalidInput"@ != "Error: MaxTallyCapacity"@) by { assert("Error: InvalidInput"@.len() != "Error: MaxTallyCapacity"@.len()); }
    assert("Error: InvalidInput"@ != "Error: MissingSigner"@) by { assert("Error: InvalidInput"@.len() != "Error: MissingSigner"@.len()); }
    assert("Error: InvalidInput"@ != "Error: PollAlreadyCreated"@) by { assert("Error: InvalidInput"@.len() != "Error: PollAlreadyCreated"@.len()); }
    assert("Error: InvalidInput"@ != "Error: PollAlreadyFinished"@) by { assert("Error: InvalidInput"@.len() != "Error: PollAlreadyFinished"@.len()); }
    assert("Error: InvalidInput"@ != "Error: PollNotFinished"@) by { assert("Error: InvalidInput"@.len() != "Error: PollNotFinished"@.len()); }
    assert("Error: InvalidInput"@ != "Error: PollHasNoFunds"@) by { assert("Error: InvalidInput"@.len() != "Error: PollHasNoFunds"@.len()); }
    assert("Error: InvalidInput"@ != "Error: PollCannotBeEven"@) by { assert("Error: InvalidInput"@.len() != "Error: PollCannotBeEven"@.len()); }
    assert("Error: InvalidInput"@ != "Error: WagerHasNoFunds"@) by { assert("Error: InvalidInput"@.len() != "Error: WagerHasNoFunds"@.len()); }
    assert("Error: InvalidKey"@ != "Error: InvalidCommand"@) by { assert("Error: InvalidKey"@.len() != "Error: InvalidCommand"@.len()); }
    assert("Error: InvalidKey"@ != "Error: InvalidTallyKey"@) by { assert("Error: InvalidKey"@.len() != "Error: InvalidTallyKey"@.len()); }
    assert("Error: InvalidKey"@ != "Error: InvalidPayoutList"@) by { assert("Error: InvalidKey"@.len() != "Error: InvalidPayoutList"@.len()); }
    assert("Error: InvalidKey"@ != "Error: MaxPollCapacity"@) by { assert("Error: InvalidKey"@.len() != "Error: MaxPollCapacity"@.len()); }
    assert("Error: InvalidKey"@ != "Error: MaxTallyCapacity"@) by { assert("Error: InvalidKey"@.len() != "Error: MaxTallyCapacity"@.len()); }
    assert("Error: InvalidKey"@ != "Error: MissingSigner"@) by { assert("Error: InvalidKey"@.len() != "Error: MissingSigner"@.len()); }
    assert("Error: InvalidKey"@ != "Error: PollAlreadyCreated"@) by { assert("Error: InvalidKey"@.len() != "Error: PollAlreadyCreated"@.len()); }
    assert("Error: InvalidKey"@ != "Error: PollAlreadyFinished"@) by { assert("Error: InvalidKey"@.len() != "Error: PollAlreadyFinished"@.len()); }
    assert("Error: InvalidKey"@ != "Error: PollNotFinished"@) by { assert("Error: InvalidKey"@.len() != "Error: PollNotFinished"@.len()); }
    assert("Error: InvalidKey"@ != "Error: PollHasNoFunds"@) by { assert("Error: InvalidKey"@.len() != "Error: PollHasNoFunds"@.len()); }
    assert("Error: InvalidKey"@ != "Error: PollCannotBeEven"@) by { assert("Error: InvalidKey"@.len() != "Error: PollCannotBeEven"@.len()); }
    assert("Error: InvalidKey"@ != "Error: WagerHasNoFunds"@) by { assert("Error: InvalidKey"@.len() != "Error: WagerHasNoFunds"@.len()); }
    assert("Error: InvalidCommand"@ != "Error: InvalidTallyKey"@) by { assert("Error: InvalidCommand"@.len() != "Error: InvalidTallyKey"@.len()); }
    assert("Error: InvalidCommand"@ != "Error: InvalidPayoutList"@) by { assert("Error: InvalidCommand"@.len() != "Error: InvalidPayoutList"@.len()); }
    assert("Error: InvalidCommand"@ != "Error: MaxPollCapacity"@) by { assert("Error: InvalidCommand"@.len() != "Error: MaxPollCapacity"@.len()); }
    assert("Error: InvalidCommand"@ != "Error: MaxTallyCapacity"@) by { assert("Error: InvalidCommand"@.len() != "Error: MaxTallyCapacity"@.len()); }
    assert("Error: InvalidCommand"@ != "Error: MissingSigner"@) by { assert("Error: InvalidCommand"@.len() != "Error: MissingSigner"@.len()); }
    assert("Error: InvalidCommand"@ != "Error: PollAlreadyCreated"@) by { assert("Error: InvalidCommand"@.len() != "Error: PollAlreadyCreated"@.len()); }
    assert("Error: InvalidCommand"@ != "Error: PollAlreadyFinished"@) by { assert("Error: InvalidCommand"@.len() != "Error: PollAlreadyFinished"@.len()); }
    assert("Error: InvalidCommand"@ != "Error: PollNotFinished"@) by { assert("Error: InvalidCommand"@.len() != "Error: PollNotFinished"@.len()); }
    assert("Error: InvalidCommand"@ != "Error: PollHasNoFunds"@) by { assert("Error: InvalidCommand"@[7] != "Error: PollHasNoFunds"@[7]); }
    assert("Error: InvalidCommand"@ != "Error: PollCannotBeEven"@) by { assert("Error: InvalidCommand"@.len() != "Error: PollCannotBeEven"@.len()); }
    assert("Error: InvalidCommand"@ != "Error: WagerHasNoFunds"@) by { assert("Error: InvalidCommand"@.len() != "Error: WagerHasNoFunds"@.len()); }
    assert("Error: InvalidTallyKey"@ != "Error: InvalidPayoutList"@) by { assert("Error: InvalidTallyKey"@.len() != "Error: InvalidPayoutList"@.len()); }
    assert("Error: InvalidTallyKey"@ != "Error: MaxPollCapacity"@) by { assert("Error: InvalidTallyKey"@[7] != "Error: MaxPollCapacity"@[7]); }
    assert("Error: InvalidTallyKey"@ != "Error: MaxTallyCapacity"@) by { assert("Error: InvalidTallyKey"@.len() != "Error: MaxTallyCapacity"@.len()); }
    assert("Error: InvalidTallyKey"@ != "Error: MissingSigner"@) by { assert("Error: InvalidTallyKey"@.len() != "Error: MissingSigner"@.len()); }
    assert("Error: InvalidTallyKey"@ != "Error: PollAlreadyCreated"@) by { assert("Error: InvalidTallyKey"@.len() != "Error: PollAlreadyCreated"@.len()); }
    assert("Error: InvalidTallyKey"@ != "Error: PollAlreadyFinished"@) by { assert("Error: InvalidTallyKey"@.len() != "Error: PollAlreadyFinished"@.len()); }
    assert("Error: InvalidTallyKey"@ != "Error: PollNotFinished"@) by { assert("Error: InvalidTallyKey"@[7] != "Error: PollNotFinished"@[7]); }
    assert("Error: InvalidTallyKey"@ != "Error: PollHasNoFunds"@) by { assert("Error: InvalidTallyKey"@.len() != "Error: PollHasNoFunds"@.len()); }
    assert("Error: InvalidTallyKey"@ != "Error: PollCannotBeEven"@) by { assert("Error: InvalidTallyKey"@.len() != "Error: PollCannotBeEven"@.len()); }
    assert("Error: InvalidTallyKey"@ != "Error: WagerHasNoFunds"@) by { assert("Error: InvalidTallyKey"@[7] != "Error: WagerHasNoFunds"@[7]); }
    assert("Error: InvalidPayoutList"@ != "Error: MaxPollCapacity"@) by { assert("Error: InvalidPayoutList"@.len() != "Error: MaxPollCapacity"@.len()); }
    assert("Error: InvalidPayoutList"@ != "Error: MaxTallyCapacity"@) by { assert("Error: InvalidPayoutList"@.len() != "Error: MaxTallyCapacity"@.len()); }
    assert("Error: InvalidPayoutList"@ != "Error: MissingSigner"@) by { assert("Error: InvalidPayoutList"@.len() != "Error: MissingSigner"@.len()); }
    assert("Error: InvalidPayoutList"@ != "Error: PollAlreadyCreated"@) by { assert("Error: InvalidPayoutList"@.len() != "Error: PollAlreadyCreated"@.len()); }
    assert("Error: InvalidPayoutList"@ != "Error: PollAlreadyFinished"@) by { assert("Error: InvalidPayoutList"@.len() != "Error: PollAlreadyFinished"@.len()); }
    assert("Error: InvalidPayoutList"@ != "Error: PollNotFinished"@) by { assert("Error: InvalidPayoutList"@.len() != "Error: PollNotFinished"@.len()); }
    assert("Error: InvalidPayoutList"@ != "Error: PollHasNoFunds"@) by { assert("Error: InvalidPayoutList"@.len() != "Error: PollHasNoFunds"@.len()); }
    assert("Error: InvalidPayoutList"@ != "Error: PollCannotBeEven"@) by { assert("Error: InvalidPayoutList"@.len() != "Error: PollCannotBeEven"@.len()); }
    assert("Error: InvalidPayoutList"@ != "Error: WagerHasNoFunds"@) by { assert("Error: InvalidPayoutList"@.len() != "Error: WagerHasNoFunds"@.len()); }
    assert("Error: MaxPollCapacity"@ != "Error: MaxTallyCapacity"@) by { assert("Error: MaxPollCapacity"@.len() != "Error: MaxTallyCapacity"@.len()); }
    assert("Error: MaxPollCapacity"@ != "Error: MissingSigner"@) by { assert("Error: MaxPollCapacity"@.len() != "Error: MissingSigner"@.len()); }
    assert("Error: MaxPollCapacity"@ != "Error: PollAlreadyCreated"@) by { assert("Error: MaxPollCapacity"@.len() != "Error: PollAlreadyCreated"@.len()); }
    assert("Error: MaxPollCapacity"@ != "Error: PollAlreadyFinished"@) by { assert("Error: MaxPollCapacity"@.len() != "Error: PollAlreadyFinished"@.len()); }
    assert("Error: MaxPollCapacity"@ != "Error: PollNotFinished"@) by { assert("Error: MaxPollCapacity"@[7] != "Error: PollNotFinished"@[7]); }
    assert("Error: MaxPollCapacity"@ != "Error: PollHasNoFunds"@) by { assert("Error: MaxPollCapacity"@.len() != "Error: PollHasNoFunds"@.len()); }
    assert("Error: MaxPollCapacity"@ != "Error: PollCannotBeEven"@) by { assert("Error: MaxPollCapacity"@.len() != "Error: PollCannotBeEven"@.len()); }
    assert("Error: MaxPollCapacity"@ != "Error: WagerHasNoFunds"@) by { assert("Error: MaxPollCapacity"@[7] != "Error: WagerHasNoFunds"@[7]); }
    assert("Error: MaxTallyCapacity"@ != "Error: MissingSigner"@) by { assert("Error: MaxTallyCapacity"@.len() != "Error: MissingSigner"@.len()); }
    assert("Error: MaxTallyCapacity"@ != "Error: PollAlreadyCreated"@) by { assert("Error: MaxTallyCapacity"@.len() != "Error: PollAlreadyCreated"@.len()); }
    assert("Error: MaxTallyCapacity"@ != "Error: PollAlreadyFinished"@) by { assert("Error: MaxTallyCapacity"@.len() != "Error: PollAlreadyFinished"@.len()); }
    assert("Error: MaxTallyCapacity"@ != "Error: PollNotFinished"@) by { assert("Error: MaxTallyCapacity"@.len() != "Error: PollNotFinished"@.len()); }
    assert("Error: MaxTallyCapacity"@ != "Error: PollHasNoFunds"@) by { assert("Error: MaxTallyCapacity"@.len() != "Error: PollHasNoFunds"@.len()); }
    assert("Error: MaxTallyCapacity"@ != "Error: PollCannotBeEven"@) by { assert("Error: MaxTallyCapacity"@[7] != "Error: PollCannotBeEven"@[7]); }
    assert("Error: MaxTallyCapacity"@ != "Error: WagerHasNoFunds"@) by { assert("Error: MaxTallyCapacity"@.len() != "Error: WagerHasNoFunds"@.len()); }
    assert("Error: MissingSigner"@ != "Error: PollAlreadyCreated"@) by { assert("Error: MissingSigner"@.len() != "Error: PollAlreadyCreated"@.len()); }
    assert("Error: MissingSigner"@ != "Error: PollAlreadyFinished"@) by { assert("Error: MissingSigner"@.len() != "Error: PollAlreadyFinished"@.len()); }
    assert("Error: MissingSigner"@ != "Error: PollNotFinished"@) by { assert("Error: MissingSigner"@.len() != "Error: PollNotFinished"@.len()); }
    assert("Error: MissingSigner"@ != "Error: PollHasNoFunds"@) by { assert("Error: MissingSigner"@.len() != "Error: PollHasNoFunds"@.len()); }
    assert("Error: MissingSigner"@ != "Error: PollCannotBeEven"@) by { assert("Error: MissingSigner"@.len() != "Error: PollCannotBeEven"@.len()); }
    assert("Error: MissingSigner"@ != "Error: WagerHasNoFunds"@) by { assert("Error: MissingSigner"@.len() != "Error: WagerHasNoFunds"@.len()); }
    assert("Error: PollAlreadyCreated"@ != "Error: PollAlreadyFinished"@) by { assert("Error: PollAlreadyCreated"@.len() != "Error: PollAlreadyFinished"@.len()); }
    assert("Error: PollAlreadyCreated"@ != "Error: PollNotFinished"@) by { assert("Error: PollAlreadyCreated"@.len() != "Error: PollNotFinished"@.len()); }
    assert("Error: PollAlreadyCreated"@ != "Error: PollHasNoFunds"@) by { assert("Error: PollAlreadyCreated"@.len() != "Error: PollHasNoFunds"@.len()); }
    assert("Error: PollAlreadyCreated"@ != "Error: PollCannotBeEven"@) by { assert("Error: PollAlreadyCreated"@.len() != "Error: PollCannotBeEven"@.len()); }
    assert("Error: PollAlreadyCreated"@ != "Error: WagerHasNoFunds"@) by { assert("Error: PollAlreadyCreated"@.len() != "Error: WagerHasNoFunds"@.len()); }
    assert("Error: PollAlreadyFinished"@ != "Error: PollNotFinished"@) by { assert("Error: PollAlreadyFinished"@.len() != "Error: PollNotFinished"@.len()); }
    assert("Error: PollAlreadyFinished"@ != "Error: PollHasNoFunds"@) by { assert("Error: PollAlreadyFinished"@.len() != "Error: PollHasNoFunds"@.len()); }
    assert("Error: PollAlreadyFinished"@ != "Error: PollCannotBeEven"@) by { assert("Error: PollAlreadyFinished"@.len() != "Error: PollCannotBeEven"@.len()); }
    assert("Error: PollAlreadyFinished"@ != "Error: WagerHasNoFunds"@) by { assert("Error: PollAlreadyFinished"@.len() != "Error: WagerHasNoFunds"@.len()); }
    assert("Error: PollNotFinished"@ != "Error: PollHasNoFunds"@) by { assert("Error: PollNotFinished"@.len() != "Error: PollHasNoFunds"@.len()); }
    assert("Error: PollNotFinished"@ != "Error: PollCannotBeEven"@) by { assert("Error: PollNotFinished"@.len() != "Error: PollCannotBeEven"@.len()); }
    assert("Error: PollNotFinished"@ != "Error: WagerHasNoFunds"@) by { assert("Error: PollNotFinished"@[7] != "Error: WagerHasNoFunds"@[7]); }
    assert("Error: PollHasNoFunds"@ != "Error: PollCannotBeEven"@) by { assert("Error: PollHasNoFunds"@.len() != "Error: PollCannotBeEven"@.len()); }
    assert("Error: PollHasNoFunds"@ != "Error: WagerHasNoFunds"@) by { assert("Error: PollHasNoFunds"@.len() != "Error: WagerHasNoFunds"@.len()); }
    assert("Error: PollCannotBeEven"@ != "Error: WagerHasNoFunds"@) by { assert("Error: PollCannotBeEven"@.len() != "Error: WagerHasNoFunds"@.len()); }
}

/// Relies on `std::io::Stdout`'s `Write` impl: writes the given line,
/// followed by a newline, to the host's standard output.
#[verifier::external_body]
fn emit_line(line: &String) {
    let _ = writeln!(std::io::stdout(), "{}", line);
}

} // verus!
