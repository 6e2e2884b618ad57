//! Which variant names a diagnostic line mentions.
//!
//! A client reads the failure variant out of a failed transaction's log, so
//! a diagnostic line must carry its own variant's name and must not carry
//! any other variant's name. [`mentions`] states what "carries" means — the
//! name occurs, character for character, at some offset of the line — and
//! [`lemma_message_names_its_variant_only`] proves it of every pair of
//! variants.

use vstd::prelude::*;

use crate::errors::{lemma_message_is_prefix_plus_name, ProgramError};

verus! {


/// Whether `pat` matches `line` at offset `i`, comparing from `pat`'s
/// index `j` on.
pub open spec fn match_at(line: Seq<char>, pat: Seq<char>, i: int, j: int) -> bool
    decreases pat.len() - j,
{
    if j >= pat.len() {
        true
    } else if line[i + j] != pat[j] {
        false
    } else {
        match_at(line, pat, i, j + 1)
    }
}

/// Whether `pat` occurs in `line` at offset `i` or later.
pub open spec fn occurs_from(line: Seq<char>, pat: Seq<char>, i: int) -> bool
    decreases line.len() - i + 1,
{
    if i + pat.len() > line.len() {
        false
    } else if match_at(line, pat, i, 0) {
        true
    } else {
        occurs_from(line, pat, i + 1)
    }
}

/// Whether the line mentions `pat`: `pat` occurs somewhere in it.
pub open spec fn mentions(line: Seq<char>, pat: Seq<char>) -> bool {
    occurs_from(line, pat, 0)
}

/// A full match at offset `j == 0` onward means the characters agree from
/// `j` to the pattern's end.
proof fn lemma_match_at_gives_eq(line: Seq<char>, pat: Seq<char>, i: int, j: int)
    requires
        0 <= i,
        0 <= j <= pat.len(),
        i + pat.len() <= line.len(),
        match_at(line, pat, i, j),
    ensures
        forall|m: int| j <= m < pat.len() ==> line[i + m] == pat[m],
    decreases pat.len() - j,
{
    if j < pat.len() {
        lemma_match_at_gives_eq(line, pat, i, j + 1);
    }
}

/// A failed match from `j` on means the extracted window differs from the
/// pattern.
proof fn lemma_mismatch_gives_ne(line: Seq<char>, pat: Seq<char>, i: int, j: int)
    requires
        0 <= i,
        0 <= j <= pat.len(),
        i + pat.len() <= line.len(),
        !match_at(line, pat, i, j),
    ensures
        line.subrange(i, i + pat.len() as int) != pat,
    decreases pat.len() - j,
{
    if j >= pat.len() {
        assert(false);
    } else if line[i + j] != pat[j] {
        assert(line.subrange(i, i + pat.len() as int)[j] == line[i + j]);
    } else {
        lemma_mismatch_gives_ne(line, pat, i, j + 1);
    }
}

/// A successful scan from `k` yields a witness offset.
proof fn lemma_scan_finds(line: Seq<char>, pat: Seq<char>, k: int)
    requires
        0 <= k,
        occurs_from(line, pat, k),
    ensures
        exists|i: int|
            k <= i && i + pat.len() <= line.len() && #[trigger] line.subrange(
                i,
                i + pat.len() as int,
            ) == pat,
    decreases line.len() - k + 1,
{
    if k + pat.len() > line.len() {
        assert(false);
    } else if match_at(line, pat, k, 0) {
        lemma_match_at_gives_eq(line, pat, k, 0);
        assert(line.subrange(k, k + pat.len() as int) =~= pat);
    } else {
        lemma_scan_finds(line, pat, k + 1);
    }
}

/// A failed scan from `k` rules out every offset from `k` on.
proof fn lemma_scan_misses(line: Seq<char>, pat: Seq<char>, k: int, i: int)
    requires
        0 <= k <= i,
        i + pat.len() <= line.len(),
        !occurs_from(line, pat, k),
    ensures
        line.subrange(i, i + pat.len() as int) != pat,
    decreases i - k,
{
    if i == k {
        lemma_mismatch_gives_ne(line, pat, k, 0);
    } else {
        lemma_scan_misses(line, pat, k + 1, i);
    }
}

/// Law: the scanning definition of [`mentions`] agrees with the natural
/// one — some offset of the line carries the pattern.
pub proof fn lemma_mentions_characterization(line: Seq<char>, pat: Seq<char>)
    ensures
        mentions(line, pat) <==> exists|i: int|
            0 <= i && i + pat.len() <= line.len() && #[trigger] line.subrange(
                i,
                i + pat.len() as int,
            ) == pat,
{
    if mentions(line, pat) {
        lemma_scan_finds(line, pat, 0);
    } else {
        assert forall|i: int|
            0 <= i && i + pat.len() <= line.len() implies #[trigger] line.subrange(
            i,
            i + pat.len() as int,
        ) != pat by {
            lemma_scan_misses(line, pat, 0, i);
        }
    }
}

proof fn lemma_no_foreign_name_account_not_new(w: ProgramError)
    ensures
        w != ProgramError::AccountNotNew ==> !mentions(ProgramError::AccountNotNew.spec_message(), w.spec_name()),
{
    reveal_strlit("Error: AccountNotNew");
    reveal_strlit("AccountDataTooSmall");
    reveal_strlit("CannotPayoutToLosers");
    reveal_strlit("InvalidAccount");
    reveal_strlit("InvalidDataType");
    reveal_strlit("InvalidInput");
    reveal_strlit("InvalidKey");
    reveal_strlit("InvalidCommand");
    reveal_strlit("InvalidTallyKey");
    reveal_strlit("InvalidPayoutList");
    reveal_strlit("MaxPollCapacity");
    reveal_strlit("MaxTallyCapacity");
    reveal_strlit("MissingSigner");
    reveal_strlit("PollAlreadyCreated");
    reveal_strlit("PollAlreadyFinished");
    reveal_strlit("PollNotFinished");
    reveal_strlit("PollHasNoFunds");
    reveal_strlit("PollCannotBeEven");
    reveal_strlit("WagerHasNoFunds");
    reveal_with_fuel(occurs_from, 30);
    reveal_with_fuel(match_at, 30);
    assert(!occurs_from("Error: AccountNotNew"@, "AccountDataTooSmall"@, 0));
    assert(!occurs_from("Error: AccountNotNew"@, "CannotPayoutToLosers"@, 0));
    assert(!occurs_from("Error: AccountNotNew"@, "InvalidAccount"@, 0));
    assert(!occurs_from("Error: AccountNotNew"@, "InvalidDataType"@, 0));
    assert(!occurs_from("Error: AccountNotNew"@, "InvalidInput"@, 0));
    assert(!occurs_from("Error: AccountNotNew"@, "InvalidKey"@, 0));
    assert(!occurs_from("Error: AccountNotNew"@, "InvalidCommand"@, 0));
    assert(!occurs_from("Error: AccountNotNew"@, "InvalidTallyKey"@, 0));
    assert(!occurs_from("Error: AccountNotNew"@, "InvalidPayoutList"@, 0));
    assert(!occurs_from("Error: AccountNotNew"@, "MaxPollCapacity"@, 0));
    assert(!occurs_from("Error: AccountNotNew"@, "MaxTallyCapacity"@, 0));
    assert(!occurs_from("Error: AccountNotNew"@, "MissingSigner"@, 0));
    assert(!occurs_from("Error: AccountNotNew"@, "PollAlreadyCreated"@, 0));
    assert(!occurs_from("Error: AccountNotNew"@, "PollAlreadyFinished"@, 0));
    assert(!occurs_from("Error: AccountNotNew"@, "PollNotFinished"@, 0));
    assert(!occurs_from("Error: AccountNotNew"@, "PollHasNoFunds"@, 0));
    assert(!occurs_from("Error: AccountNotNew"@, "PollCannotBeEven"@, 0));
    assert(!occurs_from("Error: AccountNotNew"@, "WagerHasNoFunds"@, 0));
}

proof fn lemma_no_foreign_name_account_data_too_small(w: ProgramError)
    ensures
        w != ProgramError::AccountDataTooSmall ==> !mentions(ProgramError::AccountDataTooSmall.spec_message(), w.spec_name()),
{
    reveal_strlit("Error: AccountDataTooSmall");
    reveal_strlit("AccountNotNew");
    reveal_strlit("CannotPayoutToLosers");
    reveal_strlit("InvalidAccount");
    reveal_strlit("InvalidDataType");
    reveal_strlit("InvalidInput");
    reveal_strlit("InvalidKey");
    reveal_strlit("InvalidCommand");
    reveal_strlit("InvalidTallyKey");
    reveal_strlit("InvalidPayoutList");
    reveal_strlit("MaxPollCapacity");
    reveal_strlit("MaxTallyCapacity");
    reveal_strlit("MissingSigner");
    reveal_strlit("PollAlreadyCreated");
    reveal_strlit("PollAlreadyFinished");
    reveal_strlit("PollNotFinished");
    reveal_strlit("PollHasNoFunds");
    reveal_strlit("PollCannotBeEven");
    reveal_strlit("WagerHasNoFunds");
    reveal_with_fuel(occurs_from, 30);
    reveal_with_fuel(match_at, 30);
    assert(!occurs_from("Error: AccountDataTooSmall"@, "AccountNotNew"@, 0));
    assert(!occurs_from("Error: AccountDataTooSmall"@, "CannotPayoutToLosers"@, 0));
    assert(!occurs_from("Error: AccountDataTooSmall"@, "InvalidAccount"@, 0));
    assert(!occurs_from("Error: AccountDataTooSmall"@, "InvalidDataType"@, 0));
    assert(!occurs_from("Error: AccountDataTooSmall"@, "InvalidInput"@, 0));
    assert(!occurs_from("Error: AccountDataTooSmall"@, "InvalidKey"@, 0));
    assert(!occurs_from("Error: AccountDataTooSmall"@, "InvalidCommand"@, 0));
    assert(!occurs_from("Error: AccountDataTooSmall"@, "InvalidTallyKey"@, 0));
    assert(!occurs_from("Error: AccountDataTooSmall"@, "InvalidPayoutList"@, 0));
    assert(!occurs_from("Error: AccountDataTooSmall"@, "MaxPollCapacity"@, 0));
    assert(!occurs_from("Error: AccountDataTooSmall"@, "MaxTallyCapacity"@, 0));
    assert(!occurs_from("Error: AccountDataTooSmall"@, "MissingSigner"@, 0));
    assert(!occurs_from("Error: AccountDataTooSmall"@, "PollAlreadyCreated"@, 0));
    assert(!occurs_from("Error: AccountDataTooSmall"@, "PollAlreadyFinished"@, 0));
    assert(!occurs_from("Error: AccountDataTooSmall"@, "PollNotFinished"@, 0));
    assert(!occurs_from("Error: AccountDataTooSmall"@, "PollHasNoFunds"@, 0));
    assert(!occurs_from("Error: AccountDataTooSmall"@, "PollCannotBeEven"@, 0));
    assert(!occurs_from("Error: AccountDataTooSmall"@, "WagerHasNoFunds"@, 0));
}

proof fn lemma_no_foreign_name_cannot_payout_to_losers(w: ProgramError)
    ensures
        w != ProgramError::CannotPayoutToLosers ==> !mentions(ProgramError::CannotPayoutToLosers.spec_message(), w.spec_name()),
{
    reveal_strlit("Error: CannotPayoutToLosers");
    reveal_strlit("AccountNotNew");
    reveal_strlit("AccountDataTooSmall");
    reveal_strlit("InvalidAccount");
    reveal_strlit("InvalidDataType");
    reveal_strlit("InvalidInput");
    reveal_strlit("InvalidKey");
    reveal_strlit("InvalidCommand");
    reveal_strlit("InvalidTallyKey");
    reveal_strlit("InvalidPayoutList");
    reveal_strlit("MaxPollCapacity");
    reveal_strlit("MaxTallyCapacity");
    reveal_strlit("MissingSigner");
    reveal_strlit("PollAlreadyCreated");
    reveal_strlit("PollAlreadyFinished");
    reveal_strlit("PollNotFinished");
    reveal_strlit("PollHasNoFunds");
    reveal_strlit("PollCannotBeEven");
    reveal_strlit("WagerHasNoFunds");
    reveal_with_fuel(occurs_from, 30);
    reveal_with_fuel(match_at, 30);
    assert(!occurs_from("Error: CannotPayoutToLosers"@, "AccountNotNew"@, 0));
    assert(!occurs_from("Error: CannotPayoutToLosers"@, "AccountDataTooSmall"@, 0));
    assert(!occurs_from("Error: CannotPayoutToLosers"@, "InvalidAccount"@, 0));
    assert(!occurs_from("Error: CannotPayoutToLosers"@, "InvalidDataType"@, 0));
    assert(!occurs_from("Error: CannotPayoutToLosers"@, "InvalidInput"@, 0));
    assert(!occurs_from("Error: CannotPayoutToLosers"@, "InvalidKey"@, 0));
    assert(!occurs_from("Error: CannotPayoutToLosers"@, "InvalidCommand"@, 0));
    assert(!occurs_from("Error: CannotPayoutToLosers"@, "InvalidTallyKey"@, 0));
    assert(!occurs_from("Error: CannotPayoutToLosers"@, "InvalidPayoutList"@, 0));
    assert(!occurs_from("Error: CannotPayoutToLosers"@, "MaxPollCapacity"@, 0));
    assert(!occurs_from("Error: CannotPayoutToLosers"@, "MaxTallyCapacity"@, 0));
    assert(!occurs_from("Error: CannotPayoutToLosers"@, "MissingSigner"@, 0));
    assert(!occurs_from("Error: CannotPayoutToLosers"@, "PollAlreadyCreated"@, 0));
    assert(!occurs_from("Error: CannotPayoutToLosers"@, "PollAlreadyFinished"@, 0));
    assert(!occurs_from("Error: CannotPayoutToLosers"@, "PollNotFinished"@, 0));
    assert(!occurs_from("Error: CannotPayoutToLosers"@, "PollHasNoFunds"@, 0));
    assert(!occurs_from("Error: CannotPayoutToLosers"@, "PollCannotBeEven"@, 0));
    assert(!occurs_from("Error: CannotPayoutToLosers"@, "WagerHasNoFunds"@, 0));
}

proof fn lemma_no_foreign_name_invalid_account(w: ProgramError)
    ensures
        w != ProgramError::InvalidAccount ==> !mentions(ProgramError::InvalidAccount.spec_message(), w.spec_name()),
{
    reveal_strlit("Error: InvalidAccount");
    reveal_strlit("AccountNotNew");
    reveal_strlit("AccountDataTooSmall");
    reveal_strlit("CannotPayoutToLosers");
    reveal_strlit("InvalidDataType");
    reveal_strlit("InvalidInput");
    reveal_strlit("InvalidKey");
    reveal_strlit("InvalidCommand");
    reveal_strlit("InvalidTallyKey");
    reveal_strlit("InvalidPayoutList");
    reveal_strlit("MaxPollCapacity");
    reveal_strlit("MaxTallyCapacity");
    reveal_strlit("MissingSigner");
    reveal_strlit("PollAlreadyCreated");
    reveal_strlit("PollAlreadyFinished");
    reveal_strlit("PollNotFinished");
    reveal_strlit("PollHasNoFunds");
    reveal_strlit("PollCannotBeEven");
    reveal_strlit("WagerHasNoFunds");
    reveal_with_fuel(occurs_from, 30);
    reveal_with_fuel(match_at, 30);
    assert(!occurs_from("Error: InvalidAccount"@, "AccountNotNew"@, 0));
    assert(!occurs_from("Error: InvalidAccount"@, "AccountDataTooSmall"@, 0));
    assert(!occurs_from("Error: InvalidAccount"@, "CannotPayoutToLosers"@, 0));
    assert(!occurs_from("Error: InvalidAccount"@, "InvalidDataType"@, 0));
    assert(!occurs_from("Error: InvalidAccount"@, "InvalidInput"@, 0));
    assert(!occurs_from("Error: InvalidAccount"@, "InvalidKey"@, 0));
    assert(!occurs_from("Error: InvalidAccount"@, "InvalidCommand"@, 0));
    assert(!occurs_from("Error: InvalidAccount"@, "InvalidTallyKey"@, 0));
    assert(!occurs_from("Error: InvalidAccount"@, "InvalidPayoutList"@, 0));
    assert(!occurs_from("Error: InvalidAccount"@, "MaxPollCapacity"@, 0));
    assert(!occurs_from("Error: InvalidAccount"@, "MaxTallyCapacity"@, 0));
    assert(!occurs_from("Error: InvalidAccount"@, "MissingSigner"@, 0));
    assert(!occurs_from("Error: InvalidAccount"@, "PollAlreadyCreated"@, 0));
    assert(!occurs_from("Error: InvalidAccount"@, "PollAlreadyFinished"@, 0));
    assert(!occurs_from("Error: InvalidAccount"@, "PollNotFinished"@, 0));
    assert(!occurs_from("Error: InvalidAccount"@, "PollHasNoFunds"@, 0));
    assert(!occurs_from("Error: InvalidAccount"@, "PollCannotBeEven"@, 0));
    assert(!occurs_from("Error: InvalidAccount"@, "WagerHasNoFunds"@, 0));
}

proof fn lemma_no_foreign_name_invalid_data_type(w: ProgramError)
    ensures
        w != ProgramError::InvalidDataType ==> !mentions(ProgramError::InvalidDataType.spec_message(), w.spec_name()),
{
    reveal_strlit("Error: InvalidDataType");
    reveal_strlit("AccountNotNew");
    reveal_strlit("AccountDataTooSmall");
    reveal_strlit("CannotPayoutToLosers");
    reveal_strlit("InvalidAccount");
    reveal_strlit("InvalidInput");
    reveal_strlit("InvalidKey");
    reveal_strlit("InvalidCommand");
    reveal_strlit("InvalidTallyKey");
    reveal_strlit("InvalidPayoutList");
    reveal_strlit("MaxPollCapacity");
    reveal_strlit("MaxTallyCapacity");
    reveal_strlit("MissingSigner");
    reveal_strlit("PollAlreadyCreated");
    reveal_strlit("PollAlreadyFinished");
    reveal_strlit("PollNotFinished");
    reveal_strlit("PollHasNoFunds");
    reveal_strlit("PollCannotBeEven");
    reveal_strlit("WagerHasNoFunds");
    reveal_with_fuel(occurs_from, 30);
    reveal_with_fuel(match_at, 30);
    assert(!occurs_from("Error: InvalidDataType"@, "AccountNotNew"@, 0));
    assert(!occurs_from("Error: InvalidDataType"@, "AccountDataTooSmall"@, 0));
    assert(!occurs_from("Error: InvalidDataType"@, "CannotPayoutToLosers"@, 0));
    assert(!occurs_from("Error: InvalidDataType"@, "InvalidAccount"@, 0));
    assert(!occurs_from("Error: InvalidDataType"@, "InvalidInput"@, 0));
    assert(!occurs_from("Error: InvalidDataType"@, "InvalidKey"@, 0));
    assert(!occurs_from("Error: InvalidDataType"@, "InvalidCommand"@, 0));
    assert(!occurs_from("Error: InvalidDataType"@, "InvalidTallyKey"@, 0));
    assert(!occurs_from("Error: InvalidDataType"@, "InvalidPayoutList"@, 0));
    assert(!occurs_from("Error: InvalidDataType"@, "MaxPollCapacity"@, 0));
    assert(!occurs_from("Error: InvalidDataType"@, "MaxTallyCapacity"@, 0));
    assert(!occurs_from("Error: InvalidDataType"@, "MissingSigner"@, 0));
    assert(!occurs_from("Error: InvalidDataType"@, "PollAlreadyCreated"@, 0));
    assert(!occurs_from("Error: InvalidDataType"@, "PollAlreadyFinished"@, 0));
    assert(!occurs_from("Error: InvalidDataType"@, "PollNotFinished"@, 0));
    assert(!occurs_from("Error: InvalidDataType"@, "PollHasNoFunds"@, 0));
    assert(!occurs_from("Error: InvalidDataType"@, "PollCannotBeEven"@, 0));
    assert(!occurs_from("Error: InvalidDataType"@, "WagerHasNoFunds"@, 0));
}

proof fn lemma_no_foreign_name_invalid_input(w: ProgramError)
    ensures
        w != ProgramError::InvalidInput ==> !mentions(ProgramError::InvalidInput.spec_message(), w.spec_name()),
{
    reveal_strlit("Error: InvalidInput");
    reveal_strlit("AccountNotNew");
    reveal_strlit("AccountDataTooSmall");
    reveal_strlit("CannotPayoutToLosers");
    reveal_strlit("InvalidAccount");
    reveal_strlit("InvalidDataType");
    reveal_strlit("InvalidKey");
    reveal_strlit("InvalidCommand");
    reveal_strlit("InvalidTallyKey");
    reveal_strlit("InvalidPayoutList");
    reveal_strlit("MaxPollCapacity");
    reveal_strlit("MaxTallyCapacity");
    reveal_strlit("MissingSigner");
    reveal_strlit("PollAlreadyCreated");
    reveal_strlit("PollAlreadyFinished");
    reveal_strlit("PollNotFinished");
    reveal_strlit("PollHasNoFunds");
    reveal_strlit("PollCannotBeEven");
    reveal_strlit("WagerHasNoFunds");
    reveal_with_fuel(occurs_from, 30);
    reveal_with_fuel(match_at, 30);
    assert(!occurs_from("Error: InvalidInput"@, "AccountNotNew"@, 0));
    assert(!occurs_from("Error: InvalidInput"@, "AccountDataTooSmall"@, 0));
    assert(!occurs_from("Error: InvalidInput"@, "CannotPayoutToLosers"@, 0));
    assert(!occurs_from("Error: InvalidInput"@, "InvalidAccount"@, 0));
    assert(!occurs_from("Error: InvalidInput"@, "InvalidDataType"@, 0));
    assert(!occurs_from("Error: InvalidInput"@, "InvalidKey"@, 0));
    assert(!occurs_from("Error: InvalidInput"@, "InvalidCommand"@, 0));
    assert(!occurs_from("Error: InvalidInput"@, "InvalidTallyKey"@, 0));
    assert(!occurs_from("Error: InvalidInput"@, "InvalidPayoutList"@, 0));
    assert(!occurs_from("Error: InvalidInput"@, "MaxPollCapacity"@, 0));
    assert(!occurs_from("Error: InvalidInput"@, "MaxTallyCapacity"@, 0));
    assert(!occurs_from("Error: InvalidInput"@, "MissingSigner"@, 0));
    assert(!occurs_from("Error: InvalidInput"@, "PollAlreadyCreated"@, 0));
    assert(!occurs_from("Error: InvalidInput"@, "PollAlreadyFinished"@, 0));
    assert(!occurs_from("Error: InvalidInput"@, "PollNotFinished"@, 0));
    assert(!occurs_from("Error: InvalidInput"@, "PollHasNoFunds"@, 0));
    assert(!occurs_from("Error: InvalidInput"@, "PollCannotBeEven"@, 0));
    assert(!occurs_from("Error: InvalidInput"@, "WagerHasNoFunds"@, 0));
}

proof fn lemma_no_foreign_name_invalid_key(w: ProgramError)
    ensures
        w != ProgramError::InvalidKey ==> !mentions(ProgramError::InvalidKey.spec_message(), w.spec_name()),
{
    reveal_strlit("Error: InvalidKey");
    reveal_strlit("AccountNotNew");
    reveal_strlit("AccountDataTooSmall");
    reveal_strlit("CannotPayoutToLosers");
    reveal_strlit("InvalidAccount");
    reveal_strlit("InvalidDataType");
    reveal_strlit("InvalidInput");
    reveal_strlit("InvalidCommand");
    reveal_strlit("InvalidTallyKey");
    reveal_strlit("InvalidPayoutList");
    reveal_strlit("MaxPollCapacity");
    reveal_strlit("MaxTallyCapacity");
    reveal_strlit("MissingSigner");
    reveal_strlit("PollAlreadyCreated");
    reveal_strlit("PollAlreadyFinished");
    reveal_strlit("PollNotFinished");
    reveal_strlit("PollHasNoFunds");
    reveal_strlit("PollCannotBeEven");
    reveal_strlit("WagerHasNoFunds");
    reveal_with_fuel(occurs_from, 30);
    reveal_with_fuel(match_at, 30);
    assert(!occurs_from("Error: InvalidKey"@, "AccountNotNew"@, 0));
    assert(!occurs_from("Error: InvalidKey"@, "AccountDataTooSmall"@, 0));
    assert(!occurs_from("Error: InvalidKey"@, "CannotPayoutToLosers"@, 0));
    assert(!occurs_from("Error: InvalidKey"@, "InvalidAccount"@, 0));
    assert(!occurs_from("Error: InvalidKey"@, "InvalidDataType"@, 0));
    assert(!occurs_from("Error: InvalidKey"@, "InvalidInput"@, 0));
    assert(!occurs_from("Error: InvalidKey"@, "InvalidCommand"@, 0));
    assert(!occurs_from("Error: InvalidKey"@, "InvalidTallyKey"@, 0));
    assert(!occurs_from("Error: InvalidKey"@, "InvalidPayoutList"@, 0));
    assert(!occurs_from("Error: InvalidKey"@, "MaxPollCapacity"@, 0));
    assert(!occurs_from("Error: InvalidKey"@, "MaxTallyCapacity"@, 0));
    assert(!occurs_from("Error: InvalidKey"@, "MissingSigner"@, 0));
    assert(!occurs_from("Error: InvalidKey"@, "PollAlreadyCreated"@, 0));
    assert(!occurs_from("Error: InvalidKey"@, "PollAlreadyFinished"@, 0));
    assert(!occurs_from("Error: InvalidKey"@, "PollNotFinished"@, 0));
    assert(!occurs_from("Error: InvalidKey"@, "PollHasNoFunds"@, 0));
    assert(!occurs_from("Error: InvalidKey"@, "PollCannotBeEven"@, 0));
    assert(!occurs_from("Error: InvalidKey"@, "WagerHasNoFunds"@, 0));
}

proof fn lemma_no_foreign_name_invalid_command(w: ProgramError)
    ensures
        w != ProgramError::InvalidCommand ==> !mentions(ProgramError::InvalidCommand.spec_message(), w.spec_name()),
{
    reveal_strlit("Error: InvalidCommand");
    reveal_strlit("AccountNotNew");
    reveal_strlit("AccountDataTooSmall");
    reveal_strlit("CannotPayoutToLosers");
    reveal_strlit("InvalidAccount");
    reveal_strlit("InvalidDataType");
    reveal_strlit("InvalidInput");
    reveal_strlit("InvalidKey");
    reveal_strlit("InvalidTallyKey");
    reveal_strlit("InvalidPayoutList");
    reveal_strlit("MaxPollCapacity");
    reveal_strlit("MaxTallyCapacity");
    reveal_strlit("MissingSigner");
    reveal_strlit("PollAlreadyCreated");
    reveal_strlit("PollAlreadyFinished");
    reveal_strlit("PollNotFinished");
    reveal_strlit("PollHasNoFunds");
    reveal_strlit("PollCannotBeEven");
    reveal_strlit("WagerHasNoFunds");
    reveal_with_fuel(occurs_from, 30);
    reveal_with_fuel(match_at, 30);
    assert(!occurs_from("Error: InvalidCommand"@, "AccountNotNew"@, 0));
    assert(!occurs_from("Error: InvalidCommand"@, "AccountDataTooSmall"@, 0));
    assert(!occurs_from("Error: InvalidCommand"@, "CannotPayoutToLosers"@, 0));
    assert(!occurs_from("Error: InvalidCommand"@, "InvalidAccount"@, 0));
    assert(!occurs_from("Error: InvalidCommand"@, "InvalidDataType"@, 0));
    assert(!occurs_from("Error: InvalidCommand"@, "InvalidInput"@, 0));
    assert(!occurs_from("Error: InvalidCommand"@, "InvalidKey"@, 0));
    assert(!occurs_from("Error: InvalidCommand"@, "InvalidTallyKey"@, 0));
    assert(!occurs_from("Error: InvalidCommand"@, "InvalidPayoutList"@, 0));
    assert(!occurs_from("Error: InvalidCommand"@, "MaxPollCapacity"@, 0));
    assert(!occurs_from("Error: InvalidCommand"@, "MaxTallyCapacity"@, 0));
    assert(!occurs_from("Error: InvalidCommand"@, "MissingSigner"@, 0));
    assert(!occurs_from("Error: InvalidCommand"@, "PollAlreadyCreated"@, 0));
    assert(!occurs_from("Error: InvalidCommand"@, "PollAlreadyFinished"@, 0));
    assert(!occurs_from("Error: InvalidCommand"@, "PollNotFinished"@, 0));
    assert(!occurs_from("Error: InvalidCommand"@, "PollHasNoFunds"@, 0));
    assert(!occurs_from("Error: InvalidCommand"@, "PollCannotBeEven"@, 0));
    assert(!occurs_from("Error: InvalidCommand"@, "WagerHasNoFunds"@, 0));
}

proof fn lemma_no_foreign_name_invalid_tally_key(w: ProgramError)
    ensures
        w != ProgramError::InvalidTallyKey ==> !mentions(ProgramError::InvalidTallyKey.spec_message(), w.spec_name()),
{
    reveal_strlit("Error: InvalidTallyKey");
    reveal_strlit("AccountNotNew");
    reveal_strlit("AccountDataTooSmall");
    reveal_strlit("CannotPayoutToLosers");
    reveal_strlit("InvalidAccount");
    reveal_strlit("InvalidDataType");
    reveal_strlit("InvalidInput");
    reveal_strlit("InvalidKey");
    reveal_strlit("InvalidCommand");
    reveal_strlit("InvalidPayoutList");
    reveal_strlit("MaxPollCapacity");
    reveal_strlit("MaxTallyCapacity");
    reveal_strlit("MissingSigner");
    reveal_strlit("PollAlreadyCreated");
    reveal_strlit("PollAlreadyFinished");
    reveal_strlit("PollNotFinished");
    reveal_strlit("PollHasNoFunds");
    reveal_strlit("PollCannotBeEven");
    reveal_strlit("WagerHasNoFunds");
    reveal_with_fuel(occurs_from, 30);
    reveal_with_fuel(match_at, 30);
    assert(!occurs_from("Error: InvalidTallyKey"@, "AccountNotNew"@, 0));
    assert(!occurs_from("Error: InvalidTallyKey"@, "AccountDataTooSmall"@, 0));
    assert(!occurs_from("Error: InvalidTallyKey"@, "CannotPayoutToLosers"@, 0));
    assert(!occurs_from("Error: InvalidTallyKey"@, "InvalidAccount"@, 0));
    assert(!occurs_from("Error: InvalidTallyKey"@, "InvalidDataType"@, 0));
    assert(!occurs_from("Error: InvalidTallyKey"@, "InvalidInput"@, 0));
    assert(!occurs_from("Error: InvalidTallyKey"@, "InvalidKey"@, 0));
    assert(!occurs_from("Error: InvalidTallyKey"@, "InvalidCommand"@, 0));
    assert(!occurs_from("Error: InvalidTallyKey"@, "InvalidPayoutList"@, 0));
    assert(!occurs_from("Error: InvalidTallyKey"@, "MaxPollCapacity"@, 0));
    assert(!occurs_from("Error: InvalidTallyKey"@, "MaxTallyCapacity"@, 0));
    assert(!occurs_from("Error: InvalidTallyKey"@, "MissingSigner"@, 0));
    assert(!occurs_from("Error: InvalidTallyKey"@, "PollAlreadyCreated"@, 0));
    assert(!occurs_from("Error: InvalidTallyKey"@, "PollAlreadyFinished"@, 0));
    assert(!occurs_from("Error: InvalidTallyKey"@, "PollNotFinished"@, 0));
    assert(!occurs_from("Error: InvalidTallyKey"@, "PollHasNoFunds"@, 0));
    assert(!occurs_from("Error: InvalidTallyKey"@, "PollCannotBeEven"@, 0));
    assert(!occurs_from("Error: InvalidTallyKey"@, "WagerHasNoFunds"@, 0));
}

proof fn lemma_no_foreign_name_invalid_payout_list(w: ProgramError)
    ensures
        w != ProgramError::InvalidPayoutList ==> !mentions(ProgramError::InvalidPayoutList.spec_message(), w.spec_name()),
{
    reveal_strlit("Error: InvalidPayoutList");
    reveal_strlit("AccountNotNew");
    reveal_strlit("AccountDataTooSmall");
    reveal_strlit("CannotPayoutToLosers");
    reveal_strlit("InvalidAccount");
    reveal_strlit("InvalidDataType");
    reveal_strlit("InvalidInput");
    reveal_strlit("InvalidKey");
    reveal_strlit("InvalidCommand");
    reveal_strlit("InvalidTallyKey");
    reveal_strlit("MaxPollCapacity");
    reveal_strlit("MaxTallyCapacity");
    reveal_strlit("MissingSigner");
    reveal_strlit("PollAlreadyCreated");
    reveal_strlit("PollAlreadyFinished");
    reveal_strlit("PollNotFinished");
    reveal_strlit("PollHasNoFunds");
    reveal_strlit("PollCannotBeEven");
    reveal_strlit("WagerHasNoFunds");
    reveal_with_fuel(occurs_from, 30);
    reveal_with_fuel(match_at, 30);
    assert(!occurs_from("Error: InvalidPayoutList"@, "AccountNotNew"@, 0));
    assert(!occurs_from("Error: InvalidPayoutList"@, "AccountDataTooSmall"@, 0));
    assert(!occurs_from("Error: InvalidPayoutList"@, "CannotPayoutToLosers"@, 0));
    assert(!occurs_from("Error: InvalidPayoutList"@, "InvalidAccount"@, 0));
    assert(!occurs_from("Error: InvalidPayoutList"@, "InvalidDataType"@, 0));
    assert(!occurs_from("Error: InvalidPayoutList"@, "InvalidInput"@, 0));
    assert(!occurs_from("Error: InvalidPayoutList"@, "InvalidKey"@, 0));
    assert(!occurs_from("Error: InvalidPayoutList"@, "InvalidCommand"@, 0));
    assert(!occurs_from("Error: InvalidPayoutList"@, "InvalidTallyKey"@, 0));
    assert(!occurs_from("Error: InvalidPayoutList"@, "MaxPollCapacity"@, 0));
    assert(!occurs_from("Error: InvalidPayoutList"@, "MaxTallyCapacity"@, 0));
    assert(!occurs_from("Error: InvalidPayoutList"@, "MissingSigner"@, 0));
    assert(!occurs_from("Error: InvalidPayoutList"@, "PollAlreadyCreated"@, 0));
    assert(!occurs_from("Error: InvalidPayoutList"@, "PollAlreadyFinished"@, 0));
    assert(!occurs_from("Error: InvalidPayoutList"@, "PollNotFinished"@, 0));
    assert(!occurs_from("Error: InvalidPayoutList"@, "PollHasNoFunds"@, 0));
    assert(!occurs_from("Error: InvalidPayoutList"@, "PollCannotBeEven"@, 0));
    assert(!occurs_from("Error: InvalidPayoutList"@, "WagerHasNoFunds"@, 0));
}

proof fn lemma_no_foreign_name_max_poll_capacity(w: ProgramError)
    ensures
        w != ProgramError::MaxPollCapacity ==> !mentions(ProgramError::MaxPollCapacity.spec_message(), w.spec_name()),
{
    reveal_strlit("Error: MaxPollCapacity");
    reveal_strlit("AccountNotNew");
    reveal_strlit("AccountDataTooSmall");
    reveal_strlit("CannotPayoutToLosers");
    reveal_strlit("InvalidAccount");
    reveal_strlit("InvalidDataType");
    reveal_strlit("InvalidInput");
    reveal_strlit("InvalidKey");
    reveal_strlit("InvalidCommand");
    reveal_strlit("InvalidTallyKey");
    reveal_strlit("InvalidPayoutList");
    reveal_strlit("MaxTallyCapacity");
    reveal_strlit("MissingSigner");
    reveal_strlit("PollAlreadyCreated");
    reveal_strlit("PollAlreadyFinished");
    reveal_strlit("PollNotFinished");
    reveal_strlit("PollHasNoFunds");
    reveal_strlit("PollCannotBeEven");
    reveal_strlit("WagerHasNoFunds");
    reveal_with_fuel(occurs_from, 30);
    reveal_with_fuel(match_at, 30);
    assert(!occurs_from("Error: MaxPollCapacity"@, "AccountNotNew"@, 0));
    assert(!occurs_from("Error: MaxPollCapacity"@, "AccountDataTooSmall"@, 0));
    assert(!occurs_from("Error: MaxPollCapacity"@, "CannotPayoutToLosers"@, 0));
    assert(!occurs_from("Error: MaxPollCapacity"@, "InvalidAccount"@, 0));
    assert(!occurs_from("Error: MaxPollCapacity"@, "InvalidDataType"@, 0));
    assert(!occurs_from("Error: MaxPollCapacity"@, "InvalidInput"@, 0));
    assert(!occurs_from("Error: MaxPollCapacity"@, "InvalidKey"@, 0));
    assert(!occurs_from("Error: MaxPollCapacity"@, "InvalidCommand"@, 0));
    assert(!occurs_from("Error: MaxPollCapacity"@, "InvalidTallyKey"@, 0));
    assert(!occurs_from("Error: MaxPollCapacity"@, "InvalidPayoutList"@, 0));
    assert(!occurs_from("Error: MaxPollCapacity"@, "MaxTallyCapacity"@, 0));
    assert(!occurs_from("Error: MaxPollCapacity"@, "MissingSigner"@, 0));
    assert(!occurs_from("Error: MaxPollCapacity"@, "PollAlreadyCreated"@, 0));
    assert(!occurs_from("Error: MaxPollCapacity"@, "PollAlreadyFinished"@, 0));
    assert(!occurs_from("Error: MaxPollCapacity"@, "PollNotFinished"@, 0));
    assert(!occurs_from("Error: MaxPollCapacity"@, "PollHasNoFunds"@, 0));
    assert(!occurs_from("Error: MaxPollCapacity"@, "PollCannotBeEven"@, 0));
    assert(!occurs_from("Error: MaxPollCapacity"@, "WagerHasNoFunds"@, 0));
}

proof fn lemma_no_foreign_name_max_tally_capacity(w: ProgramError)
    ensures
        w != ProgramError::MaxTallyCapacity ==> !mentions(ProgramError::MaxTallyCapacity.spec_message(), w.spec_name()),
{
    reveal_strlit("Error: MaxTallyCapacity");
    reveal_strlit("AccountNotNew");
    reveal_strlit("AccountDataTooSmall");
    reveal_strlit("CannotPayoutToLosers");
    reveal_strlit("InvalidAccount");
    reveal_strlit("InvalidDataType");
    reveal_strlit("InvalidInput");
    reveal_strlit("InvalidKey");
    reveal_strlit("InvalidCommand");
    reveal_strlit("InvalidTallyKey");
    reveal_strlit("InvalidPayoutList");
    reveal_strlit("MaxPollCapacity");
    reveal_strlit("MissingSigner");
    reveal_strlit("PollAlreadyCreated");
    reveal_strlit("PollAlreadyFinished");
    reveal_strlit("PollNotFinished");
    reveal_strlit("PollHasNoFunds");
    reveal_strlit("PollCannotBeEven");
    reveal_strlit("WagerHasNoFunds");
    reveal_with_fuel(occurs_from, 30);
    reveal_with_fuel(match_at, 30);
    assert(!occurs_from("Error: MaxTallyCapacity"@, "AccountNotNew"@, 0));
    assert(!occurs_from("Error: MaxTallyCapacity"@, "AccountDataTooSmall"@, 0));
    assert(!occurs_from("Error: MaxTallyCapacity"@, "CannotPayoutToLosers"@, 0));
    assert(!occurs_from("Error: MaxTallyCapacity"@, "InvalidAccount"@, 0));
    assert(!occurs_from("Error: MaxTallyCapacity"@, "InvalidDataType"@, 0));
    assert(!occurs_from("Error: MaxTallyCapacity"@, "InvalidInput"@, 0));
    assert(!occurs_from("Error: MaxTallyCapacity"@, "InvalidKey"@, 0));
    assert(!occurs_from("Error: MaxTallyCapacity"@, "InvalidCommand"@, 0));
    assert(!occurs_from("Error: MaxTallyCapacity"@, "InvalidTallyKey"@, 0));
    assert(!occurs_from("Error: MaxTallyCapacity"@, "InvalidPayoutList"@, 0));
    assert(!occurs_from("Error: MaxTallyCapacity"@, "MaxPollCapacity"@, 0));
    assert(!occurs_from("Error: MaxTallyCapacity"@, "MissingSigner"@, 0));
    assert(!occurs_from("Error: MaxTallyCapacity"@, "PollAlreadyCreated"@, 0));
    assert(!occurs_from("Error: MaxTallyCapacity"@, "PollAlreadyFinished"@, 0));
    assert(!occurs_from("Error: MaxTallyCapacity"@, "PollNotFinished"@, 0));
    assert(!occurs_from("Error: MaxTallyCapacity"@, "PollHasNoFunds"@, 0));
    assert(!occurs_from("Error: MaxTallyCapacity"@, "PollCannotBeEven"@, 0));
    assert(!occurs_from("Error: MaxTallyCapacity"@, "WagerHasNoFunds"@, 0));
}

proof fn lemma_no_foreign_name_missing_signer(w: ProgramError)
    ensures
        w != ProgramError::MissingSigner ==> !mentions(ProgramError::MissingSigner.spec_message(), w.spec_name()),
{
    reveal_strlit("Error: MissingSigner");
    reveal_strlit("AccountNotNew");
    reveal_strlit("AccountDataTooSmall");
    reveal_strlit("CannotPayoutToLosers");
    reveal_strlit("InvalidAccount");
    reveal_strlit("InvalidDataType");
    reveal_strlit("InvalidInput");
    reveal_strlit("InvalidKey");
    reveal_strlit("InvalidCommand");
    reveal_strlit("InvalidTallyKey");
    reveal_strlit("InvalidPayoutList");
    reveal_strlit("MaxPollCapacity");
    reveal_strlit("MaxTallyCapacity");
    reveal_strlit("PollAlreadyCreated");
    reveal_strlit("PollAlreadyFinished");
    reveal_strlit("PollNotFinished");
    reveal_strlit("PollHasNoFunds");
    reveal_strlit("PollCannotBeEven");
    reveal_strlit("WagerHasNoFunds");
    reveal_with_fuel(occurs_from, 30);
    reveal_with_fuel(match_at, 30);
    assert(!occurs_from("Error: MissingSigner"@, "AccountNotNew"@, 0));
    assert(!occurs_from("Error: MissingSigner"@, "AccountDataTooSmall"@, 0));
    assert(!occurs_from("Error: MissingSigner"@, "CannotPayoutToLosers"@, 0));
    assert(!occurs_from("Error: MissingSigner"@, "InvalidAccount"@, 0));
    assert(!occurs_from("Error: MissingSigner"@, "InvalidDataType"@, 0));
    assert(!occurs_from("Error: MissingSigner"@, "InvalidInput"@, 0));
    assert(!occurs_from("Error: MissingSigner"@, "InvalidKey"@, 0));
    assert(!occurs_from("Error: MissingSigner"@, "InvalidCommand"@, 0));
    assert(!occurs_from("Error: MissingSigner"@, "InvalidTallyKey"@, 0));
    assert(!occurs_from("Error: MissingSigner"@, "InvalidPayoutList"@, 0));
    assert(!occurs_from("Error: MissingSigner"@, "MaxPollCapacity"@, 0));
    assert(!occurs_from("Error: MissingSigner"@, "MaxTallyCapacity"@, 0));
    assert(!occurs_from("Error: MissingSigner"@, "PollAlreadyCreated"@, 0));
    assert(!occurs_from("Error: MissingSigner"@, "PollAlreadyFinished"@, 0));
    assert(!occurs_from("Error: MissingSigner"@, "PollNotFinished"@, 0));
    assert(!occurs_from("Error: MissingSigner"@, "PollHasNoFunds"@, 0));
    assert(!occurs_from("Error: MissingSigner"@, "PollCannotBeEven"@, 0));
    assert(!occurs_from("Error: MissingSigner"@, "WagerHasNoFunds"@, 0));
}

proof fn lemma_no_foreign_name_poll_already_created(w: ProgramError)
    ensures
        w != ProgramError::PollAlreadyCreated ==> !mentions(ProgramError::PollAlreadyCreated.spec_message(), w.spec_name()),
{
    reveal_strlit("Error: PollAlreadyCreated");
    reveal_strlit("AccountNotNew");
    reveal_strlit("AccountDataTooSmall");
    reveal_strlit("CannotPayoutToLosers");
    reveal_strlit("InvalidAccount");
    reveal_strlit("InvalidDataType");
    reveal_strlit("InvalidInput");
    reveal_strlit("InvalidKey");
    reveal_strlit("InvalidCommand");
    reveal_strlit("InvalidTallyKey");
    reveal_strlit("InvalidPayoutList");
    reveal_strlit("MaxPollCapacity");
    reveal_strlit("MaxTallyCapacity");
    reveal_strlit("MissingSigner");
    reveal_strlit("PollAlreadyFinished");
    reveal_strlit("PollNotFinished");
    reveal_strlit("PollHasNoFunds");
    reveal_strlit("PollCannotBeEven");
    reveal_strlit("WagerHasNoFunds");
    reveal_with_fuel(occurs_from, 30);
    reveal_with_fuel(match_at, 30);
    assert(!occurs_from("Error: PollAlreadyCreated"@, "AccountNotNew"@, 0));
    assert(!occurs_from("Error: PollAlreadyCreated"@, "AccountDataTooSmall"@, 0));
    assert(!occurs_from("Error: PollAlreadyCreated"@, "CannotPayoutToLosers"@, 0));
    assert(!occurs_from("Error: PollAlreadyCreated"@, "InvalidAccount"@, 0));
    assert(!occurs_from("Error: PollAlreadyCreated"@, "InvalidDataType"@, 0));
    assert(!occurs_from("Error: PollAlreadyCreated"@, "InvalidInput"@, 0));
    assert(!occurs_from("Error: PollAlreadyCreated"@, "InvalidKey"@, 0));
    assert(!occurs_from("Error: PollAlreadyCreated"@, "InvalidCommand"@, 0));
    assert(!occurs_from("Error: PollAlreadyCreated"@, "InvalidTallyKey"@, 0));
    assert(!occurs_from("Error: PollAlreadyCreated"@, "InvalidPayoutList"@, 0));
    assert(!occurs_from("Error: PollAlreadyCreated"@, "MaxPollCapacity"@, 0));
    assert(!occurs_from("Error: PollAlreadyCreated"@, "MaxTallyCapacity"@, 0));
    assert(!occurs_from("Error: PollAlreadyCreated"@, "MissingSigner"@, 0));
    assert(!occurs_from("Error: PollAlreadyCreated"@, "PollAlreadyFinished"@, 0));
    assert(!occurs_from("Error: PollAlreadyCreated"@, "PollNotFinished"@, 0));
    assert(!occurs_from("Error: PollAlreadyCreated"@, "PollHasNoFunds"@, 0));
    assert(!occurs_from("Error: PollAlreadyCreated"@, "PollCannotBeEven"@, 0));
    assert(!occurs_from("Error: PollAlreadyCreated"@, "WagerHasNoFunds"@, 0));
}

proof fn lemma_no_foreign_name_poll_already_finished(w: ProgramError)
    ensures
        w != ProgramError::PollAlreadyFinished ==> !mentions(ProgramError::PollAlreadyFinished.spec_message(), w.spec_name()),
{
    reveal_strlit("Error: PollAlreadyFinished");
    reveal_strlit("AccountNotNew");
    reveal_strlit("AccountDataTooSmall");
    reveal_strlit("CannotPayoutToLosers");
    reveal_strlit("InvalidAccount");
    reveal_strlit("InvalidDataType");
    reveal_strlit("InvalidInput");
    reveal_strlit("InvalidKey");
    reveal_strlit("InvalidCommand");
    reveal_strlit("InvalidTallyKey");
    reveal_strlit("InvalidPayoutList");
    reveal_strlit("MaxPollCapacity");
    reveal_strlit("MaxTallyCapacity");
    reveal_strlit("MissingSigner");
    reveal_strlit("PollAlreadyCreated");
    reveal_strlit("PollNotFinished");
    reveal_strlit("PollHasNoFunds");
    reveal_strlit("PollCannotBeEven");
    reveal_strlit("WagerHasNoFunds");
    reveal_with_fuel(occurs_from, 30);
    reveal_with_fuel(match_at, 30);
    assert(!occurs_from("Error: PollAlreadyFinished"@, "AccountNotNew"@, 0));
    assert(!occurs_from("Error: PollAlreadyFinished"@, "AccountDataTooSmall"@, 0));
    assert(!occurs_from("Error: PollAlreadyFinished"@, "CannotPayoutToLosers"@, 0));
    assert(!occurs_from("Error: PollAlreadyFinished"@, "InvalidAccount"@, 0));
    assert(!occurs_from("Error: PollAlreadyFinished"@, "InvalidDataType"@, 0));
    assert(!occurs_from("Error: PollAlreadyFinished"@, "InvalidInput"@, 0));
    assert(!occurs_from("Error: PollAlreadyFinished"@, "InvalidKey"@, 0));
    assert(!occurs_from("Error: PollAlreadyFinished"@, "InvalidCommand"@, 0));
    assert(!occurs_from("Error: PollAlreadyFinished"@, "InvalidTallyKey"@, 0));
    assert(!occurs_from("Error: PollAlreadyFinished"@, "InvalidPayoutList"@, 0));
    assert(!occurs_from("Error: PollAlreadyFinished"@, "MaxPollCapacity"@, 0));
    assert(!occurs_from("Error: PollAlreadyFinished"@, "MaxTallyCapacity"@, 0));
    assert(!occurs_from("Error: PollAlreadyFinished"@, "MissingSigner"@, 0));
    assert(!occurs_from("Error: PollAlreadyFinished"@, "PollAlreadyCreated"@, 0));
    assert(!occurs_from("Error: PollAlreadyFinished"@, "PollNotFinished"@, 0));
    assert(!occurs_from("Error: PollAlreadyFinished"@, "PollHasNoFunds"@, 0));
    assert(!occurs_from("Error: PollAlreadyFinished"@, "PollCannotBeEven"@, 0));
    assert(!occurs_from("Error: PollAlreadyFinished"@, "WagerHasNoFunds"@, 0));
}

proof fn lemma_no_foreign_name_poll_not_finished(w: ProgramError)
    ensures
        w != ProgramError::PollNotFinished ==> !mentions(ProgramError::PollNotFinished.spec_message(), w.spec_name()),
{
    reveal_strlit("Error: PollNotFinished");
    reveal_strlit("AccountNotNew");
    reveal_strlit("AccountDataTooSmall");
    reveal_strlit("CannotPayoutToLosers");
    reveal_strlit("InvalidAccount");
    reveal_strlit("InvalidDataType");
    reveal_strlit("InvalidInput");
    reveal_strlit("InvalidKey");
    reveal_strlit("InvalidCommand");
    reveal_strlit("InvalidTallyKey");
    reveal_strlit("InvalidPayoutList");
    reveal_strlit("MaxPollCapacity");
    reveal_strlit("MaxTallyCapacity");
    reveal_strlit("MissingSigner");
    reveal_strlit("PollAlreadyCreated");
    reveal_strlit("PollAlreadyFinished");
    reveal_strlit("PollHasNoFunds");
    reveal_strlit("PollCannotBeEven");
    reveal_strlit("WagerHasNoFunds");
    reveal_with_fuel(occurs_from, 30);
    reveal_with_fuel(match_at, 30);
    assert(!occurs_from("Error: PollNotFinished"@, "AccountNotNew"@, 0));
    assert(!occurs_from("Error: PollNotFinished"@, "AccountDataTooSmall"@, 0));
    assert(!occurs_from("Error: PollNotFinished"@, "CannotPayoutToLosers"@, 0));
    assert(!occurs_from("Error: PollNotFinished"@, "InvalidAccount"@, 0));
    assert(!occurs_from("Error: PollNotFinished"@, "InvalidDataType"@, 0));
    assert(!occurs_from("Error: PollNotFinished"@, "InvalidInput"@, 0));
    assert(!occurs_from("Error: PollNotFinished"@, "InvalidKey"@, 0));
    assert(!occurs_from("Error: PollNotFinished"@, "InvalidCommand"@, 0));
    assert(!occurs_from("Error: PollNotFinished"@, "InvalidTallyKey"@, 0));
    assert(!occurs_from("Error: PollNotFinished"@, "InvalidPayoutList"@, 0));
    assert(!occurs_from("Error: PollNotFinished"@, "MaxPollCapacity"@, 0));
    assert(!occurs_from("Error: PollNotFinished"@, "MaxTallyCapacity"@, 0));
    assert(!occurs_from("Error: PollNotFinished"@, "MissingSigner"@, 0));
    assert(!occurs_from("Error: PollNotFinished"@, "PollAlreadyCreated"@, 0));
    assert(!occurs_from("Error: PollNotFinished"@, "PollAlreadyFinished"@, 0));
    assert(!occurs_from("Error: PollNotFinished"@, "PollHasNoFunds"@, 0));
    assert(!occurs_from("Error: PollNotFinished"@, "PollCannotBeEven"@, 0));
    assert(!occurs_from("Error: PollNotFinished"@, "WagerHasNoFunds"@, 0));
}

proof fn lemma_no_foreign_name_poll_has_no_funds(w: ProgramError)
    ensures
        w != ProgramError::PollHasNoFunds ==> !mentions(ProgramError::PollHasNoFunds.spec_message(), w.spec_name()),
{
    reveal_strlit("Error: PollHasNoFunds");
    reveal_strlit("AccountNotNew");
    reveal_strlit("AccountDataTooSmall");
    reveal_strlit("CannotPayoutToLosers");
    reveal_strlit("InvalidAccount");
    reveal_strlit("InvalidDataType");
    reveal_strlit("InvalidInput");
    reveal_strlit("InvalidKey");
    reveal_strlit("InvalidCommand");
    reveal_strlit("InvalidTallyKey");
    reveal_strlit("InvalidPayoutList");
    reveal_strlit("MaxPollCapacity");
    reveal_strlit("MaxTallyCapacity");
    reveal_strlit("MissingSigner");
    reveal_strlit("PollAlreadyCreated");
    reveal_strlit("PollAlreadyFinished");
    reveal_strlit("PollNotFinished");
    reveal_strlit("PollCannotBeEven");
    reveal_strlit("WagerHasNoFunds");
    reveal_with_fuel(occurs_from, 30);
    reveal_with_fuel(match_at, 30);
    assert(!occurs_from("Error: PollHasNoFunds"@, "AccountNotNew"@, 0));
    assert(!occurs_from("Error: PollHasNoFunds"@, "AccountDataTooSmall"@, 0));
    assert(!occurs_from("Error: PollHasNoFunds"@, "CannotPayoutToLosers"@, 0));
    assert(!occurs_from("Error: PollHasNoFunds"@, "InvalidAccount"@, 0));
    assert(!occurs_from("Error: PollHasNoFunds"@, "InvalidDataType"@, 0));
    assert(!occurs_from("Error: PollHasNoFunds"@, "InvalidInput"@, 0));
    assert(!occurs_from("Error: PollHasNoFunds"@, "InvalidKey"@, 0));
    assert(!occurs_from("Error: PollHasNoFunds"@, "InvalidCommand"@, 0));
    assert(!occurs_from("Error: PollHasNoFunds"@, "InvalidTallyKey"@, 0));
    assert(!occurs_from("Error: PollHasNoFunds"@, "InvalidPayoutList"@, 0));
    assert(!occurs_from("Error: PollHasNoFunds"@, "MaxPollCapacity"@, 0));
    assert(!occurs_from("Error: PollHasNoFunds"@, "MaxTallyCapacity"@, 0));
    assert(!occurs_from("Error: PollHasNoFunds"@, "MissingSigner"@, 0));
    assert(!occurs_from("Error: PollHasNoFunds"@, "PollAlreadyCreated"@, 0));
    assert(!occurs_from("Error: PollHasNoFunds"@, "PollAlreadyFinished"@, 0));
    assert(!occurs_from("Error: PollHasNoFunds"@, "PollNotFinished"@, 0));
    assert(!occurs_from("Error: PollHasNoFunds"@, "PollCannotBeEven"@, 0));
    assert(!occurs_from("Error: PollHasNoFunds"@, "WagerHasNoFunds"@, 0));
}

proof fn lemma_no_foreign_name_poll_cannot_be_even(w: ProgramError)
    ensures
        w != ProgramError::PollCannotBeEven ==> !mentions(ProgramError::PollCannotBeEven.spec_message(), w.spec_name()),
{
    reveal_strlit("Error: PollCannotBeEven");
    reveal_strlit("AccountNotNew");
    reveal_strlit("AccountDataTooSmall");
    reveal_strlit("CannotPayoutToLosers");
    reveal_strlit("InvalidAccount");
    reveal_strlit("InvalidDataType");
    reveal_strlit("InvalidInput");
    reveal_strlit("InvalidKey");
    reveal_strlit("InvalidCommand");
    reveal_strlit("InvalidTallyKey");
    reveal_strlit("InvalidPayoutList");
    reveal_strlit("MaxPollCapacity");
    reveal_strlit("MaxTallyCapacity");
    reveal_strlit("MissingSigner");
    reveal_strlit("PollAlreadyCreated");
    reveal_strlit("PollAlreadyFinished");
    reveal_strlit("PollNotFinished");
    reveal_strlit("PollHasNoFunds");
    reveal_strlit("WagerHasNoFunds");
    reveal_with_fuel(occurs_from, 30);
    reveal_with_fuel(match_at, 30);
    assert(!occurs_from("Error: PollCannotBeEven"@, "AccountNotNew"@, 0));
    assert(!occurs_from("Error: PollCannotBeEven"@, "AccountDataTooSmall"@, 0));
    assert(!occurs_from("Error: PollCannotBeEven"@, "CannotPayoutToLosers"@, 0));
    assert(!occurs_from("Error: PollCannotBeEven"@, "InvalidAccount"@, 0));
    assert(!occurs_from("Error: PollCannotBeEven"@, "InvalidDataType"@, 0));
    assert(!occurs_from("Error: PollCannotBeEven"@, "InvalidInput"@, 0));
    assert(!occurs_from("Error: PollCannotBeEven"@, "InvalidKey"@, 0));
    assert(!occurs_from("Error: PollCannotBeEven"@, "InvalidCommand"@, 0));
    assert(!occurs_from("Error: PollCannotBeEven"@, "InvalidTallyKey"@, 0));
    assert(!occurs_from("Error: PollCannotBeEven"@, "InvalidPayoutList"@, 0));
    assert(!occurs_from("Error: PollCannotBeEven"@, "MaxPollCapacity"@, 0));
    assert(!occurs_from("Error: PollCannotBeEven"@, "MaxTallyCapacity"@, 0));
    assert(!occurs_from("Error: PollCannotBeEven"@, "MissingSigner"@, 0));
    assert(!occurs_from("Error: PollCannotBeEven"@, "PollAlreadyCreated"@, 0));
    assert(!occurs_from("Error: PollCannotBeEven"@, "PollAlreadyFinished"@, 0));
    assert(!occurs_from("Error: PollCannotBeEven"@, "PollNotFinished"@, 0));
    assert(!occurs_from("Error: PollCannotBeEven"@, "PollHasNoFunds"@, 0));
    assert(!occurs_from("Error: PollCannotBeEven"@, "WagerHasNoFunds"@, 0));
}

proof fn lemma_no_foreign_name_wager_has_no_funds(w: ProgramError)
    ensures
        w != ProgramError::WagerHasNoFunds ==> !mentions(ProgramError::WagerHasNoFunds.spec_message(), w.spec_name()),
{
    reveal_strlit("Error: WagerHasNoFunds");
    reveal_strlit("AccountNotNew");
    reveal_strlit("AccountDataTooSmall");
    reveal_strlit("CannotPayoutToLosers");
    reveal_strlit("InvalidAccount");
    reveal_strlit("InvalidDataType");
    reveal_strlit("InvalidInput");
    reveal_strlit("InvalidKey");
    reveal_strlit("InvalidCommand");
    reveal_strlit("InvalidTallyKey");
    reveal_strlit("InvalidPayoutList");
    reveal_strlit("MaxPollCapacity");
    reveal_strlit("MaxTallyCapacity");
    reveal_strlit("MissingSigner");
    reveal_strlit("PollAlreadyCreated");
    reveal_strlit("PollAlreadyFinished");
    reveal_strlit("PollNotFinished");
    reveal_strlit("PollHasNoFunds");
    reveal_strlit("PollCannotBeEven");
    reveal_with_fuel(occurs_from, 30);
    reveal_with_fuel(match_at, 30);
    assert(!occurs_from("Error: WagerHasNoFunds"@, "AccountNotNew"@, 0));
    assert(!occurs_from("Error: WagerHasNoFunds"@, "AccountDataTooSmall"@, 0));
    assert(!occurs_from("Error: WagerHasNoFunds"@, "CannotPayoutToLosers"@, 0));
    assert(!occurs_from("Error: WagerHasNoFunds"@, "InvalidAccount"@, 0));
    assert(!occurs_from("Error: WagerHasNoFunds"@, "InvalidDataType"@, 0));
    assert(!occurs_from("Error: WagerHasNoFunds"@, "InvalidInput"@, 0));
    assert(!occurs_from("Error: WagerHasNoFunds"@, "InvalidKey"@, 0));
    assert(!occurs_from("Error: WagerHasNoFunds"@, "InvalidCommand"@, 0));
    assert(!occurs_from("Error: WagerHasNoFunds"@, "InvalidTallyKey"@, 0));
    assert(!occurs_from("Error: WagerHasNoFunds"@, "InvalidPayoutList"@, 0));
    assert(!occurs_from("Error: WagerHasNoFunds"@, "MaxPollCapacity"@, 0));
    assert(!occurs_from("Error: WagerHasNoFunds"@, "MaxTallyCapacity"@, 0));
    assert(!occurs_from("Error: WagerHasNoFunds"@, "MissingSigner"@, 0));
    assert(!occurs_from("Error: WagerHasNoFunds"@, "PollAlreadyCreated"@, 0));
    assert(!occurs_from("Error: WagerHasNoFunds"@, "PollAlreadyFinished"@, 0));
    assert(!occurs_from("Error: WagerHasNoFunds"@, "PollNotFinished"@, 0));
    assert(!occurs_from("Error: WagerHasNoFunds"@, "PollHasNoFunds"@, 0));
    assert(!occurs_from("Error: WagerHasNoFunds"@, "PollCannotBeEven"@, 0));
}

/// Law: a variant's diagnostic line mentions that variant's exact name —
/// and mentions no other variant's name anywhere in the line.
pub proof fn lemma_message_names_its_variant_only(v: ProgramError, w: ProgramError)
    ensures
        mentions(v.spec_message(), v.spec_name()),
        v != w ==> !mentions(v.spec_message(), w.spec_name()),
{
    reveal_strlit("Error: ");
    lemma_message_is_prefix_plus_name(v);
    lemma_mentions_characterization(v.spec_message(), v.spec_name());
    assert(v.spec_message().subrange(7, 7 + v.spec_name().len() as int) == v.spec_name());
    match v {
        ProgramError::AccountNotNew => lemma_no_foreign_name_account_not_new(w),
        ProgramError::AccountDataTooSmall => lemma_no_foreign_name_account_data_too_small(w),
        ProgramError::CannotPayoutToLosers => lemma_no_foreign_name_cannot_payout_to_losers(w),
        ProgramError::InvalidAccount => lemma_no_foreign_name_invalid_account(w),
        ProgramError::InvalidDataType => lemma_no_foreign_name_invalid_data_type(w),
        ProgramError::InvalidInput => lemma_no_foreign_name_invalid_input(w),
        ProgramError::InvalidKey => lemma_no_foreign_name_invalid_key(w),
        ProgramError::InvalidCommand => lemma_no_foreign_name_invalid_command(w),
        ProgramError::InvalidTallyKey => lemma_no_foreign_name_invalid_tally_key(w),
        ProgramError::InvalidPayoutList => lemma_no_foreign_name_invalid_payout_list(w),
        ProgramError::MaxPollCapacity => lemma_no_foreign_name_max_poll_capacity(w),
        ProgramError::MaxTallyCapacity => lemma_no_foreign_name_max_tally_capacity(w),
        ProgramError::MissingSigner => lemma_no_foreign_name_missing_signer(w),
        ProgramError::PollAlreadyCreated => lemma_no_foreign_name_poll_already_created(w),
        ProgramError::PollAlreadyFinished => lemma_no_foreign_name_poll_already_finished(w),
        ProgramError::PollNotFinished => lemma_no_foreign_name_poll_not_finished(w),
        ProgramError::PollHasNoFunds => lemma_no_foreign_name_poll_has_no_funds(w),
        ProgramError::PollCannotBeEven => lemma_no_foreign_name_poll_cannot_be_even(w),
        ProgramError::WagerHasNoFunds => lemma_no_foreign_name_wager_has_no_funds(w),
    }
}

} // verus!
