use prediction_poll::diag::{finalize, report, Diagnostics};
use prediction_poll::errors::{ProgramError, ProgramResult};

fn all_variants() -> Vec<ProgramError> {
    vec![
        ProgramError::AccountNotNew,
        ProgramError::AccountDataTooSmall,
        ProgramError::CannotPayoutToLosers,
        ProgramError::InvalidAccount,
        ProgramError::InvalidDataType,
        ProgramError::InvalidInput,
        ProgramError::InvalidKey,
        ProgramError::InvalidCommand,
        ProgramError::InvalidTallyKey,
        ProgramError::InvalidPayoutList,
        ProgramError::MaxPollCapacity,
        ProgramError::MaxTallyCapacity,
        ProgramError::MissingSigner,
        ProgramError::PollAlreadyCreated,
        ProgramError::PollAlreadyFinished,
        ProgramError::PollNotFinished,
        ProgramError::PollHasNoFunds,
        ProgramError::PollCannotBeEven,
        ProgramError::WagerHasNoFunds,
    ]
}

fn all_names() -> Vec<&'static str> {
    vec![
        "AccountNotNew",
        "AccountDataTooSmall",
        "CannotPayoutToLosers",
        "InvalidAccount",
        "InvalidDataType",
        "InvalidInput",
        "InvalidKey",
        "InvalidCommand",
        "InvalidTallyKey",
        "InvalidPayoutList",
        "MaxPollCapacity",
        "MaxTallyCapacity",
        "MissingSigner",
        "PollAlreadyCreated",
        "PollAlreadyFinished",
        "PollNotFinished",
        "PollHasNoFunds",
        "PollCannotBeEven",
        "WagerHasNoFunds",
    ]
}

#[test]
fn message_is_prefix_plus_exact_name() {
    let variants = all_variants();
    let names = all_names();
    for (variant, name) in variants.iter().zip(names.iter()) {
        let line = variant.message();
        assert_eq!(line, format!("Error: {}", name));
    }
}

#[test]
fn message_contains_no_other_variant_name() {
    let variants = all_variants();
    let names = all_names();
    for (i, variant) in variants.iter().enumerate() {
        let line = variant.message();
        for (j, name) in names.iter().enumerate() {
            if i == j {
                assert!(line.contains(name));
            } else {
                assert!(!line.contains(name), "{} holds foreign name {}", line, name);
            }
        }
    }
}

#[test]
fn messages_are_pairwise_distinct() {
    let variants = all_variants();
    for (i, v) in variants.iter().enumerate() {
        for (j, w) in variants.iter().enumerate() {
            if i != j {
                assert_ne!(v.message(), w.message());
            }
        }
    }
}

#[test]
fn message_is_deterministic() {
    let error = ProgramError::MaxTallyCapacity;
    assert_eq!(error.message(), error.message());
    assert_eq!(error.message(), "Error: MaxTallyCapacity");
}

#[test]
fn print_renders_without_panicking() {
    ProgramError::InvalidCommand.print();
}

#[test]
fn report_appends_exactly_one_line() {
    let mut sink = Diagnostics::new();
    assert_eq!(sink.line_count(), 0);
    report(&ProgramError::PollHasNoFunds, &mut sink);
    assert_eq!(sink.line_count(), 1);
    assert_eq!(sink.line(0).as_str(), "Error: PollHasNoFunds");
}

#[test]
fn report_twice_yields_two_identical_lines() {
    let error = ProgramError::InvalidPayoutList;
    let mut sink = Diagnostics::new();
    report(&error, &mut sink);
    report(&error, &mut sink);
    assert_eq!(sink.line_count(), 2);
    assert_eq!(sink.line(0), sink.line(1));
    assert_eq!(sink.line(0).as_str(), "Error: InvalidPayoutList");
}

#[test]
fn success_round_trip_yields_value_and_no_diagnostics() {
    let mut sink = Diagnostics::new();
    let outcome: ProgramResult<u64> = Ok(42);
    let r = finalize(outcome, &mut sink);
    assert_eq!(r, Ok(42));
    assert_eq!(sink.line_count(), 0);
}

#[test]
fn failure_at_dispatch_boundary_reports_once() {
    let mut sink = Diagnostics::new();
    let outcome: ProgramResult<u64> = Err(ProgramError::MissingSigner);
    let r = finalize(outcome, &mut sink);
    assert_eq!(r, Err(ProgramError::MissingSigner));
    assert_eq!(sink.line_count(), 1);
    assert_eq!(sink.line(0).as_str(), "Error: MissingSigner");
}
