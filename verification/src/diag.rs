//! The injected diagnostic sink and the reporting operation.
//!
//! "What failed" (a [`ProgramError`], pure data) is kept separate from "how
//! it is reported": reporting renders the failure's diagnostic line into a
//! sink supplied by the caller, so the taxonomy itself has no dependency on
//! the host environment and reporting can be exercised without one.

use vstd::prelude::*;

use crate::errors::{ProgramError, ProgramResult};

verus! {

/// A diagnostic sink: the ordered lines rendered so far.
///
/// The host's outermost dispatcher owns one per transaction; a failed
/// transaction ends with exactly one line in it.
pub struct Diagnostics {
    lines: Vec<String>,
}

impl View for Diagnostics {
    type V = Seq<Seq<char>>;

    closed spec fn view(&self) -> Seq<Seq<char>> {
        self.lines@.map_values(|line: String| line@)
    }
}

impl Diagnostics {
    /// An empty sink, holding no diagnostic lines.
    pub fn new() -> (sink: Diagnostics)
        ensures
            sink@ =~= Seq::<Seq<char>>::empty(),
    {
        Diagnostics { lines: Vec::new() }
    }

    /// How many diagnostic lines the sink holds.
    pub fn line_count(&self) -> (n: usize)
        ensures
            n == self@.len(),
    {
        self.lines.len()
    }

    /// The `i`-th diagnostic line, oldest first.
    pub fn line(&self, i: usize) -> (line: &String)
        requires
            i < self@.len(),
        ensures
            line@ == self@[i as int],
    {
        &self.lines[i]
    }
}

/// Renders the failure's diagnostic line into the sink. Reporting appends
/// exactly one line, changes nothing else, and neither recovers from the
/// failure nor raises a different one.
pub fn report(error: &ProgramError, sink: &mut Diagnostics)
    ensures
        final(sink)@ =~= old(sink)@.push(error.spec_message()),
{
    let line = error.message();
    sink.lines.push(line);
}

/// Law: reporting the same failure twice appends two identical diagnostic
/// lines — the second report renders exactly the line the first one did, and
/// nothing is changed beyond the two appended lines.
pub proof fn lemma_report_idempotent(
    before: Seq<Seq<char>>,
    after_once: Seq<Seq<char>>,
    after_twice: Seq<Seq<char>>,
    error: ProgramError,
)
    requires
        after_once =~= before.push(error.spec_message()),
        after_twice =~= after_once.push(error.spec_message()),
    ensures
        after_twice =~= before + seq![error.spec_message(), error.spec_message()],
        after_twice.last() == after_once.last(),
        after_twice.take(before.len() as int) =~= before,
{
}

/// The outermost dispatch boundary: reports a failed outcome exactly once,
/// then hands the outcome on unchanged so the host can abort the
/// transaction; a successful outcome is handed on without touching the
/// diagnostic channel at all.
pub fn finalize<T>(outcome: ProgramResult<T>, sink: &mut Diagnostics) -> (r: ProgramResult<T>)
    ensures
        r == outcome,
        outcome is Ok ==> final(sink)@ =~= old(sink)@,
        outcome is Err ==> final(sink)@ =~= old(sink)@.push((outcome->Err_0).spec_message()),
{
    match &outcome {
        Ok(_) => {},
        Err(error) => report(error, sink),
    }
    outcome
}

/// Law: a success value is carried through the result type unchanged — a
/// `ProgramResult` built from a value holds exactly that value, and is never
/// in the failure case.
pub proof fn lemma_success_round_trip<T>(value: T)
    ensures
        ProgramResult::<T>::Ok(value) is Ok,
        ProgramResult::<T>::Ok(value)->Ok_0 == value,
        !(ProgramResult::<T>::Ok(value) is Err),
{
}

} // verus!
