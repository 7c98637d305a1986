//! The shared status record and the mutations producers apply to it.

use vstd::prelude::*;

verus! {

/// The fixed-shape record of named status fields. Every field has a
/// well-defined value at all times; copies are cheap value snapshots.
#[derive(Clone, Copy, PartialEq, Eq, Structural, Debug)]
pub struct StatusRecord {
    /// Mirrors the blinking output: true while the blink phase is "on".
    pub indicator1: bool,
    /// Mirrors the monitored input: true while its level is high.
    pub indicator2: bool,
}

/// A whole-field mutation of the status record. Each producer owns exactly
/// one field and submits its writes as one of these values, so a mutation is
/// applied atomically: it replaces one field and leaves the other untouched.
#[derive(Clone, Copy, PartialEq, Eq, Structural, Debug)]
pub enum Mutation {
    SetIndicator1(bool),
    SetIndicator2(bool),
}

impl StatusRecord {
    /// The record every activity starts from: both indicators off.
    pub open spec fn spec_init() -> StatusRecord {
        StatusRecord { indicator1: false, indicator2: false }
    }

    pub fn init() -> (r: StatusRecord)
        ensures
            r == StatusRecord::spec_init(),
    {
        StatusRecord { indicator1: false, indicator2: false }
    }
}

/// What applying one mutation to a record yields: exactly one field changes.
pub open spec fn apply_mutation(m: Mutation, r: StatusRecord) -> StatusRecord {
    match m {
        Mutation::SetIndicator1(b) => StatusRecord { indicator1: b, ..r },
        Mutation::SetIndicator2(b) => StatusRecord { indicator2: b, ..r },
    }
}

/// Applies `m` to `r`, yielding the record a completed update leaves behind.
pub fn apply(m: Mutation, r: StatusRecord) -> (out: StatusRecord)
    ensures
        out == apply_mutation(m, r),
{
    match m {
        Mutation::SetIndicator1(b) => StatusRecord { indicator1: b, ..r },
        Mutation::SetIndicator2(b) => StatusRecord { indicator2: b, ..r },
    }
}

/// The record after a whole sequence of mutations, applied first to last.
pub open spec fn apply_all(r: StatusRecord, ms: Seq<Mutation>) -> StatusRecord
    decreases ms.len(),
{
    if ms.len() == 0 {
        r
    } else {
        apply_all(apply_mutation(ms[0], r), ms.drop_first())
    }
}

} // verus!
