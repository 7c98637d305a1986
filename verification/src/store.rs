//! The status store: the one shared record, with its change notifier.
//!
//! `update` applies a producer's whole-field mutation under exclusive access
//! and then unconditionally re-arms the notifier, even when the mutation left
//! every field at its old value: the design trades a possible redundant render
//! pass for simplicity and does no field-level change detection. `snapshot`
//! hands out a copy of the record, so nothing a producer does afterwards can
//! reach into a snapshot the renderer holds. Exclusive access is by `&mut`
//! here, a bounded critical section with no suspension point inside it.

use vstd::prelude::*;
use crate::notify::Notifier;
use crate::notify::signaled_pending;
use crate::notify::wait_resolves;
use crate::status::Mutation;
use crate::status::StatusRecord;
use crate::status::apply_all;
use crate::status::apply_mutation;
use crate::status::apply;

verus! {

/// The single shared store: one status record and one notifier, created once
/// at startup and alive for the life of the process.
pub struct Store {
    record: StatusRecord,
    notifier: Notifier,
}

impl Store {
    /// The current value of the shared record.
    pub closed spec fn record(self) -> StatusRecord {
        self.record
    }

    /// Whether a change notification is outstanding for the renderer.
    pub closed spec fn pending(self) -> bool {
        self.notifier.is_pending()
    }

    /// A fresh store holds the default record and no pending notification.
    pub fn new() -> (s: Store)
        ensures
            s.record() == StatusRecord::spec_init(),
            !s.pending(),
    {
        Store { record: StatusRecord::init(), notifier: Notifier::new() }
    }

    /// Applies one whole-field mutation to the shared record and then signals
    /// the notifier, unconditionally: an update that rewrites a field with its
    /// current value still re-arms the notifier. Cannot fail; the critical
    /// section never suspends and never blocks on the renderer's work.
    pub fn update(&mut self, m: Mutation)
        ensures
            final(self).record() == apply_mutation(m, old(self).record()),
            final(self).pending() == signaled_pending(old(self).pending()),
            final(self).pending(),
    {
        self.record = apply(m, self.record);
        self.notifier.signal();
    }

    /// Returns a copy of the current record: one consistent value, written by
    /// completed updates only, never a partially applied mutation.
    pub fn snapshot(&self) -> (r: StatusRecord)
        ensures
            r == self.record(),
    {
        self.record
    }

    /// The non-suspending half of the renderer's wait on the store's
    /// notifier: reports whether a change was pending and clears it, leaving
    /// the record untouched.
    pub fn take_notification(&mut self) -> (resumed: bool)
        ensures
            resumed == wait_resolves(old(self).pending()),
            !final(self).pending(),
            final(self).record() == old(self).record(),
    {
        self.notifier.take()
    }
}

/// `apply_all` composes from the back: the record after `ms` then one more
/// mutation is that one mutation applied to the record after `ms`.
pub proof fn lemma_apply_all_push(r: StatusRecord, ms: Seq<Mutation>, m: Mutation)
    ensures
        apply_all(r, ms.push(m)) == apply_mutation(m, apply_all(r, ms)),
    decreases ms.len(),
{
    if ms.len() == 0 {
        assert(ms.push(m)[0] == m);
        assert(ms.push(m).drop_first() =~= Seq::<Mutation>::empty());
        assert(apply_all(apply_mutation(m, r), Seq::<Mutation>::empty())
            == apply_mutation(m, r));
        assert(apply_all(r, ms.push(m)) == apply_mutation(m, r));
    } else {
        assert(ms.push(m)[0] == ms[0]);
        assert(ms.push(m).drop_first() =~= ms.drop_first().push(m));
        lemma_apply_all_push(apply_mutation(ms[0], r), ms.drop_first(), m);
        assert(apply_all(r, ms.push(m))
            == apply_all(apply_mutation(ms[0], r), ms.drop_first().push(m)));
        assert(apply_all(r, ms) == apply_all(apply_mutation(ms[0], r), ms.drop_first()));
    }
}

/// The value `indicator1` holds once every mutation in `ms` has been applied
/// to a record that started as `r`: the payload of the last write to that
/// field, or its starting value when nothing wrote it.
pub open spec fn last_written_indicator1(r: StatusRecord, ms: Seq<Mutation>) -> bool
    decreases ms.len(),
{
    if ms.len() == 0 {
        r.indicator1
    } else {
        match ms.last() {
            Mutation::SetIndicator1(b) => b,
            Mutation::SetIndicator2(_) => last_written_indicator1(r, ms.drop_last()),
        }
    }
}

/// As `last_written_indicator1`, for the other field.
pub open spec fn last_written_indicator2(r: StatusRecord, ms: Seq<Mutation>) -> bool
    decreases ms.len(),
{
    if ms.len() == 0 {
        r.indicator2
    } else {
        match ms.last() {
            Mutation::SetIndicator1(_) => last_written_indicator2(r, ms.drop_last()),
            Mutation::SetIndicator2(b) => b,
        }
    }
}

/// Snapshot consistency: after any sequence of completed updates, each field
/// of the record is exactly the value written by one completed update (the
/// last one to touch that field), or its initial value: a snapshot never
/// shows a partially applied mutation.
pub proof fn lemma_snapshot_consistency(r: StatusRecord, ms: Seq<Mutation>)
    ensures
        apply_all(r, ms).indicator1 == last_written_indicator1(r, ms),
        apply_all(r, ms).indicator2 == last_written_indicator2(r, ms),
    decreases ms.len(),
{
    if ms.len() > 0 {
        lemma_snapshot_consistency(r, ms.drop_last());
        assert(ms.drop_last().push(ms.last()) =~= ms);
        lemma_apply_all_push(r, ms.drop_last(), ms.last());
    }
}

} // verus!
