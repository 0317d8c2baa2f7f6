//! The steps of an atomic batch insert.
//!
//! The library decides what is to be done next; the caller does it against
//! the store and reports what happened. A batch is inserted inside one
//! transaction: it is committed only after every record was inserted, and
//! rolled back at the first failure. An empty batch opens no transaction.

use vstd::prelude::*;

verus! {

/// Where a batch insert stands.
#[derive(Debug, Clone, Copy, PartialEq, Eq, Structural)]
pub enum BatchState {
    /// Nothing was done yet.
    Ready,
    /// The transaction is open and the records before `next` were inserted;
    /// `inserted` rows were stored for them.
    Writing { next: usize, inserted: u64 },
    /// Every record was inserted and the transaction awaits its commit.
    Committing { inserted: u64 },
    /// Something failed while the transaction was open; it is to be rolled
    /// back.
    Aborting,
    /// The batch was committed, and `inserted` rows were stored.
    Done { inserted: u64 },
    /// The batch failed and nothing of it was committed.
    Failed,
}

/// What the caller is to do next.
#[derive(Debug, Clone, Copy, PartialEq, Eq, Structural)]
pub enum BatchAction {
    /// Open a transaction.
    Begin,
    /// Insert the record at this position of the batch.
    Insert(usize),
    /// Commit the transaction.
    Commit,
    /// Roll the transaction back.
    Rollback,
    /// Hand back the number of rows that were stored; the batch is done.
    Finish(u64),
    /// Report the failure; nothing was committed.
    Fail,
}

/// What the caller reports of the store.
#[derive(Debug, Clone, Copy, PartialEq, Eq, Structural)]
pub enum BatchEvent {
    /// The transaction was opened.
    Begun,
    /// The record was inserted and the store counted this many rows for it:
    /// none where a record with the same natural key was stored already.
    Inserted(u64),
    /// The transaction was committed.
    Committed,
    /// The transaction was rolled back.
    RolledBack,
    /// The last action failed.
    Failure,
}

/// A count, held at the largest value that fits.
pub open spec fn capped(count: int) -> u64 {
    if count > u64::MAX {
        u64::MAX
    } else if count < 0 {
        0
    } else {
        count as u64
    }
}

/// The state in which a batch of `size` records starts.
pub open spec fn initial_state(size: nat) -> BatchState {
    if size == 0 {
        BatchState::Done { inserted: 0 }
    } else {
        BatchState::Ready
    }
}

/// What is to be done in a state.
pub open spec fn action_in(state: BatchState) -> BatchAction {
    match state {
        BatchState::Ready => BatchAction::Begin,
        BatchState::Writing { next, inserted } => BatchAction::Insert(next),
        BatchState::Committing { inserted } => BatchAction::Commit,
        BatchState::Aborting => BatchAction::Rollback,
        BatchState::Done { inserted } => BatchAction::Finish(inserted),
        BatchState::Failed => BatchAction::Fail,
    }
}

/// The state after an event, for a batch of `size` records.
///
/// The event that answers the action of the state moves the batch on. A
/// failure, or an event that answers another action, ends it: the transaction
/// is rolled back where one is open. A batch that is done or has failed stays
/// as it is.
pub open spec fn state_after(size: nat, state: BatchState, event: BatchEvent) -> BatchState {
    match state {
        BatchState::Ready => match event {
            BatchEvent::Begun => BatchState::Writing { next: 0, inserted: 0 },
            _ => BatchState::Failed,
        },
        BatchState::Writing { next, inserted } => match event {
            BatchEvent::Inserted(rows) => if next + 1 < size {
                BatchState::Writing { next: (next + 1) as usize, inserted: capped(inserted + rows) }
            } else {
                BatchState::Committing { inserted: capped(inserted + rows) }
            },
            _ => BatchState::Aborting,
        },
        BatchState::Committing { inserted } => match event {
            BatchEvent::Committed => BatchState::Done { inserted },
            _ => BatchState::Aborting,
        },
        BatchState::Aborting => BatchState::Failed,
        BatchState::Done { inserted } => state,
        BatchState::Failed => state,
    }
}

/// The state after a run of events.
pub open spec fn state_after_all(size: nat, state: BatchState, events: Seq<BatchEvent>) -> BatchState
    decreases events.len(),
{
    if events.len() == 0 {
        state
    } else {
        state_after(size, state_after_all(size, state, events.drop_last()), events.last())
    }
}

/// The insert of one batch, step by step.
pub struct InsertBatch {
    size: usize,
    state: BatchState,
}

impl InsertBatch {
    /// How many records the batch has.
    pub closed spec fn size(&self) -> nat {
        self.size as nat
    }

    /// Where the batch stands.
    pub closed spec fn state(&self) -> BatchState {
        self.state
    }

    /// Starts the insert of a batch of `size` records. An empty batch is done
    /// at once, with no row stored.
    pub fn new(size: usize) -> (batch: InsertBatch)
        ensures
            batch.size() == size,
            batch.state() == initial_state(size as nat),
    {
        if size == 0 {
            InsertBatch { size, state: BatchState::Done { inserted: 0 } }
        } else {
            InsertBatch { size, state: BatchState::Ready }
        }
    }

    /// What the caller is to do next.
    pub fn next_action(&self) -> (action: BatchAction)
        ensures
            action == action_in(self.state()),
    {
        match self.state {
            BatchState::Ready => BatchAction::Begin,
            BatchState::Writing { next, inserted } => BatchAction::Insert(next),
            BatchState::Committing { inserted } => BatchAction::Commit,
            BatchState::Aborting => BatchAction::Rollback,
            BatchState::Done { inserted } => BatchAction::Finish(inserted),
            BatchState::Failed => BatchAction::Fail,
        }
    }

    /// Takes in what the caller reports of the last action.
    pub fn record(&mut self, event: BatchEvent)
        ensures
            final(self).size() == old(self).size(),
            final(self).state() == state_after(old(self).size(), old(self).state(), event),
    {
        let after = match self.state {
            BatchState::Ready => match event {
                BatchEvent::Begun => BatchState::Writing { next: 0, inserted: 0 },
                _ => BatchState::Failed,
            },
            BatchState::Writing { next, inserted } => match event {
                BatchEvent::Inserted(rows) => {
                    let total: u64 = match inserted.checked_add(rows) {
                        Some(sum) => sum,
                        None => u64::MAX,
                    };
                    if next < self.size && next + 1 < self.size {
                        BatchState::Writing { next: next + 1, inserted: total }
                    } else {
                        BatchState::Committing { inserted: total }
                    }
                },
                _ => BatchState::Aborting,
            },
            BatchState::Committing { inserted } => match event {
                BatchEvent::Committed => BatchState::Done { inserted },
                _ => BatchState::Aborting,
            },
            BatchState::Aborting => BatchState::Failed,
            BatchState::Done { inserted } => BatchState::Done { inserted },
            BatchState::Failed => BatchState::Failed,
        };
        self.state = after;
    }

    /// Whether nothing is left to do but to hand back the outcome.
    pub fn is_over(&self) -> (over: bool)
        ensures
            over == (self.state() is Done || self.state() is Failed),
    {
        match self.state {
            BatchState::Done { inserted } => true,
            BatchState::Failed => true,
            _ => false,
        }
    }
}

/// The sum of the rows that the store counted.
pub open spec fn rows_in_all(rows: Seq<u64>) -> int
    decreases rows.len(),
{
    if rows.len() == 0 {
        0
    } else {
        rows_in_all(rows.drop_last()) + rows.last()
    }
}

/// The events of a batch that goes well: the transaction is opened, every
/// record is inserted, and the transaction is committed.
pub open spec fn events_of_success(rows: Seq<u64>) -> Seq<BatchEvent> {
    seq![BatchEvent::Begun] + Seq::new(rows.len(), |i: int| BatchEvent::Inserted(rows[i])).push(
        BatchEvent::Committed,
    )
}

/// An empty batch is done before anything is asked of the store: no
/// transaction is opened, and the number of rows is zero.
pub proof fn lemma_empty_batch_is_done()
    ensures
        action_in(initial_state(0)) == BatchAction::Finish(0),
{
}

/// What the rows counted so far come to is never negative.
pub proof fn lemma_rows_in_all_nonnegative(rows: Seq<u64>)
    ensures
        rows_in_all(rows) >= 0,
    decreases rows.len(),
{
    if rows.len() > 0 {
        lemma_rows_in_all_nonnegative(rows.drop_last());
    }
}

/// While the inserts go well the batch asks for one record after the other,
/// in order, and holds the sum of the rows counted so far.
pub proof fn lemma_batch_writes_in_order(size: nat, rows: Seq<u64>)
    requires
        0 < size <= usize::MAX,
        rows.len() <= size,
    ensures
        ({
            let events = seq![BatchEvent::Begun] + Seq::new(
                rows.len(),
                |i: int| BatchEvent::Inserted(rows[i]),
            );
            state_after_all(size, initial_state(size), events) == if rows.len() < size {
                BatchState::Writing {
                    next: rows.len() as usize,
                    inserted: capped(rows_in_all(rows)),
                }
            } else {
                BatchState::Committing { inserted: capped(rows_in_all(rows)) }
            }
        }),
    decreases rows.len(),
{
    let inserts = Seq::new(rows.len(), |i: int| BatchEvent::Inserted(rows[i]));
    let events = seq![BatchEvent::Begun] + inserts;
    if rows.len() == 0 {
        assert(events.drop_last() == Seq::<BatchEvent>::empty());
        assert(state_after_all(size, initial_state(size), events.drop_last()) == initial_state(
            size,
        ));
    } else {
        let shorter = rows.drop_last();
        lemma_batch_writes_in_order(size, shorter);
        lemma_rows_in_all_nonnegative(shorter);
        let before = seq![BatchEvent::Begun] + Seq::new(
            shorter.len(),
            |i: int| BatchEvent::Inserted(shorter[i]),
        );
        assert(events.drop_last() == before);
        assert(events.last() == BatchEvent::Inserted(rows.last()));
    }
}

/// A batch that goes well ends with the sum of the rows that the store
/// counted for its records, held at the largest count that fits.
pub proof fn lemma_batch_counts_rows(rows: Seq<u64>)
    requires
        0 < rows.len() <= usize::MAX,
    ensures
        state_after_all(rows.len(), initial_state(rows.len()), events_of_success(rows))
            == (BatchState::Done { inserted: capped(rows_in_all(rows)) }),
{
    let size = rows.len();
    lemma_batch_writes_in_order(size, rows);
    let events = events_of_success(rows);
    let before = seq![BatchEvent::Begun] + Seq::new(
        rows.len(),
        |i: int| BatchEvent::Inserted(rows[i]),
    );
    assert(events.drop_last() == before);
    assert(events.last() == BatchEvent::Committed);
}

/// Where the store counts no row for any record of a batch, because all of
/// them are stored already, the batch ends with the count zero.
pub proof fn lemma_batch_of_known_records_counts_zero(rows: Seq<u64>)
    requires
        0 < rows.len() <= usize::MAX,
        forall|i: int| 0 <= i < rows.len() ==> rows[i] == 0,
    ensures
        state_after_all(rows.len(), initial_state(rows.len()), events_of_success(rows))
            == (BatchState::Done { inserted: 0 }),
{
    lemma_batch_counts_rows(rows);
    lemma_zero_rows(rows);
}

/// Rows that are all zero come to zero.
pub proof fn lemma_zero_rows(rows: Seq<u64>)
    requires
        forall|i: int| 0 <= i < rows.len() ==> rows[i] == 0,
    ensures
        rows_in_all(rows) == 0,
    decreases rows.len(),
{
    if rows.len() > 0 {
        assert(rows.last() == rows[rows.len() - 1]);
        assert forall|i: int| 0 <= i < rows.drop_last().len() implies rows.drop_last()[i]
            == 0 by {
            assert(rows.drop_last()[i] == rows[i]);
        }
        lemma_zero_rows(rows.drop_last());
    }
}

/// After a failure nothing is inserted or committed any more: whatever is
/// reported next, the batch asks only for the rollback and then reports the
/// failure.
pub proof fn lemma_failure_is_final(size: nat, state: BatchState, events: Seq<BatchEvent>)
    requires
        state is Aborting || state is Failed,
    ensures
        ({
            let after = state_after_all(size, state, events);
            after is Aborting || after is Failed
        }),
    decreases events.len(),
{
    if events.len() > 0 {
        lemma_failure_is_final(size, state, events.drop_last());
    }
}

/// A failure while the transaction is open asks for its rollback; a failure
/// to open it asks for nothing more.
pub proof fn lemma_failure_rolls_back(size: nat, state: BatchState)
    ensures
        state is Writing || state is Committing ==> action_in(
            state_after(size, state, BatchEvent::Failure),
        ) == BatchAction::Rollback,
        state is Ready ==> action_in(state_after(size, state, BatchEvent::Failure))
            == BatchAction::Fail,
{
}


/// What a table holds after a batch was inserted under the policy of the
/// store: a record whose natural key is stored already is passed over, and
/// any other is stored under its key.
pub open spec fn stored_after<K, R>(
    stored: Map<K, R>,
    key_of: spec_fn(R) -> K,
    batch: Seq<R>,
) -> Map<K, R>
    decreases batch.len(),
{
    if batch.len() == 0 {
        stored
    } else {
        let before = stored_after(stored, key_of, batch.drop_last());
        if before.dom().contains(key_of(batch.last())) {
            before
        } else {
            before.insert(key_of(batch.last()), batch.last())
        }
    }
}

/// The rows that the store counts for the records of a batch, one count for
/// each record: one where the record was stored, none where its natural key
/// was stored already.
pub open spec fn rows_counted<K, R>(
    stored: Map<K, R>,
    key_of: spec_fn(R) -> K,
    batch: Seq<R>,
) -> Seq<u64>
    decreases batch.len(),
{
    if batch.len() == 0 {
        Seq::<u64>::empty()
    } else {
        let before = stored_after(stored, key_of, batch.drop_last());
        rows_counted(stored, key_of, batch.drop_last()).push(
            if before.dom().contains(key_of(batch.last())) {
                0u64
            } else {
                1u64
            },
        )
    }
}

/// Inserting a batch takes nothing away: what was stored stays as it was,
/// and the key of every record of the batch is stored afterwards.
pub proof fn lemma_stored_after_keeps<K, R>(
    stored: Map<K, R>,
    key_of: spec_fn(R) -> K,
    batch: Seq<R>,
)
    ensures
        forall|key: K| #[trigger]
            stored.dom().contains(key) ==> stored_after(stored, key_of, batch).dom().contains(key)
                && stored_after(stored, key_of, batch)[key] == stored[key],
        forall|i: int|
            0 <= i < batch.len() ==> stored_after(stored, key_of, batch).dom().contains(
                key_of(#[trigger] batch[i]),
            ),
        rows_counted(stored, key_of, batch).len() == batch.len(),
    decreases batch.len(),
{
    if batch.len() > 0 {
        lemma_stored_after_keeps(stored, key_of, batch.drop_last());
        let before = stored_after(stored, key_of, batch.drop_last());
        assert forall|i: int| 0 <= i < batch.len() implies stored_after(
            stored,
            key_of,
            batch,
        ).dom().contains(key_of(#[trigger] batch[i])) by {
            if i < batch.len() - 1 {
                assert(batch.drop_last()[i] == batch[i]);
            }
        }
    }
}

/// Where the key of every record of a batch is stored already, inserting the
/// batch changes nothing and counts no row.
pub proof fn lemma_known_batch_changes_nothing<K, R>(
    stored: Map<K, R>,
    key_of: spec_fn(R) -> K,
    batch: Seq<R>,
)
    requires
        forall|i: int| 0 <= i < batch.len() ==> stored.dom().contains(key_of(#[trigger] batch[i])),
    ensures
        stored_after(stored, key_of, batch) == stored,
        rows_counted(stored, key_of, batch).len() == batch.len(),
        forall|i: int|
            0 <= i < batch.len() ==> (#[trigger] rows_counted(stored, key_of, batch)[i]) == 0,
    decreases batch.len(),
{
    if batch.len() > 0 {
        assert forall|i: int| 0 <= i < batch.drop_last().len() implies stored.dom().contains(
            key_of(#[trigger] batch.drop_last()[i]),
        ) by {
            assert(batch.drop_last()[i] == batch[i]);
        }
        lemma_known_batch_changes_nothing(stored, key_of, batch.drop_last());
        assert(stored.dom().contains(key_of(batch[batch.len() - 1])));
    }
}

/// Inserting a batch is idempotent: a second insert of the same batch leaves
/// the stored rows as the first one left them and counts no row for any
/// record, so that the batch ends with the count zero.
pub proof fn lemma_insert_is_idempotent<K, R>(
    stored: Map<K, R>,
    key_of: spec_fn(R) -> K,
    batch: Seq<R>,
)
    requires
        0 < batch.len() <= usize::MAX,
    ensures
        ({
            let once = stored_after(stored, key_of, batch);
            let again = rows_counted(once, key_of, batch);
            &&& stored_after(once, key_of, batch) == once
            &&& again.len() == batch.len()
            &&& forall|i: int| 0 <= i < batch.len() ==> (#[trigger] again[i]) == 0
            &&& state_after_all(batch.len(), initial_state(batch.len()), events_of_success(again))
                == (BatchState::Done { inserted: 0 })
        }),
{
    let once = stored_after(stored, key_of, batch);
    lemma_stored_after_keeps(stored, key_of, batch);
    lemma_known_batch_changes_nothing(once, key_of, batch);
    let again = rows_counted(once, key_of, batch);
    lemma_batch_of_known_records_counts_zero(again);
}


/// No two records of a batch have the same natural key.
pub open spec fn keys_differ<K, R>(key_of: spec_fn(R) -> K, batch: Seq<R>) -> bool {
    forall|i: int, j: int| 0 <= i < j < batch.len() ==> key_of(batch[i]) != key_of(batch[j])
}

/// Rows that are all one come to their number.
pub proof fn lemma_unit_rows(rows: Seq<u64>)
    requires
        forall|i: int| 0 <= i < rows.len() ==> rows[i] == 1,
    ensures
        rows_in_all(rows) == rows.len(),
    decreases rows.len(),
{
    if rows.len() > 0 {
        assert(rows.last() == rows[rows.len() - 1]);
        assert forall|i: int| 0 <= i < rows.drop_last().len() implies rows.drop_last()[i]
            == 1 by {
            assert(rows.drop_last()[i] == rows[i]);
        }
        lemma_unit_rows(rows.drop_last());
    }
}

/// Records whose keys are new to the table and differ from each other are
/// all stored as they are, one row counted for each, and nothing is stored
/// under any other new key.
pub proof fn lemma_stored_after_new<K, R>(stored: Map<K, R>, key_of: spec_fn(R) -> K, batch: Seq<R>)
    requires
        forall|i: int| 0 <= i < batch.len() ==> !stored.dom().contains(key_of(#[trigger] batch[i])),
        keys_differ(key_of, batch),
    ensures
        forall|i: int|
            0 <= i < batch.len() ==> stored_after(stored, key_of, batch).dom().contains(
                key_of(#[trigger] batch[i]),
            ) && stored_after(stored, key_of, batch)[key_of(batch[i])] == batch[i],
        forall|key: K| #[trigger]
            stored_after(stored, key_of, batch).dom().contains(key) ==> stored.dom().contains(key)
                || exists|i: int| 0 <= i < batch.len() && key_of(#[trigger] batch[i]) == key,
        rows_counted(stored, key_of, batch).len() == batch.len(),
        forall|i: int|
            0 <= i < batch.len() ==> (#[trigger] rows_counted(stored, key_of, batch)[i]) == 1,
    decreases batch.len(),
{
    if batch.len() > 0 {
        let shorter = batch.drop_last();
        assert forall|i: int| 0 <= i < shorter.len() implies !stored.dom().contains(
            key_of(#[trigger] shorter[i]),
        ) by {
            assert(shorter[i] == batch[i]);
        }
        assert(keys_differ(key_of, shorter)) by {
            assert forall|i: int, j: int| 0 <= i < j < shorter.len() implies key_of(shorter[i])
                != key_of(shorter[j]) by {
                assert(shorter[i] == batch[i] && shorter[j] == batch[j]);
            }
        }
        lemma_stored_after_new(stored, key_of, shorter);
        let before = stored_after(stored, key_of, shorter);
        let last = batch[batch.len() - 1];
        assert(batch.last() == last);
        assert(!before.dom().contains(key_of(last))) by {
            if before.dom().contains(key_of(last)) {
                assert(!stored.dom().contains(key_of(last)));
                let i = choose|i: int| 0 <= i < shorter.len() && key_of(#[trigger] shorter[i])
                    == key_of(last);
                assert(shorter[i] == batch[i]);
            }
        }
        let after = stored_after(stored, key_of, batch);
        assert(after == before.insert(key_of(last), last));
        assert forall|i: int| 0 <= i < batch.len() implies after.dom().contains(
            key_of(#[trigger] batch[i]),
        ) && after[key_of(batch[i])] == batch[i] by {
            if i < batch.len() - 1 {
                assert(shorter[i] == batch[i]);
                assert(before.dom().contains(key_of(shorter[i])));
            }
        }
        assert forall|key: K| #[trigger] after.dom().contains(key) implies stored.dom().contains(
            key,
        ) || exists|i: int| 0 <= i < batch.len() && key_of(#[trigger] batch[i]) == key by {
            if key == key_of(last) {
                assert(key_of(batch[batch.len() - 1]) == key);
            } else if !stored.dom().contains(key) {
                assert(before.dom().contains(key));
                let i = choose|i: int| 0 <= i < shorter.len() && key_of(#[trigger] shorter[i])
                    == key;
                assert(shorter[i] == batch[i]);
            }
        }
        let rows = rows_counted(stored, key_of, batch);
        assert forall|i: int| 0 <= i < batch.len() implies (#[trigger] rows[i]) == 1 by {
            if i < batch.len() - 1 {
                assert(rows[i] == rows_counted(stored, key_of, shorter)[i]);
            }
        }
    }
}

/// The round trip of a batch: where the natural keys of its records are new
/// to the table and differ from each other, the batch ends with as many rows
/// as it has records, and asking the table for the key of any of the records
/// gives that record back as it was inserted.
pub proof fn lemma_new_records_read_back<K, R>(
    stored: Map<K, R>,
    key_of: spec_fn(R) -> K,
    batch: Seq<R>,
)
    requires
        0 < batch.len() <= usize::MAX,
        forall|i: int| 0 <= i < batch.len() ==> !stored.dom().contains(key_of(#[trigger] batch[i])),
        keys_differ(key_of, batch),
    ensures
        forall|i: int|
            0 <= i < batch.len() ==> stored_after(stored, key_of, batch).dom().contains(
                key_of(#[trigger] batch[i]),
            ) && stored_after(stored, key_of, batch)[key_of(batch[i])] == batch[i],
        state_after_all(
            batch.len(),
            initial_state(batch.len()),
            events_of_success(rows_counted(stored, key_of, batch)),
        ) == (BatchState::Done { inserted: capped(batch.len() as int) }),
{
    lemma_stored_after_new(stored, key_of, batch);
    let rows = rows_counted(stored, key_of, batch);
    lemma_unit_rows(rows);
    lemma_batch_counts_rows(rows);
}

} // verus!
