//! What holds of the records of a checkpoint whose downloaded objects agree
//! with its transactions.
//!
//! The indexer takes the changed objects as the full node served them. It
//! gives each to the transaction that the object names as the one that
//! produced it. Where the checkpoint holds the object of every change, every
//! object names the transaction of its change, and no two transactions share
//! a digest, the objects of the records are the objects that the effects
//! name: each as often as it is named, and none both as changed and as
//! removed where the effects name every object once.

use vstd::prelude::*;
use vstd::seq_lib::*;
use crate::assembler::{all_answered_in_full, answers_change, fetched_changed_objects, lemma_fan_out_complete};
use crate::errors::{IndexerError, IndexerErrorView};
use crate::ids::{ObjectId, TransactionDigest};
use crate::indexer::{
    changed_row_of, changed_rows_of, checkpoint_store, objects_changes, transaction_object_changes,
};
use crate::object_changes::{
    change_ids, checkpoint_deleted_objects, checkpoint_object_changes, checkpoint_touched_ids,
    deleted_objects, lemma_checkpoint_changes_and_removals_partition, object_changes, removal_ids,
};
use crate::records::{ObjectRowView, TransactionObjectChangesView};
use crate::types::{
    CheckpointData, CheckpointSequenceNumber, EpochId, ObjectChange, ObjectData, ObjectStatus,
    PastObjectResponse, TransactionRecord,
};

verus! {

impl CheckpointData {
    /// Whether the changed objects are those of the changes that the
    /// transactions made: as many, and at each place the object of the
    /// change at that place, with the kind of that change.
    pub open spec fn holds_every_change(&self) -> bool {
        let changes = checkpoint_object_changes(self.transactions@);
        &&& self.changed_objects@.len() == changes.len()
        &&& forall|i: int|
            0 <= i < changes.len() ==> answers_change(changes[i], #[trigger] self.changed_objects@[i])
    }

    /// Whether every transaction is named, as the one that produced them, by
    /// the objects of its own changes and by no others among the changed
    /// objects.
    pub open spec fn names_producers(&self) -> bool {
        forall|t: int|
            0 <= t < self.transactions@.len() ==> produced_changes(
                self.changed_objects@,
                (#[trigger] self.transactions@[t]).digest,
            ) == object_changes(&self.transactions@[t].effects)
    }
}

/// A checkpoint assembled from answers that answer every call in full holds
/// the object of every change that its transactions made.
pub proof fn lemma_assembled_checkpoint_holds_every_change(
    data: CheckpointData,
    answers: Seq<Result<Vec<PastObjectResponse>, IndexerError>>,
)
    requires
        all_answered_in_full(checkpoint_object_changes(data.transactions@), answers),
        fetched_changed_objects(checkpoint_object_changes(data.transactions@), answers) == Ok::<
            Seq<(ObjectStatus, ObjectData)>,
            IndexerErrorView,
        >(data.changed_objects@),
    ensures
        data.holds_every_change(),
{
    lemma_fan_out_complete(checkpoint_object_changes(data.transactions@), answers);
}

/// The change that a changed object stands for, if the transaction `digest`
/// produced it.
pub open spec fn produced_change(entry: (ObjectStatus, ObjectData), digest: TransactionDigest)
    -> Option<ObjectChange> {
    if entry.1.previous_transaction == Some(digest) {
        Some((entry.1.object_id, entry.1.version, entry.0))
    } else {
        None
    }
}

/// The changes that those objects of `changed` stand for which the
/// transaction `digest` produced, in the order of `changed`.
pub open spec fn produced_changes(changed: Seq<(ObjectStatus, ObjectData)>, digest: TransactionDigest)
    -> Seq<ObjectChange> {
    changed.filter_map(|entry: (ObjectStatus, ObjectData)| produced_change(entry, digest))
}

/// The ids of the objects of `rows`, in order.
pub open spec fn row_ids(rows: Seq<ObjectRowView>) -> Seq<ObjectId> {
    rows.map_values(|r: ObjectRowView| r.data.object_id)
}

/// The ids of the objects that the entries `entries` record as changed,
/// entry by entry.
pub open spec fn recorded_changed_ids(entries: Seq<TransactionObjectChangesView>) -> Seq<ObjectId> {
    entries.flat_map(|e: TransactionObjectChangesView| row_ids(e.changed_objects))
}

/// The ids of the objects that the entries `entries` record as removed,
/// entry by entry.
pub open spec fn recorded_removed_ids(entries: Seq<TransactionObjectChangesView>) -> Seq<ObjectId> {
    entries.flat_map(|e: TransactionObjectChangesView| removal_ids(e.deleted_objects))
}

/// The records of the objects that a transaction produced are of the
/// objects of the changes that those objects stand for.
pub proof fn lemma_rows_follow_produced_changes(
    changed: Seq<(ObjectStatus, ObjectData)>,
    digest: TransactionDigest,
    epoch: EpochId,
    checkpoint: Option<CheckpointSequenceNumber>,
)
    ensures
        row_ids(changed_rows_of(changed, digest, epoch, checkpoint)) == change_ids(
            produced_changes(changed, digest),
        ),
    decreases changed.len(),
{
    let rows = changed_rows_of(changed, digest, epoch, checkpoint);
    let changes = produced_changes(changed, digest);
    if changed.len() == 0 {
        assert(row_ids(rows) =~= change_ids(changes));
    } else {
        let rest = changed.drop_last();
        lemma_rows_follow_produced_changes(rest, digest, epoch, checkpoint);
        let rest_rows = changed_rows_of(rest, digest, epoch, checkpoint);
        let rest_changes = produced_changes(rest, digest);
        if changed.last().1.previous_transaction == Some(digest) {
            assert(rows == rest_rows + seq![
                changed_row_of(changed.last(), digest, epoch, checkpoint)->0,
            ]);
            assert(changes == rest_changes + seq![produced_change(changed.last(), digest)->0]);
            assert(row_ids(rows) =~= row_ids(rest_rows).push(changed.last().1.object_id));
            assert(change_ids(changes) =~= change_ids(rest_changes).push(
                changed.last().1.object_id,
            ));
        } else {
            assert(rows == rest_rows);
            assert(changes == rest_changes);
        }
    }
}

/// Where every transaction is named by the objects of its own changes, the
/// records list as changed the objects that the transactions changed, and as
/// removed those that they removed, transaction by transaction.
pub proof fn lemma_records_follow_effects(
    transactions: Seq<TransactionRecord>,
    changed: Seq<(ObjectStatus, ObjectData)>,
    epoch: EpochId,
    checkpoint: CheckpointSequenceNumber,
)
    requires
        forall|t: int|
            0 <= t < transactions.len() ==> produced_changes(
                changed,
                (#[trigger] transactions[t]).digest,
            ) == object_changes(&transactions[t].effects),
    ensures
        recorded_changed_ids(objects_changes(transactions, changed, epoch, checkpoint))
            == change_ids(checkpoint_object_changes(transactions)),
        recorded_removed_ids(objects_changes(transactions, changed, epoch, checkpoint))
            == removal_ids(checkpoint_deleted_objects(transactions, epoch, Some(checkpoint))),
    decreases transactions.len(),
{
    let entries = objects_changes(transactions, changed, epoch, checkpoint);
    let fc = |e: TransactionObjectChangesView| row_ids(e.changed_objects);
    let fr = |e: TransactionObjectChangesView| removal_ids(e.deleted_objects);
    let gc = |tx: TransactionRecord| object_changes(&tx.effects);
    let gr = |tx: TransactionRecord| deleted_objects(&tx.effects, epoch, Some(checkpoint));
    if transactions.len() == 0 {
        assert(entries =~= Seq::<TransactionObjectChangesView>::empty());
        assert(recorded_changed_ids(entries) =~= Seq::<ObjectId>::empty());
        assert(recorded_removed_ids(entries) =~= Seq::<ObjectId>::empty());
        assert(checkpoint_object_changes(transactions) =~= Seq::<ObjectChange>::empty());
        assert(checkpoint_deleted_objects(transactions, epoch, Some(checkpoint)).len() == 0);
        assert(change_ids(checkpoint_object_changes(transactions)) =~= Seq::<ObjectId>::empty());
        assert(removal_ids(checkpoint_deleted_objects(transactions, epoch, Some(checkpoint)))
            =~= Seq::<ObjectId>::empty());
    } else {
        let rest = transactions.drop_last();
        let last = transactions.last();
        assert forall|t: int| 0 <= t < rest.len() implies produced_changes(
            changed,
            (#[trigger] rest[t]).digest,
        ) == object_changes(&rest[t].effects) by {
            assert(rest[t] == transactions[t]);
        }
        lemma_records_follow_effects(rest, changed, epoch, checkpoint);
        let rest_entries = objects_changes(rest, changed, epoch, checkpoint);
        let entry = transaction_object_changes(last, changed, epoch, checkpoint);
        assert(transactions =~= rest.push(last));
        assert(entries =~= rest_entries.push(entry));
        rest_entries.lemma_flat_map_push(fc, entry);
        rest_entries.lemma_flat_map_push(fr, entry);
        rest.lemma_flat_map_push(gc, last);
        rest.lemma_flat_map_push(gr, last);
        lemma_rows_follow_produced_changes(changed, last.digest, epoch, Some(checkpoint));
        assert(transactions[transactions.len() - 1] == last);
        assert(row_ids(entry.changed_objects) == change_ids(object_changes(&last.effects)));
        let c0 = checkpoint_object_changes(rest);
        let d0 = checkpoint_deleted_objects(rest, epoch, Some(checkpoint));
        assert(checkpoint_object_changes(transactions) == c0 + object_changes(&last.effects));
        assert(checkpoint_deleted_objects(transactions, epoch, Some(checkpoint)) == d0
            + deleted_objects(&last.effects, epoch, Some(checkpoint)));
        assert(change_ids(c0 + object_changes(&last.effects)) =~= change_ids(c0) + change_ids(
            object_changes(&last.effects),
        ));
        assert(removal_ids(d0 + deleted_objects(&last.effects, epoch, Some(checkpoint)))
            =~= removal_ids(d0) + removal_ids(
            deleted_objects(&last.effects, epoch, Some(checkpoint)),
        ));
    }
}

/// In the records of a checkpoint whose objects name their producers, the
/// objects recorded as changed and the objects recorded as removed are
/// together the objects that the effects of the checkpoint's transactions
/// name, each as often as it is named. Where the effects of the whole
/// checkpoint name every object once, no object is recorded both as changed
/// and as removed.
pub proof fn lemma_records_partition_effects(data: CheckpointData)
    requires
        data.names_producers(),
    ensures
        recorded_changed_ids(checkpoint_store(data).objects_changes).to_multiset().add(
            recorded_removed_ids(checkpoint_store(data).objects_changes).to_multiset(),
        ) == checkpoint_touched_ids(data.transactions@).to_multiset(),
        checkpoint_touched_ids(data.transactions@).no_duplicates() ==> forall|id: ObjectId|
            !(recorded_changed_ids(checkpoint_store(data).objects_changes).contains(id)
                && #[trigger] recorded_removed_ids(checkpoint_store(data).objects_changes).contains(
                id,
            )),
{
    broadcast use vstd::multiset::group_multiset_axioms;

    lemma_records_follow_effects(
        data.transactions@,
        data.changed_objects@,
        data.checkpoint.epoch,
        data.checkpoint.sequence_number,
    );
    lemma_checkpoint_changes_and_removals_partition(
        data.transactions@,
        data.checkpoint.epoch,
        Some(data.checkpoint.sequence_number),
    );
    let changed = recorded_changed_ids(checkpoint_store(data).objects_changes);
    let removed = recorded_removed_ids(checkpoint_store(data).objects_changes);
    let touched = checkpoint_touched_ids(data.transactions@);
    if touched.no_duplicates() {
        touched.lemma_multiset_has_no_duplicates();
        assert forall|id: ObjectId| !(changed.contains(id) && #[trigger] removed.contains(
            id,
        )) by {
            if changed.contains(id) && removed.contains(id) {
                to_multiset_contains(changed, id);
                to_multiset_contains(removed, id);
                assert(touched.to_multiset().count(id) >= 2);
            }
        }
    }
}

/// For each change of `transactions`, the digest of the transaction that
/// made it, in the order of the changes.
pub open spec fn change_producers(transactions: Seq<TransactionRecord>) -> Seq<TransactionDigest> {
    transactions.flat_map(
        |tx: TransactionRecord| Seq::new(object_changes(&tx.effects).len(), |j: int| tx.digest),
    )
}

impl CheckpointData {
    /// Whether every changed object names, as the transaction that produced
    /// it, the transaction that made the change at its place.
    pub open spec fn objects_name_their_transactions(&self) -> bool {
        forall|i: int|
            0 <= i < self.changed_objects@.len() && i < change_producers(self.transactions@).len()
                ==> (#[trigger] self.changed_objects@[i]).1.previous_transaction == Some(
                change_producers(self.transactions@)[i],
            )
    }

    /// Whether no two transactions have the same digest.
    pub open spec fn has_distinct_transactions(&self) -> bool {
        distinct_digests(self.transactions@)
    }
}

/// Whether no two of `transactions` have the same digest.
pub open spec fn distinct_digests(transactions: Seq<TransactionRecord>) -> bool {
    forall|s: int, t: int|
        0 <= s < t < transactions.len() ==> (#[trigger] transactions[s]).digest != (
        #[trigger] transactions[t]).digest
}

/// Those of `changes` whose producer, at the same place in `producers`, is
/// `digest`, in order.
pub open spec fn changes_of(
    changes: Seq<ObjectChange>,
    producers: Seq<TransactionDigest>,
    digest: TransactionDigest,
) -> Seq<ObjectChange>
    decreases changes.len(),
{
    if changes.len() == 0 || producers.len() == 0 {
        Seq::empty()
    } else {
        let rest = changes_of(changes.drop_last(), producers.drop_last(), digest);
        if producers.last() == digest {
            rest.push(changes.last())
        } else {
            rest
        }
    }
}

proof fn lemma_changes_of_concat(
    head_changes: Seq<ObjectChange>,
    head_producers: Seq<TransactionDigest>,
    tail_changes: Seq<ObjectChange>,
    tail_producers: Seq<TransactionDigest>,
    digest: TransactionDigest,
)
    requires
        head_changes.len() == head_producers.len(),
        tail_changes.len() == tail_producers.len(),
    ensures
        changes_of(head_changes + tail_changes, head_producers + tail_producers, digest) == changes_of(head_changes, head_producers, digest) + changes_of(
            tail_changes,
            tail_producers,
            digest,
        ),
    decreases tail_changes.len(),
{
    if tail_changes.len() == 0 {
        assert(head_changes + tail_changes =~= head_changes);
        assert(head_producers + tail_producers =~= head_producers);
        assert(changes_of(head_changes, head_producers, digest) + changes_of(tail_changes, tail_producers, digest) =~= changes_of(
            head_changes,
            head_producers,
            digest,
        ));
    } else {
        lemma_changes_of_concat(head_changes, head_producers, tail_changes.drop_last(), tail_producers.drop_last(), digest);
        assert((head_changes + tail_changes).drop_last() =~= head_changes + tail_changes.drop_last());
        assert((head_producers + tail_producers).drop_last() =~= head_producers + tail_producers.drop_last());
        assert((head_changes + tail_changes).last() == tail_changes.last());
        assert((head_producers + tail_producers).last() == tail_producers.last());
        let rest1 = changes_of(head_changes, head_producers, digest);
        let rest2 = changes_of(tail_changes.drop_last(), tail_producers.drop_last(), digest);
        if tail_producers.last() == digest {
            assert((rest1 + rest2).push(tail_changes.last()) =~= rest1 + rest2.push(tail_changes.last()));
        }
    }
}

proof fn lemma_changes_of_one_producer(
    changes: Seq<ObjectChange>,
    producers: Seq<TransactionDigest>,
    producer: TransactionDigest,
    digest: TransactionDigest,
)
    requires
        changes.len() == producers.len(),
        forall|j: int| 0 <= j < producers.len() ==> producers[j] == producer,
    ensures
        changes_of(changes, producers, digest) == (if digest == producer {
            changes
        } else {
            Seq::empty()
        }),
    decreases changes.len(),
{
    if changes.len() > 0 {
        lemma_changes_of_one_producer(changes.drop_last(), producers.drop_last(), producer, digest);
        if digest == producer {
            assert(changes.drop_last().push(changes.last()) =~= changes);
        }
    } else {
        assert(changes =~= Seq::<ObjectChange>::empty());
    }
}

proof fn lemma_produced_changes_are_changes_of(
    changed: Seq<(ObjectStatus, ObjectData)>,
    changes: Seq<ObjectChange>,
    producers: Seq<TransactionDigest>,
    digest: TransactionDigest,
)
    requires
        changed.len() == changes.len(),
        changes.len() == producers.len(),
        forall|i: int| 0 <= i < changes.len() ==> answers_change(changes[i], #[trigger] changed[i]),
        forall|i: int|
            0 <= i < changes.len() ==> (#[trigger] changed[i]).1.previous_transaction == Some(
                producers[i],
            ),
    ensures
        produced_changes(changed, digest) == changes_of(changes, producers, digest),
    decreases changed.len(),
{
    if changed.len() > 0 {
        let n = changed.len() - 1;
        assert forall|i: int| 0 <= i < n implies answers_change(
            changes.drop_last()[i],
            #[trigger] changed.drop_last()[i],
        ) by {
            assert(changed.drop_last()[i] == changed[i]);
        }
        assert forall|i: int| 0 <= i < n implies (
        #[trigger] changed.drop_last()[i]).1.previous_transaction == Some(
            producers.drop_last()[i],
        ) by {
            assert(changed.drop_last()[i] == changed[i]);
        }
        lemma_produced_changes_are_changes_of(
            changed.drop_last(),
            changes.drop_last(),
            producers.drop_last(),
            digest,
        );
        let last = changed[n];
        assert(changed.last() == last);
        assert(answers_change(changes[n], last));
        assert(last.1.previous_transaction == Some(producers[n]));
        if producers.last() == digest {
            assert(produced_change(last, digest) == Some(changes.last()));
            assert(changes_of(changes.drop_last(), producers.drop_last(), digest) + seq![
                changes.last(),
            ] =~= changes_of(changes.drop_last(), producers.drop_last(), digest).push(
                changes.last(),
            ));
        }
    }
}

proof fn lemma_changes_of_transactions(transactions: Seq<TransactionRecord>)
    ensures
        checkpoint_object_changes(transactions).len() == change_producers(transactions).len(),
        forall|digest: TransactionDigest|
            (forall|t: int| 0 <= t < transactions.len() ==> (#[trigger] transactions[t]).digest != digest)
                ==> #[trigger] changes_of(
                checkpoint_object_changes(transactions),
                change_producers(transactions),
                digest,
            ) == Seq::<ObjectChange>::empty(),
        distinct_digests(transactions) ==> forall|t: int|
            0 <= t < transactions.len() ==> changes_of(
                checkpoint_object_changes(transactions),
                change_producers(transactions),
                (#[trigger] transactions[t]).digest,
            ) == object_changes(&transactions[t].effects),
    decreases transactions.len(),
{
    let fc = |tx: TransactionRecord| object_changes(&tx.effects);
    let fp = |tx: TransactionRecord|
        Seq::new(object_changes(&tx.effects).len(), |j: int| tx.digest);
    let changes = checkpoint_object_changes(transactions);
    let producers = change_producers(transactions);
    if transactions.len() == 0 {
        assert(changes =~= Seq::<ObjectChange>::empty());
        assert(producers =~= Seq::<TransactionDigest>::empty());
    } else {
        let rest = transactions.drop_last();
        let last = transactions.last();
        lemma_changes_of_transactions(rest);
        assert(transactions =~= rest.push(last));
        rest.lemma_flat_map_push(fc, last);
        rest.lemma_flat_map_push(fp, last);
        let head_changes = checkpoint_object_changes(rest);
        let head_producers = change_producers(rest);
        let tail_changes = object_changes(&last.effects);
        let tail_producers = Seq::new(tail_changes.len(), |j: int| last.digest);
        assert(changes == head_changes + tail_changes);
        assert(producers == head_producers + tail_producers);
        assert forall|t: int| 0 <= t < rest.len() implies rest[t] == #[trigger] transactions[t] by {}
        assert forall|digest: TransactionDigest|
            (forall|t: int|
                0 <= t < transactions.len() ==> (#[trigger] transactions[t]).digest
                    != digest) implies #[trigger] changes_of(changes, producers, digest) == Seq::<
            ObjectChange,
        >::empty() by {
            lemma_changes_of_concat(head_changes, head_producers, tail_changes, tail_producers, digest);
            lemma_changes_of_one_producer(tail_changes, tail_producers, last.digest, digest);
            assert(transactions[transactions.len() - 1].digest != digest);
            assert forall|t: int| 0 <= t < rest.len() implies (#[trigger] rest[t]).digest
                != digest by {
                assert(transactions[t].digest != digest);
            }
            assert(changes_of(head_changes, head_producers, digest) == Seq::<ObjectChange>::empty());
            assert(changes_of(head_changes, head_producers, digest) + changes_of(tail_changes, tail_producers, digest) =~= Seq::<
                ObjectChange,
            >::empty());
        }
        if distinct_digests(transactions) {
            assert(distinct_digests(rest)) by {
                assert forall|s: int, t: int| 0 <= s < t < rest.len() implies (
                #[trigger] rest[s]).digest != (#[trigger] rest[t]).digest by {
                    assert(transactions[s].digest != transactions[t].digest);
                }
            }
            assert forall|t: int| 0 <= t < transactions.len() implies changes_of(
                changes,
                producers,
                (#[trigger] transactions[t]).digest,
            ) == object_changes(&transactions[t].effects) by {
                let digest = transactions[t].digest;
                lemma_changes_of_concat(head_changes, head_producers, tail_changes, tail_producers, digest);
                lemma_changes_of_one_producer(tail_changes, tail_producers, last.digest, digest);
                if t < rest.len() {
                    assert(rest[t] == transactions[t]);
                    assert(transactions[t].digest != transactions[transactions.len() - 1].digest);
                    assert(changes_of(head_changes, head_producers, digest) == object_changes(&rest[t].effects));
                    assert(changes_of(head_changes, head_producers, digest) + Seq::<ObjectChange>::empty()
                        =~= changes_of(head_changes, head_producers, digest));
                } else {
                    assert forall|u: int| 0 <= u < rest.len() implies (#[trigger] rest[u]).digest
                        != digest by {
                        assert(transactions[u].digest != transactions[t].digest);
                    }
                    assert(changes_of(head_changes, head_producers, digest) == Seq::<ObjectChange>::empty());
                    assert(Seq::<ObjectChange>::empty() + tail_changes =~= tail_changes);
                }
            }
        }
    }
}

/// A checkpoint that holds the object of every change, whose objects name
/// the transactions of their changes, and whose transactions have digests of
/// their own, has every transaction named by the objects of its own changes
/// and by no others.
pub proof fn lemma_consistent_checkpoint_names_producers(data: CheckpointData)
    requires
        data.holds_every_change(),
        data.objects_name_their_transactions(),
        data.has_distinct_transactions(),
    ensures
        data.names_producers(),
{
    let transactions = data.transactions@;
    let changed = data.changed_objects@;
    let changes = checkpoint_object_changes(transactions);
    let producers = change_producers(transactions);
    lemma_changes_of_transactions(transactions);
    assert forall|t: int| 0 <= t < transactions.len() implies produced_changes(
        changed,
        (#[trigger] transactions[t]).digest,
    ) == object_changes(&transactions[t].effects) by {
        lemma_produced_changes_are_changes_of(changed, changes, producers, transactions[t].digest);
    }
}

/// The records of a checkpoint that holds the object of every change, whose
/// objects name the transactions of their changes, and whose transactions
/// have digests of their own: the objects recorded as changed and the objects
/// recorded as removed are together the objects that the effects name, each
/// as often as it is named; and where the effects of the whole checkpoint
/// name every object once, no object is recorded both as changed and as
/// removed.
pub proof fn lemma_records_of_consistent_checkpoint_partition_effects(data: CheckpointData)
    requires
        data.holds_every_change(),
        data.objects_name_their_transactions(),
        data.has_distinct_transactions(),
    ensures
        recorded_changed_ids(checkpoint_store(data).objects_changes).to_multiset().add(
            recorded_removed_ids(checkpoint_store(data).objects_changes).to_multiset(),
        ) == checkpoint_touched_ids(data.transactions@).to_multiset(),
        checkpoint_touched_ids(data.transactions@).no_duplicates() ==> forall|id: ObjectId|
            !(recorded_changed_ids(checkpoint_store(data).objects_changes).contains(id)
                && #[trigger] recorded_removed_ids(checkpoint_store(data).objects_changes).contains(
                id,
            )),
{
    lemma_consistent_checkpoint_names_producers(data);
    lemma_records_partition_effects(data);
}

} // verus!
