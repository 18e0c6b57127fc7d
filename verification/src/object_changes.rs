//! Reading a transaction's effects as a list of object changes.
//!
//! The effects name six kinds of change. The three that leave the object in
//! existence become [`ObjectChange`]s, whose objects are fetched afterwards;
//! the three that remove it become [`DeletedObject`]s at once.

use vstd::prelude::*;
use vstd::seq_lib::*;
use crate::ids::ObjectId;
use crate::records::DeletedObject;
use crate::ids::TransactionDigest;
use crate::types::{
    CheckpointSequenceNumber, EpochId, ObjectChange, ObjectRef, ObjectStatus, OwnedObjectRef,
    TransactionEffects, TransactionRecord,
};

verus! {

/// The objects of `refs` as changes of kind `status`, in order.
pub open spec fn tagged_changes(refs: Seq<OwnedObjectRef>, status: ObjectStatus) -> Seq<
    ObjectChange,
> {
    Seq::new(
        refs.len(),
        |i: int| (refs[i].reference.object_id, refs[i].reference.version, status),
    )
}

/// The changes that `effects` make to objects which exist afterwards: the
/// created ones, then the mutated ones, then the unwrapped ones.
pub open spec fn object_changes(effects: &TransactionEffects) -> Seq<ObjectChange> {
    tagged_changes(effects.created@, ObjectStatus::Created) + tagged_changes(
        effects.mutated@,
        ObjectStatus::Mutated,
    ) + tagged_changes(effects.unwrapped@, ObjectStatus::Unwrapped)
}

/// The objects of `refs` as records of removal of kind `status`, in order.
pub open spec fn tagged_removals(
    refs: Seq<ObjectRef>,
    epoch: EpochId,
    checkpoint: Option<CheckpointSequenceNumber>,
    transaction: TransactionDigest,
    status: ObjectStatus,
) -> Seq<DeletedObject> {
    Seq::new(
        refs.len(),
        |i: int| DeletedObject::spec_from(epoch, checkpoint, refs[i], transaction, status),
    )
}

/// The records of the objects that `effects` remove: the deleted ones, then
/// the wrapped ones, then those unwrapped and deleted at once.
pub open spec fn deleted_objects(
    effects: &TransactionEffects,
    epoch: EpochId,
    checkpoint: Option<CheckpointSequenceNumber>,
) -> Seq<DeletedObject> {
    tagged_removals(
        effects.deleted@,
        epoch,
        checkpoint,
        effects.transaction_digest,
        ObjectStatus::Deleted,
    ) + tagged_removals(
        effects.wrapped@,
        epoch,
        checkpoint,
        effects.transaction_digest,
        ObjectStatus::Wrapped,
    ) + tagged_removals(
        effects.unwrapped_then_deleted@,
        epoch,
        checkpoint,
        effects.transaction_digest,
        ObjectStatus::UnwrappedThenDeleted,
    )
}

fn push_tagged_changes(out: &mut Vec<ObjectChange>, refs: &Vec<OwnedObjectRef>, status: ObjectStatus)
    ensures
        final(out)@ == old(out)@ + tagged_changes(refs@, status),
{
    let ghost before = out@;
    let mut i: usize = 0;
    while i < refs.len()
        invariant
            i <= refs.len(),
            out@ == before + tagged_changes(refs@, status).take(i as int),
        decreases refs.len() - i,
    {
        let r = &refs[i];
        out.push((r.reference.object_id, r.reference.version, status));
        assert(out@ =~= before + tagged_changes(refs@, status).take(i + 1));
        i += 1;
    }
    assert(out@ =~= before + tagged_changes(refs@, status));
}

fn push_tagged_removals(
    out: &mut Vec<DeletedObject>,
    refs: &Vec<ObjectRef>,
    epoch: EpochId,
    checkpoint: Option<CheckpointSequenceNumber>,
    transaction: &TransactionDigest,
    status: ObjectStatus,
)
    ensures
        final(out)@ == old(out)@ + tagged_removals(refs@, epoch, checkpoint, *transaction, status),
{
    let ghost before = out@;
    let ghost all = tagged_removals(refs@, epoch, checkpoint, *transaction, status);
    let mut i: usize = 0;
    while i < refs.len()
        invariant
            i <= refs.len(),
            all == tagged_removals(refs@, epoch, checkpoint, *transaction, status),
            out@ == before + all.take(i as int),
        decreases refs.len() - i,
    {
        out.push(DeletedObject::from(epoch, checkpoint, &refs[i], transaction, &status));
        assert(out@ =~= before + all.take(i + 1));
        i += 1;
    }
    assert(out@ =~= before + all);
}

/// Lists the changes that `effects` make to objects which exist afterwards.
pub fn get_object_changes(effects: &TransactionEffects) -> (r: Vec<ObjectChange>)
    ensures
        r@ == object_changes(effects),
{
    let mut out: Vec<ObjectChange> = Vec::new();
    push_tagged_changes(&mut out, &effects.created, ObjectStatus::Created);
    push_tagged_changes(&mut out, &effects.mutated, ObjectStatus::Mutated);
    push_tagged_changes(&mut out, &effects.unwrapped, ObjectStatus::Unwrapped);
    assert(out@ =~= object_changes(effects));
    out
}

/// Lists the records of the objects that `effects` remove, for a transaction
/// of checkpoint `checkpoint` in epoch `epoch`.
pub fn get_deleted_db_objects(
    effects: &TransactionEffects,
    epoch: EpochId,
    checkpoint: Option<CheckpointSequenceNumber>,
) -> (r: Vec<DeletedObject>)
    ensures
        r@ == deleted_objects(effects, epoch, checkpoint),
{
    let mut out: Vec<DeletedObject> = Vec::new();
    let digest = &effects.transaction_digest;
    push_tagged_removals(&mut out, &effects.deleted, epoch, checkpoint, digest, ObjectStatus::Deleted);
    push_tagged_removals(&mut out, &effects.wrapped, epoch, checkpoint, digest, ObjectStatus::Wrapped);
    push_tagged_removals(
        &mut out,
        &effects.unwrapped_then_deleted,
        epoch,
        checkpoint,
        digest,
        ObjectStatus::UnwrappedThenDeleted,
    );
    assert(out@ =~= deleted_objects(effects, epoch, checkpoint));
    out
}

/// The ids of the objects of `changes`, in order.
pub open spec fn change_ids(changes: Seq<ObjectChange>) -> Seq<ObjectId> {
    changes.map_values(|c: ObjectChange| c.0)
}

/// The ids of the objects of `removals`, in order.
pub open spec fn removal_ids(removals: Seq<DeletedObject>) -> Seq<ObjectId> {
    removals.map_values(|d: DeletedObject| d.object_id)
}

/// The ids of the objects of `refs`, in order.
pub open spec fn owned_ids(refs: Seq<OwnedObjectRef>) -> Seq<ObjectId> {
    refs.map_values(|r: OwnedObjectRef| r.reference.object_id)
}

/// The ids of the objects of `refs`, in order.
pub open spec fn ref_ids(refs: Seq<ObjectRef>) -> Seq<ObjectId> {
    refs.map_values(|r: ObjectRef| r.object_id)
}

/// The ids of all the objects that `effects` name, kind by kind.
pub open spec fn touched_ids(effects: &TransactionEffects) -> Seq<ObjectId> {
    owned_ids(effects.created@) + owned_ids(effects.mutated@) + owned_ids(effects.unwrapped@)
        + ref_ids(effects.deleted@) + ref_ids(effects.wrapped@) + ref_ids(
        effects.unwrapped_then_deleted@,
    )
}

impl TransactionEffects {
    /// Whether the effects name every object under one kind of change only,
    /// and once. Effects that a node computed do.
    pub open spec fn names_each_object_once(&self) -> bool {
        touched_ids(self).no_duplicates()
    }
}

/// The changes and the removals of a transaction divide the objects that its
/// effects name: listed one after the other they are those objects, each as
/// often as the effects name it; every change leaves its object in existence
/// and no removal does; and where the effects name each object once, no
/// object is both changed and removed.
pub proof fn lemma_changes_and_removals_partition(
    effects: &TransactionEffects,
    epoch: EpochId,
    checkpoint: Option<CheckpointSequenceNumber>,
)
    ensures
        change_ids(object_changes(effects)) + removal_ids(
            deleted_objects(effects, epoch, checkpoint),
        ) == touched_ids(effects),
        change_ids(object_changes(effects)).to_multiset().add(
            removal_ids(deleted_objects(effects, epoch, checkpoint)).to_multiset(),
        ) == touched_ids(effects).to_multiset(),
        forall|i: int|
            0 <= i < object_changes(effects).len() ==> (#[trigger] object_changes(
                effects,
            )[i]).2.present_after(),
        forall|j: int|
            0 <= j < deleted_objects(effects, epoch, checkpoint).len() ==> !(
            #[trigger] deleted_objects(effects, epoch, checkpoint)[j]).object_status.present_after(),
        effects.names_each_object_once() ==> forall|i: int, j: int|
            0 <= i < object_changes(effects).len() && 0 <= j < deleted_objects(
                effects,
                epoch,
                checkpoint,
            ).len() ==> (#[trigger] object_changes(effects)[i]).0 != (#[trigger] deleted_objects(
                effects,
                epoch,
                checkpoint,
            )[j]).object_id,
{
    let changes = object_changes(effects);
    let removals = deleted_objects(effects, epoch, checkpoint);
    let left = change_ids(changes);
    let right = removal_ids(removals);
    assert(left =~= owned_ids(effects.created@) + owned_ids(effects.mutated@) + owned_ids(
        effects.unwrapped@,
    ));
    assert(right =~= ref_ids(effects.deleted@) + ref_ids(effects.wrapped@) + ref_ids(
        effects.unwrapped_then_deleted@,
    ));
    assert(left + right =~= touched_ids(effects));
    lemma_multiset_commutative(left, right);
    if effects.names_each_object_once() {
        assert forall|i: int, j: int| 0 <= i < changes.len() && 0 <= j < removals.len() implies (
        #[trigger] changes[i]).0 != (#[trigger] removals[j]).object_id by {
            let all = touched_ids(effects);
            assert(all[i] == left[i]);
            assert(all[left.len() + j] == right[j]);
        }
    }
}

/// The changes that the transactions of a checkpoint make to objects which
/// exist afterwards, transaction by transaction.
pub open spec fn checkpoint_object_changes(transactions: Seq<TransactionRecord>) -> Seq<
    ObjectChange,
> {
    transactions.flat_map(|tx: TransactionRecord| object_changes(&tx.effects))
}

/// The records of the objects that the transactions of a checkpoint remove,
/// transaction by transaction.
pub open spec fn checkpoint_deleted_objects(
    transactions: Seq<TransactionRecord>,
    epoch: EpochId,
    checkpoint: Option<CheckpointSequenceNumber>,
) -> Seq<DeletedObject> {
    transactions.flat_map(|tx: TransactionRecord| deleted_objects(&tx.effects, epoch, checkpoint))
}

/// The ids of all the objects that the transactions of a checkpoint name.
pub open spec fn checkpoint_touched_ids(transactions: Seq<TransactionRecord>) -> Seq<ObjectId> {
    transactions.flat_map(|tx: TransactionRecord| touched_ids(&tx.effects))
}

/// Lists the changes that the transactions of a checkpoint make to objects
/// which exist afterwards.
pub fn get_checkpoint_object_changes(transactions: &Vec<TransactionRecord>) -> (r: Vec<
    ObjectChange,
>)
    ensures
        r@ == checkpoint_object_changes(transactions@),
{
    let mut out: Vec<ObjectChange> = Vec::new();
    let mut i: usize = 0;
    assert(out@ =~= checkpoint_object_changes(transactions@.take(0)));
    while i < transactions.len()
        invariant
            i <= transactions.len(),
            out@ == checkpoint_object_changes(transactions@.take(i as int)),
        decreases transactions.len() - i,
    {
        let mut changes = get_object_changes(&transactions[i].effects);
        out.append(&mut changes);
        proof {
            transactions@.lemma_flat_map_take_append(
                |tx: TransactionRecord| object_changes(&tx.effects),
                i as int,
            );
        }
        i += 1;
    }
    assert(transactions@.take(transactions.len() as int) =~= transactions@);
    out
}

/// Over a whole checkpoint, the objects changed and the objects removed are
/// together the objects that the effects name, each as often as it is named.
pub proof fn lemma_checkpoint_changes_and_removals_partition(
    transactions: Seq<TransactionRecord>,
    epoch: EpochId,
    checkpoint: Option<CheckpointSequenceNumber>,
)
    ensures
        change_ids(checkpoint_object_changes(transactions)).to_multiset().add(
            removal_ids(checkpoint_deleted_objects(transactions, epoch, checkpoint)).to_multiset(),
        ) == checkpoint_touched_ids(transactions).to_multiset(),
    decreases transactions.len(),
{
    broadcast use vstd::multiset::group_multiset_axioms;

    let fc = |tx: TransactionRecord| object_changes(&tx.effects);
    let fd = |tx: TransactionRecord| deleted_objects(&tx.effects, epoch, checkpoint);
    let ft = |tx: TransactionRecord| touched_ids(&tx.effects);
    if transactions.len() == 0 {
        assert(checkpoint_object_changes(transactions) =~= Seq::<ObjectChange>::empty());
        assert(checkpoint_deleted_objects(transactions, epoch, checkpoint) =~= Seq::<
            DeletedObject,
        >::empty());
        assert(checkpoint_touched_ids(transactions) =~= Seq::<ObjectId>::empty());
        assert(change_ids(Seq::<ObjectChange>::empty()) =~= Seq::<ObjectId>::empty());
        assert(removal_ids(Seq::<DeletedObject>::empty()) =~= Seq::<ObjectId>::empty());
        lemma_multiset_commutative(Seq::<ObjectId>::empty(), Seq::<ObjectId>::empty());
        assert(Seq::<ObjectId>::empty() + Seq::<ObjectId>::empty() =~= Seq::<ObjectId>::empty());
    } else {
        let rest = transactions.drop_last();
        let last = transactions.last();
        lemma_checkpoint_changes_and_removals_partition(rest, epoch, checkpoint);
        lemma_changes_and_removals_partition(&last.effects, epoch, checkpoint);
        assert(transactions =~= rest.push(last));
        rest.lemma_flat_map_push(fc, last);
        rest.lemma_flat_map_push(fd, last);
        rest.lemma_flat_map_push(ft, last);
        let c0 = checkpoint_object_changes(rest);
        let d0 = checkpoint_deleted_objects(rest, epoch, checkpoint);
        let c1 = object_changes(&last.effects);
        let d1 = deleted_objects(&last.effects, epoch, checkpoint);
        assert(checkpoint_object_changes(transactions) == c0 + c1);
        assert(checkpoint_deleted_objects(transactions, epoch, checkpoint) == d0 + d1);
        assert(checkpoint_touched_ids(transactions) == checkpoint_touched_ids(rest) + touched_ids(
            &last.effects,
        ));
        assert(change_ids(c0 + c1) =~= change_ids(c0) + change_ids(c1));
        assert(removal_ids(d0 + d1) =~= removal_ids(d0) + removal_ids(d1));
        lemma_multiset_commutative(change_ids(c0), change_ids(c1));
        lemma_multiset_commutative(removal_ids(d0), removal_ids(d1));
        lemma_multiset_commutative(checkpoint_touched_ids(rest), touched_ids(&last.effects));
        assert(change_ids(c0 + c1).to_multiset().add(removal_ids(d0 + d1).to_multiset())
            =~= checkpoint_touched_ids(transactions).to_multiset());
    }
}

} // verus!
