use checkpoint_indexer::ids::{Address, ObjectDigest, ObjectId, TransactionDigest};
use checkpoint_indexer::object_changes::{
    get_checkpoint_object_changes, get_deleted_db_objects, get_object_changes,
};
use checkpoint_indexer::records::DeletedObject;
use checkpoint_indexer::types::{
    ObjectRef, ObjectStatus, OwnedObjectRef, Owner, TransactionEffects, TransactionRecord,
};

fn oc_id(n: u8) -> ObjectId {
    ObjectId { bytes: [n; 32] }
}

fn oc_ref(n: u8, version: u64) -> ObjectRef {
    ObjectRef { object_id: oc_id(n), version, digest: ObjectDigest { bytes: [n; 32] } }
}

fn oc_owned(n: u8, version: u64) -> OwnedObjectRef {
    OwnedObjectRef { owner: Owner::AddressOwner(Address { bytes: [9; 32] }), reference: oc_ref(n, version) }
}

fn oc_effects() -> TransactionEffects {
    TransactionEffects {
        transaction_digest: TransactionDigest { bytes: [7; 32] },
        created: vec![oc_owned(1, 10)],
        mutated: vec![oc_owned(2, 20), oc_owned(3, 30)],
        unwrapped: vec![oc_owned(4, 40)],
        deleted: vec![oc_ref(5, 50)],
        wrapped: vec![oc_ref(6, 60), oc_ref(7, 70)],
        unwrapped_then_deleted: vec![oc_ref(8, 80)],
    }
}

fn oc_transaction(digest: u8, effects: TransactionEffects) -> TransactionRecord {
    TransactionRecord {
        digest: TransactionDigest { bytes: [digest; 32] },
        sender: Address { bytes: [1; 32] },
        transaction_count: 1,
        timestamp_ms: 0,
        checkpoint: 0,
        effects,
        events: vec![],
        input_objects: vec![],
        move_calls: vec![],
    }
}

#[test]
fn object_changes_list_created_then_mutated_then_unwrapped() {
    assert_eq!(
        get_object_changes(&oc_effects()),
        vec![
            (oc_id(1), 10, ObjectStatus::Created),
            (oc_id(2), 20, ObjectStatus::Mutated),
            (oc_id(3), 30, ObjectStatus::Mutated),
            (oc_id(4), 40, ObjectStatus::Unwrapped),
        ]
    );
}

#[test]
fn object_changes_of_empty_effects_are_empty() {
    let effects = TransactionEffects {
        transaction_digest: TransactionDigest { bytes: [0; 32] },
        created: vec![],
        mutated: vec![],
        unwrapped: vec![],
        deleted: vec![],
        wrapped: vec![],
        unwrapped_then_deleted: vec![],
    };
    assert!(get_object_changes(&effects).is_empty());
    assert!(get_deleted_db_objects(&effects, 3, Some(9)).is_empty());
}

#[test]
fn deleted_objects_list_deleted_then_wrapped_then_unwrapped_then_deleted() {
    let deleted = get_deleted_db_objects(&oc_effects(), 3, Some(12));
    let statuses: Vec<ObjectStatus> = deleted.iter().map(|d| d.object_status).collect();
    assert_eq!(
        statuses,
        vec![
            ObjectStatus::Deleted,
            ObjectStatus::Wrapped,
            ObjectStatus::Wrapped,
            ObjectStatus::UnwrappedThenDeleted,
        ]
    );
    assert_eq!(
        deleted[0],
        DeletedObject {
            epoch: 3,
            checkpoint: Some(12),
            object_id: oc_id(5),
            version: 50,
            object_digest: ObjectDigest { bytes: [5; 32] },
            previous_transaction: TransactionDigest { bytes: [7; 32] },
            object_status: ObjectStatus::Deleted,
        }
    );
    assert_eq!(deleted[3].object_id, oc_id(8));
    assert_eq!(deleted[3].version, 80);
}

#[test]
fn deleted_objects_without_checkpoint_have_no_checkpoint_column() {
    let deleted = get_deleted_db_objects(&oc_effects(), 0, None);
    assert_eq!(deleted.len(), 4);
    assert!(deleted.iter().all(|d| d.checkpoint.is_none() && d.epoch == 0));
}

#[test]
fn deleted_object_from_copies_every_field() {
    let record = DeletedObject::from(
        8,
        Some(77),
        &oc_ref(2, 5),
        &TransactionDigest { bytes: [3; 32] },
        &ObjectStatus::Wrapped,
    );
    assert_eq!(record.epoch, 8);
    assert_eq!(record.checkpoint, Some(77));
    assert_eq!(record.object_id, oc_id(2));
    assert_eq!(record.version, 5);
    assert_eq!(record.previous_transaction, TransactionDigest { bytes: [3; 32] });
    assert_eq!(record.object_status, ObjectStatus::Wrapped);
}

#[test]
fn changes_and_removals_partition_the_objects_of_the_effects() {
    let effects = oc_effects();
    let changed: Vec<ObjectId> = get_object_changes(&effects).iter().map(|c| c.0).collect();
    let removed: Vec<ObjectId> =
        get_deleted_db_objects(&effects, 1, Some(1)).iter().map(|d| d.object_id).collect();
    for id in &changed {
        assert!(!removed.contains(id));
    }
    let mut together: Vec<[u8; 32]> = changed.iter().chain(removed.iter()).map(|i| i.bytes).collect();
    together.sort();
    let mut touched: Vec<[u8; 32]> = (1u8..=8).map(|n| [n; 32]).collect();
    touched.sort();
    assert_eq!(together, touched);
}

#[test]
fn every_change_is_present_after_and_no_removal_is() {
    let effects = oc_effects();
    assert!(get_object_changes(&effects).iter().all(|c| c.2.is_present_after()));
    assert!(get_deleted_db_objects(&effects, 1, None)
        .iter()
        .all(|d| !d.object_status.is_present_after()));
}

#[test]
fn checkpoint_object_changes_follow_the_transactions() {
    let mut second = oc_effects();
    second.created = vec![oc_owned(20, 1)];
    second.mutated = vec![];
    second.unwrapped = vec![];
    let transactions = vec![oc_transaction(1, oc_effects()), oc_transaction(2, second)];
    let changes = get_checkpoint_object_changes(&transactions);
    assert_eq!(changes.len(), 5);
    assert_eq!(changes[0], (oc_id(1), 10, ObjectStatus::Created));
    assert_eq!(changes[3], (oc_id(4), 40, ObjectStatus::Unwrapped));
    assert_eq!(changes[4], (oc_id(20), 1, ObjectStatus::Created));
}
