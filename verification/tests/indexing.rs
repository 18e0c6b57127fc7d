use checkpoint_indexer::ids::{Address, ObjectDigest, ObjectId, TransactionDigest};
use checkpoint_indexer::indexer::{
    count_total_transactions, find_package, index_addresses, index_checkpoint,
    index_checkpoint_store, index_events, index_input_objects, index_move_calls, index_objects,
    index_packages, index_recipients, index_transactions,
};
use checkpoint_indexer::records::{
    AddressRow, CheckpointRow, InputObject, MoveCall, Package, Recipient, TransactionRow,
};
use checkpoint_indexer::types::{
    CheckpointData, CheckpointEnvelope, Event, EventType, InputObjectKind, Module, MoveCallTarget,
    ObjectData, ObjectRef, ObjectStatus, OwnedObjectRef, Owner, PackageData, RawData,
    TransactionEffects, TransactionRecord,
};

fn ix_id(n: u8) -> ObjectId {
    ObjectId { bytes: [n; 32] }
}

fn ix_address(n: u8) -> Address {
    Address { bytes: [n; 32] }
}

fn ix_digest(n: u8) -> TransactionDigest {
    TransactionDigest { bytes: [n; 32] }
}

fn ix_ref(n: u8, version: u64) -> ObjectRef {
    ObjectRef { object_id: ix_id(n), version, digest: ObjectDigest { bytes: [n; 32] } }
}

fn ix_owned(n: u8, version: u64, owner: Owner) -> OwnedObjectRef {
    OwnedObjectRef { owner, reference: ix_ref(n, version) }
}

fn ix_effects(digest: u8) -> TransactionEffects {
    TransactionEffects {
        transaction_digest: ix_digest(digest),
        created: vec![],
        mutated: vec![],
        unwrapped: vec![],
        deleted: vec![],
        wrapped: vec![],
        unwrapped_then_deleted: vec![],
    }
}

fn ix_transaction(digest: u8, sender: u8) -> TransactionRecord {
    TransactionRecord {
        digest: ix_digest(digest),
        sender: ix_address(sender),
        transaction_count: 1,
        timestamp_ms: 1_000,
        checkpoint: 9,
        effects: ix_effects(digest),
        events: vec![],
        input_objects: vec![],
        move_calls: vec![],
    }
}

fn ix_event(tx: u8, seq: u64, name: &str, bcs: Vec<u8>) -> Event {
    Event {
        tx_digest: ix_digest(tx),
        event_seq: seq,
        package_id: ix_id(2),
        transaction_module: "coin".to_string(),
        sender: ix_address(4),
        type_: EventType {
            address: ix_address(2),
            module: "coin".to_string(),
            name: name.to_string(),
        },
        bcs,
    }
}

fn ix_move_object(n: u8, version: u64, produced_by: Option<u8>) -> ObjectData {
    ObjectData {
        object_id: ix_id(n),
        version,
        digest: ObjectDigest { bytes: [n; 32] },
        owner: Owner::AddressOwner(ix_address(4)),
        previous_transaction: produced_by.map(ix_digest),
        storage_rebate: 7,
        content: RawData::MoveObject { has_public_transfer: true, contents: vec![n, n] },
    }
}

fn ix_package(n: u8, version: u64, produced_by: u8, module: &str) -> ObjectData {
    ObjectData {
        object_id: ix_id(n),
        version,
        digest: ObjectDigest { bytes: [n; 32] },
        owner: Owner::Immutable,
        previous_transaction: Some(ix_digest(produced_by)),
        storage_rebate: 0,
        content: RawData::Package(PackageData {
            id: ix_id(n),
            version,
            modules: vec![Module { name: module.to_string(), bytes: vec![0xa1, 0x1c] }],
        }),
    }
}

fn ix_envelope(sequence_number: u64, epoch: u64, transactions: &[TransactionRecord]) -> CheckpointEnvelope {
    CheckpointEnvelope {
        sequence_number,
        epoch,
        timestamp_ms: 5_000,
        transactions: transactions.iter().map(|t| t.digest).collect(),
        end_of_epoch_data: None,
    }
}

#[test]
fn transaction_rows_copy_the_transactions() {
    let mut second = ix_transaction(2, 5);
    second.transaction_count = 3;
    second.checkpoint = 10;
    second.timestamp_ms = 2_000;
    let rows = index_transactions(&vec![ix_transaction(1, 4), second]);
    assert_eq!(
        rows,
        vec![
            TransactionRow {
                transaction_digest: ix_digest(1),
                sender: ix_address(4),
                checkpoint_sequence_number: 9,
                transaction_time: 1_000,
                transaction_count: 1,
            },
            TransactionRow {
                transaction_digest: ix_digest(2),
                sender: ix_address(5),
                checkpoint_sequence_number: 10,
                transaction_time: 2_000,
                transaction_count: 3,
            },
        ]
    );
}

#[test]
fn total_transactions_is_the_sum_of_the_counts() {
    let mut transactions = vec![ix_transaction(1, 4), ix_transaction(2, 4), ix_transaction(3, 4)];
    transactions[0].transaction_count = 2;
    transactions[1].transaction_count = 5;
    transactions[2].transaction_count = 11;
    let rows = index_transactions(&transactions);
    assert_eq!(count_total_transactions(&rows), 18);
    assert_eq!(count_total_transactions(&vec![]), 0);
}

#[test]
fn total_transactions_wraps_like_its_column() {
    let mut transactions = vec![ix_transaction(1, 4), ix_transaction(2, 4)];
    transactions[0].transaction_count = i64::MAX as u64;
    transactions[1].transaction_count = 1;
    let rows = index_transactions(&transactions);
    assert_eq!(count_total_transactions(&rows), i64::MIN);
}

#[test]
fn event_rows_follow_the_transactions_and_their_events() {
    let mut first = ix_transaction(1, 4);
    first.events = vec![ix_event(1, 0, "Minted", vec![1]), ix_event(1, 1, "Burned", vec![2, 3])];
    let second = ix_transaction(2, 4);
    let mut third = ix_transaction(3, 4);
    third.events = vec![ix_event(3, 0, "Moved", vec![])];
    let rows = index_events(&vec![first, second, third]);
    assert_eq!(rows.len(), 3);
    assert_eq!(rows[0].transaction_digest, ix_digest(1));
    assert_eq!(rows[0].event_sequence, 0);
    assert_eq!(rows[0].type_struct, "Minted");
    assert_eq!(rows[1].event_sequence, 1);
    assert_eq!(rows[1].type_struct, "Burned");
    assert_eq!(rows[1].bcs, vec![2, 3]);
    assert_eq!(rows[1].module, "coin");
    assert_eq!(rows[1].type_module, "coin");
    assert_eq!(rows[1].type_address, ix_address(2));
    assert_eq!(rows[1].package, ix_id(2));
    assert_eq!(rows[1].sender, ix_address(4));
    assert_eq!(rows[2].transaction_digest, ix_digest(3));
}

#[test]
fn changed_objects_go_to_the_transaction_that_produced_them() {
    let mut first = ix_transaction(1, 4);
    first.effects.deleted = vec![ix_ref(30, 3)];
    let second = ix_transaction(2, 4);
    let third = ix_transaction(3, 4);
    let changed = vec![
        (ObjectStatus::Created, ix_move_object(10, 1, Some(2))),
        (ObjectStatus::Mutated, ix_move_object(11, 5, Some(1))),
        (ObjectStatus::Unwrapped, ix_move_object(12, 6, Some(2))),
        (ObjectStatus::Mutated, ix_move_object(13, 7, None)),
        (ObjectStatus::Mutated, ix_move_object(14, 8, Some(99))),
    ];
    let entries = index_objects(&vec![first, second, third], &changed, 3, 9);
    assert_eq!(entries.len(), 3);
    assert_eq!(entries[0].changed_objects.len(), 1);
    assert_eq!(entries[0].changed_objects[0].data, changed[1].1);
    assert_eq!(entries[0].changed_objects[0].object_status, ObjectStatus::Mutated);
    assert_eq!(entries[0].changed_objects[0].epoch, 3);
    assert_eq!(entries[0].changed_objects[0].checkpoint, Some(9));
    assert_eq!(entries[0].deleted_objects.len(), 1);
    assert_eq!(entries[0].deleted_objects[0].object_id, ix_id(30));
    assert_eq!(entries[0].deleted_objects[0].checkpoint, Some(9));
    let second_ids: Vec<ObjectId> =
        entries[1].changed_objects.iter().map(|o| o.data.object_id).collect();
    assert_eq!(second_ids, vec![ix_id(10), ix_id(12)]);
    assert!(entries[1].deleted_objects.is_empty());
    assert!(entries[2].changed_objects.is_empty());
    assert!(entries[2].deleted_objects.is_empty());
}

#[test]
fn packages_are_the_created_objects_that_are_packages() {
    let mut first = ix_transaction(1, 4);
    first.effects.created = vec![
        ix_owned(10, 1, Owner::AddressOwner(ix_address(4))),
        ix_owned(20, 1, Owner::Immutable),
    ];
    first.effects.mutated = vec![ix_owned(21, 2, Owner::Immutable)];
    let mut second = ix_transaction(2, 6);
    second.effects.created = vec![ix_owned(21, 2, Owner::Immutable), ix_owned(40, 1, Owner::Immutable)];
    let changed = vec![
        (ObjectStatus::Created, ix_move_object(10, 1, Some(1))),
        (ObjectStatus::Created, ix_package(20, 1, 1, "first")),
        (ObjectStatus::Created, ix_package(21, 2, 2, "second")),
    ];
    let packages = index_packages(&vec![first, second], &changed);
    assert_eq!(
        packages,
        vec![
            Package {
                package_id: ix_id(20),
                version: 1,
                author: ix_address(4),
                modules: vec![Module { name: "first".to_string(), bytes: vec![0xa1, 0x1c] }],
            },
            Package {
                package_id: ix_id(21),
                version: 2,
                author: ix_address(6),
                modules: vec![Module { name: "second".to_string(), bytes: vec![0xa1, 0x1c] }],
            },
        ]
    );
}

#[test]
fn the_last_package_with_an_id_is_the_one_found() {
    let changed = vec![
        (ObjectStatus::Created, ix_package(20, 1, 1, "old")),
        (ObjectStatus::Mutated, ix_move_object(20, 3, Some(1))),
        (ObjectStatus::Created, ix_package(20, 2, 1, "new")),
        (ObjectStatus::Created, ix_move_object(21, 1, Some(1))),
    ];
    assert_eq!(find_package(&changed, &ix_id(20)), Some(2));
    assert_eq!(find_package(&changed, &ix_id(21)), None);
    assert_eq!(find_package(&changed, &ix_id(22)), None);
    assert_eq!(find_package(&vec![], &ix_id(20)), None);
}

#[test]
fn input_object_rows_name_each_input() {
    let mut tx = ix_transaction(1, 4);
    tx.input_objects = vec![
        InputObjectKind::MovePackage(ix_id(2)),
        InputObjectKind::ImmOrOwnedMoveObject(ix_ref(10, 6)),
        InputObjectKind::SharedMoveObject { id: ix_id(11), initial_shared_version: 3, mutable: true },
    ];
    assert_eq!(
        index_input_objects(&vec![ix_transaction(0, 4), tx], 3, 9),
        vec![
            InputObject {
                transaction_digest: ix_digest(1),
                checkpoint_sequence_number: 9,
                epoch: 3,
                object_id: ix_id(2),
                object_version: None,
            },
            InputObject {
                transaction_digest: ix_digest(1),
                checkpoint_sequence_number: 9,
                epoch: 3,
                object_id: ix_id(10),
                object_version: Some(6),
            },
            InputObject {
                transaction_digest: ix_digest(1),
                checkpoint_sequence_number: 9,
                epoch: 3,
                object_id: ix_id(11),
                object_version: Some(3),
            },
        ]
    );
}

#[test]
fn move_call_rows_name_each_call() {
    let mut tx = ix_transaction(1, 4);
    tx.move_calls = vec![
        MoveCallTarget { package: ix_id(2), module: "coin".to_string(), function: "mint".to_string() },
        MoveCallTarget { package: ix_id(2), module: "coin".to_string(), function: "burn".to_string() },
    ];
    let rows = index_move_calls(&vec![tx], 3, 9);
    assert_eq!(
        rows[1],
        MoveCall {
            transaction_digest: ix_digest(1),
            checkpoint_sequence_number: 9,
            epoch: 3,
            sender: ix_address(4),
            move_package: ix_id(2),
            move_module: "coin".to_string(),
            move_function: "burn".to_string(),
        }
    );
    assert_eq!(rows.len(), 2);
    assert_eq!(rows[0].move_function, "mint");
}

#[test]
fn recipients_are_the_addresses_that_own_what_a_transaction_left() {
    let mut tx = ix_transaction(1, 4);
    tx.effects.created = vec![
        ix_owned(10, 1, Owner::AddressOwner(ix_address(7))),
        ix_owned(11, 1, Owner::Immutable),
    ];
    tx.effects.mutated = vec![
        ix_owned(12, 2, Owner::ObjectOwner(ix_address(8))),
        ix_owned(13, 2, Owner::AddressOwner(ix_address(4))),
    ];
    tx.effects.unwrapped = vec![
        ix_owned(14, 3, Owner::Shared { initial_shared_version: 1 }),
        ix_owned(15, 3, Owner::AddressOwner(ix_address(7))),
    ];
    tx.effects.deleted = vec![ix_ref(16, 4)];
    let recipients: Vec<Address> =
        index_recipients(&vec![tx.clone()], 3, 9).iter().map(|r| r.recipient).collect();
    assert_eq!(recipients, vec![ix_address(7), ix_address(4), ix_address(7)]);
    assert_eq!(
        tx.get_recipients(3, 9)[0],
        Recipient {
            transaction_digest: ix_digest(1),
            checkpoint_sequence_number: 9,
            epoch: 3,
            sender: ix_address(4),
            recipient: ix_address(7),
        }
    );
}

#[test]
fn addresses_are_the_recipients_and_then_the_sender() {
    let mut first = ix_transaction(1, 4);
    first.effects.created = vec![ix_owned(10, 1, Owner::AddressOwner(ix_address(7)))];
    let second = ix_transaction(2, 5);
    assert_eq!(
        index_addresses(&vec![first, second], 3, 9),
        vec![
            AddressRow {
                account_address: ix_address(7),
                first_appearance_tx: ix_digest(1),
                first_appearance_time: 1_000,
            },
            AddressRow {
                account_address: ix_address(4),
                first_appearance_tx: ix_digest(1),
                first_appearance_time: 1_000,
            },
            AddressRow {
                account_address: ix_address(5),
                first_appearance_tx: ix_digest(2),
                first_appearance_time: 1_000,
            },
        ]
    );
}

#[test]
fn the_checkpoint_row_is_built_from_the_envelope_and_the_total() {
    let transactions = vec![ix_transaction(1, 4), ix_transaction(2, 4)];
    let mut envelope = ix_envelope(9, 3, &transactions);
    let row = CheckpointRow::from(&envelope, 2);
    assert_eq!(
        row,
        CheckpointRow {
            sequence_number: 9,
            epoch: 3,
            timestamp_ms: 5_000,
            transactions: vec![ix_digest(1), ix_digest(2)],
            end_of_epoch: false,
            total_transactions: 2,
        }
    );
    envelope.end_of_epoch_data = Some(checkpoint_indexer::types::EndOfEpochData {
        next_epoch_committee: vec![],
        next_epoch_protocol_version: 1,
        epoch_commitments: vec![],
    });
    assert!(CheckpointRow::from(&envelope, 2).end_of_epoch);
}

#[test]
fn a_checkpoint_in_the_middle_of_an_epoch_yields_its_records_and_no_epoch() {
    let mut first = ix_transaction(1, 4);
    first.transaction_count = 2;
    first.events = vec![ix_event(1, 0, "Minted", vec![1])];
    first.effects.created = vec![ix_owned(20, 1, Owner::Immutable)];
    first.effects.wrapped = vec![ix_ref(30, 3)];
    first.input_objects = vec![InputObjectKind::MovePackage(ix_id(2))];
    first.move_calls =
        vec![MoveCallTarget { package: ix_id(2), module: "m".to_string(), function: "f".to_string() }];
    let mut second = ix_transaction(2, 5);
    second.transaction_count = 3;
    second.effects.mutated = vec![ix_owned(10, 5, Owner::AddressOwner(ix_address(7)))];
    let transactions = vec![first, second];
    let data = CheckpointData {
        checkpoint: ix_envelope(9, 3, &transactions),
        transactions,
        changed_objects: vec![
            (ObjectStatus::Created, ix_package(20, 1, 1, "m")),
            (ObjectStatus::Mutated, ix_move_object(10, 5, Some(2))),
        ],
    };
    let (store, epoch) = index_checkpoint(&data, None).unwrap();
    assert!(epoch.is_none());
    assert_eq!(store, index_checkpoint_store(&data));
    assert_eq!(store.checkpoint.sequence_number, 9);
    assert_eq!(store.checkpoint.total_transactions, 5);
    assert_eq!(store.transactions.len(), 2);
    assert_eq!(store.events.len(), 1);
    assert_eq!(store.objects_changes.len(), 2);
    assert_eq!(store.objects_changes[0].changed_objects.len(), 1);
    assert_eq!(store.objects_changes[0].deleted_objects.len(), 1);
    assert_eq!(store.objects_changes[1].changed_objects.len(), 1);
    assert_eq!(store.packages.len(), 1);
    assert_eq!(store.packages[0].author, ix_address(4));
    assert_eq!(store.input_objects.len(), 1);
    assert_eq!(store.move_calls.len(), 1);
    assert_eq!(store.recipients.len(), 1);
    assert_eq!(store.recipients[0].recipient, ix_address(7));
    assert_eq!(store.addresses.len(), 3);
}

#[test]
fn an_empty_checkpoint_yields_empty_records() {
    let data = CheckpointData {
        checkpoint: ix_envelope(4, 1, &[]),
        transactions: vec![],
        changed_objects: vec![],
    };
    let (store, epoch) = index_checkpoint(&data, None).unwrap();
    assert!(epoch.is_none());
    assert_eq!(store.checkpoint.total_transactions, 0);
    assert!(store.transactions.is_empty());
    assert!(store.events.is_empty());
    assert!(store.objects_changes.is_empty());
    assert!(store.addresses.is_empty());
    assert!(store.packages.is_empty());
    assert!(store.input_objects.is_empty());
    assert!(store.move_calls.is_empty());
    assert!(store.recipients.is_empty());
}

#[test]
fn the_objects_of_the_records_partition_the_objects_of_the_effects() {
    let mut first = ix_transaction(1, 4);
    first.effects.created = vec![ix_owned(10, 1, Owner::Immutable)];
    first.effects.deleted = vec![ix_ref(11, 2)];
    let mut second = ix_transaction(2, 4);
    second.effects.mutated = vec![ix_owned(12, 3, Owner::Immutable)];
    second.effects.unwrapped_then_deleted = vec![ix_ref(13, 4)];
    let changed = vec![
        (ObjectStatus::Created, ix_move_object(10, 1, Some(1))),
        (ObjectStatus::Mutated, ix_move_object(12, 3, Some(2))),
    ];
    let entries = index_objects(&vec![first, second], &changed, 0, 1);
    let mut changed_ids: Vec<[u8; 32]> = vec![];
    let mut deleted_ids: Vec<[u8; 32]> = vec![];
    for entry in &entries {
        changed_ids.extend(entry.changed_objects.iter().map(|o| o.data.object_id.bytes));
        deleted_ids.extend(entry.deleted_objects.iter().map(|o| o.object_id.bytes));
    }
    assert!(changed_ids.iter().all(|id| !deleted_ids.contains(id)));
    let mut all: Vec<[u8; 32]> = changed_ids.into_iter().chain(deleted_ids).collect();
    all.sort();
    assert_eq!(all, vec![[10; 32], [11; 32], [12; 32], [13; 32]]);
}
