//! Indexing a checkpoint: from what was downloaded to normalized records.
//!
//! Nothing here performs input or output. For every kind of record a spec
//! function says what the records of a checkpoint are, and the function that
//! builds them is proved to build exactly those.

use vstd::prelude::*;
use vstd::seq_lib::*;
use crate::epoch::{epoch_store, index_epoch};
use crate::errors::IndexerError;
use crate::ids::{Address, ObjectId, TransactionDigest};
use crate::object_changes::{deleted_objects, get_deleted_db_objects};
use crate::records::{
    append_records, checkpoint_column, push_record, to_checkpoint_column, AddressRow,
    CheckpointRow, CheckpointRowView, EventRow, EventRowView, InputObject, MoveCall, MoveCallView,
    ObjectRow, ObjectRowView, Package, PackageView, Recipient, TemporaryCheckpointStore,
    TemporaryCheckpointStoreView, TemporaryEpochStore, TemporaryEpochStoreView,
    TransactionObjectChanges, TransactionObjectChangesView, TransactionRow,
};
use crate::types::{
    duplicate_modules, CheckpointData, CheckpointEnvelope, CheckpointSequenceNumber, EpochId,
    Event, InputObjectKind, MoveCallTarget, ObjectData, ObjectStatus, OwnedObjectRef, Owner,
    PackageData, RawData, SystemStateSummary, TransactionRecord,
};

verus! {

/// The record of the transaction `tx`.
pub open spec fn transaction_row(tx: TransactionRecord) -> TransactionRow {
    TransactionRow {
        transaction_digest: tx.digest,
        sender: tx.sender,
        checkpoint_sequence_number: tx.checkpoint as i64,
        transaction_time: tx.timestamp_ms as i64,
        transaction_count: tx.transaction_count as i64,
    }
}

/// The records of `transactions`, one for each, in order.
pub open spec fn transaction_rows(transactions: Seq<TransactionRecord>) -> Seq<TransactionRow> {
    transactions.map_values(|tx: TransactionRecord| transaction_row(tx))
}

/// Builds the record of each transaction.
pub fn index_transactions(transactions: &Vec<TransactionRecord>) -> (r: Vec<TransactionRow>)
    ensures
        r@ == transaction_rows(transactions@),
{
    let mut out: Vec<TransactionRow> = Vec::new();
    let mut i: usize = 0;
    while i < transactions.len()
        invariant
            i <= transactions.len(),
            out@ == transaction_rows(transactions@).take(i as int),
        decreases transactions.len() - i,
    {
        let tx = &transactions[i];
        out.push(
            TransactionRow {
                transaction_digest: tx.digest,
                sender: tx.sender,
                checkpoint_sequence_number: tx.checkpoint as i64,
                transaction_time: tx.timestamp_ms as i64,
                transaction_count: tx.transaction_count as i64,
            },
        );
        assert(out@ =~= transaction_rows(transactions@).take(i + 1));
        i += 1;
    }
    assert(out@ =~= transaction_rows(transactions@));
    out
}

/// The sum of the command counts of `rows`.
pub open spec fn sum_transaction_counts(rows: Seq<TransactionRow>) -> int
    decreases rows.len(),
{
    if rows.len() == 0 {
        0
    } else {
        sum_transaction_counts(rows.drop_last()) + rows.last().transaction_count
    }
}

/// The number of commands that `rows` run together, as the signed column
/// that holds it.
pub open spec fn total_transactions(rows: Seq<TransactionRow>) -> i64 {
    sum_transaction_counts(rows) as i64
}

/// Adds up the command counts of `rows`.
pub fn count_total_transactions(rows: &Vec<TransactionRow>) -> (r: i64)
    ensures
        r == total_transactions(rows@),
        0 <= sum_transaction_counts(rows@) <= i64::MAX ==> r == sum_transaction_counts(rows@),
{
    let mut acc: i128 = 0;
    let mut i: usize = 0;
    while i < rows.len()
        invariant
            i <= rows.len(),
            acc == sum_transaction_counts(rows@.take(i as int)),
            -(i as int) * 0x8000_0000_0000_0000 <= acc <= (i as int) * 0x8000_0000_0000_0000,
        decreases rows.len() - i,
    {
        assert(rows@.take(i + 1).drop_last() =~= rows@.take(i as int));
        acc = acc + rows[i].transaction_count as i128;
        i += 1;
    }
    assert(rows@.take(rows.len() as int) =~= rows@);
    acc as i64
}

/// The record of the event `event`.
pub open spec fn event_row(event: Event) -> EventRowView {
    EventRowView {
        transaction_digest: event.tx_digest,
        event_sequence: event.event_seq as i64,
        sender: event.sender,
        package: event.package_id,
        module: event.transaction_module@,
        type_address: event.type_.address,
        type_module: event.type_.module@,
        type_struct: event.type_.name@,
        bcs: event.bcs@,
    }
}

/// The records of the events of one transaction, in order.
pub open spec fn transaction_event_rows(tx: TransactionRecord) -> Seq<EventRowView> {
    tx.events@.map_values(|e: Event| event_row(e))
}

/// The records of the events of `transactions`, transaction by transaction.
pub open spec fn event_rows(transactions: Seq<TransactionRecord>) -> Seq<EventRowView> {
    transactions.flat_map(|tx: TransactionRecord| transaction_event_rows(tx))
}

/// Builds the record of one event.
pub fn index_event(event: &Event) -> (r: EventRow)
    ensures
        r.deep_view() == event_row(*event),
{
    EventRow {
        transaction_digest: event.tx_digest,
        event_sequence: event.event_seq as i64,
        sender: event.sender,
        package: event.package_id,
        module: event.transaction_module.clone(),
        type_address: event.type_.address,
        type_module: event.type_.module.clone(),
        type_struct: event.type_.name.clone(),
        bcs: event.bcs.clone(),
    }
}

/// Builds the records of the events of every transaction.
pub fn index_events(transactions: &Vec<TransactionRecord>) -> (r: Vec<EventRow>)
    ensures
        r.deep_view() == event_rows(transactions@),
{
    let mut out: Vec<EventRow> = Vec::new();
    let mut i: usize = 0;
    assert(out.deep_view() =~= event_rows(transactions@.take(0)));
    while i < transactions.len()
        invariant
            i <= transactions.len(),
            out.deep_view() == event_rows(transactions@.take(i as int)),
        decreases transactions.len() - i,
    {
        let tx = &transactions[i];
        let ghost before = out.deep_view();
        let ghost rows = transaction_event_rows(*tx);
        let mut j: usize = 0;
        while j < tx.events.len()
            invariant
                j <= tx.events.len(),
                rows == transaction_event_rows(*tx),
                out.deep_view() == before + rows.take(j as int),
            decreases tx.events.len() - j,
        {
            push_record(&mut out, index_event(&tx.events[j]));
            assert(out.deep_view() =~= before + rows.take(j + 1));
            j += 1;
        }
        proof {
            assert(rows.take(j as int) =~= rows);
            transactions@.lemma_flat_map_take_append(
                |tx: TransactionRecord| transaction_event_rows(tx),
                i as int,
            );
        }
        i += 1;
    }
    assert(transactions@.take(transactions.len() as int) =~= transactions@);
    out
}

/// The record of the object `object`, which a transaction of checkpoint
/// `checkpoint` in epoch `epoch` left with `status`.
pub open spec fn object_row(
    epoch: EpochId,
    checkpoint: Option<CheckpointSequenceNumber>,
    status: ObjectStatus,
    object: ObjectData,
) -> ObjectRowView {
    ObjectRowView {
        epoch: epoch as i64,
        checkpoint: checkpoint_column(checkpoint),
        object_status: status,
        data: object.deep_view(),
    }
}

/// The record of a changed object if the transaction `digest` produced it.
pub open spec fn changed_row_of(
    entry: (ObjectStatus, ObjectData),
    digest: TransactionDigest,
    epoch: EpochId,
    checkpoint: Option<CheckpointSequenceNumber>,
) -> Option<ObjectRowView> {
    if entry.1.previous_transaction == Some(digest) {
        Some(object_row(epoch, checkpoint, entry.0, entry.1))
    } else {
        None
    }
}

/// The records of those objects of `changed` that the transaction `digest`
/// produced, in the order of `changed`. An object that names no transaction
/// belongs to none.
pub open spec fn changed_rows_of(
    changed: Seq<(ObjectStatus, ObjectData)>,
    digest: TransactionDigest,
    epoch: EpochId,
    checkpoint: Option<CheckpointSequenceNumber>,
) -> Seq<ObjectRowView> {
    changed.filter_map(
        |entry: (ObjectStatus, ObjectData)| changed_row_of(entry, digest, epoch, checkpoint),
    )
}

/// What the transaction `tx` did to objects: the records of the changed
/// objects that it produced, and of the objects that its effects remove.
pub open spec fn transaction_object_changes(
    tx: TransactionRecord,
    changed: Seq<(ObjectStatus, ObjectData)>,
    epoch: EpochId,
    checkpoint: CheckpointSequenceNumber,
) -> TransactionObjectChangesView {
    TransactionObjectChangesView {
        changed_objects: changed_rows_of(changed, tx.digest, epoch, Some(checkpoint)),
        deleted_objects: deleted_objects(&tx.effects, epoch, Some(checkpoint)),
    }
}

/// What each of `transactions` did to objects, in their order.
pub open spec fn objects_changes(
    transactions: Seq<TransactionRecord>,
    changed: Seq<(ObjectStatus, ObjectData)>,
    epoch: EpochId,
    checkpoint: CheckpointSequenceNumber,
) -> Seq<TransactionObjectChangesView> {
    transactions.map_values(
        |tx: TransactionRecord| transaction_object_changes(tx, changed, epoch, checkpoint),
    )
}

/// Builds the record of a changed object.
pub fn index_object(
    epoch: EpochId,
    checkpoint: Option<CheckpointSequenceNumber>,
    status: &ObjectStatus,
    object: &ObjectData,
) -> (r: ObjectRow)
    ensures
        r.deep_view() == object_row(epoch, checkpoint, *status, *object),
{
    ObjectRow {
        epoch: epoch as i64,
        checkpoint: to_checkpoint_column(checkpoint),
        object_status: *status,
        data: object.duplicate(),
    }
}

/// Whether the transaction `digest` produced `object`.
pub fn produced_by(object: &ObjectData, digest: &TransactionDigest) -> (r: bool)
    ensures
        r == (object.previous_transaction == Some(*digest)),
{
    match &object.previous_transaction {
        Some(d) => *d == *digest,
        None => false,
    }
}

/// Builds the records of those changed objects that one transaction produced.
pub fn index_changed_objects_of(
    changed: &Vec<(ObjectStatus, ObjectData)>,
    digest: &TransactionDigest,
    epoch: EpochId,
    checkpoint: Option<CheckpointSequenceNumber>,
) -> (r: Vec<ObjectRow>)
    ensures
        r.deep_view() == changed_rows_of(changed@, *digest, epoch, checkpoint),
{
    let mut out: Vec<ObjectRow> = Vec::new();
    let mut i: usize = 0;
    assert(out.deep_view() =~= changed_rows_of(changed@.take(0), *digest, epoch, checkpoint));
    while i < changed.len()
        invariant
            i <= changed.len(),
            out.deep_view() == changed_rows_of(changed@.take(i as int), *digest, epoch, checkpoint),
        decreases changed.len() - i,
    {
        proof {
            changed@.lemma_filter_map_take_succ(
                |entry: (ObjectStatus, ObjectData)|
                    changed_row_of(entry, *digest, epoch, checkpoint),
                i as int,
            );
        }
        let entry = &changed[i];
        if produced_by(&entry.1, digest) {
            push_record(&mut out, index_object(epoch, checkpoint, &entry.0, &entry.1));
        }
        i += 1;
    }
    assert(changed@.take(changed.len() as int) =~= changed@);
    out
}

/// Builds, for each transaction, the records of what it did to objects.
pub fn index_objects(
    transactions: &Vec<TransactionRecord>,
    changed: &Vec<(ObjectStatus, ObjectData)>,
    epoch: EpochId,
    checkpoint: CheckpointSequenceNumber,
) -> (r: Vec<TransactionObjectChanges>)
    ensures
        r.deep_view() == objects_changes(transactions@, changed@, epoch, checkpoint),
{
    let mut out: Vec<TransactionObjectChanges> = Vec::new();
    let ghost all = objects_changes(transactions@, changed@, epoch, checkpoint);
    let mut i: usize = 0;
    assert(out.deep_view() =~= all.take(0));
    while i < transactions.len()
        invariant
            i <= transactions.len(),
            all == objects_changes(transactions@, changed@, epoch, checkpoint),
            out.deep_view() == all.take(i as int),
        decreases transactions.len() - i,
    {
        let tx = &transactions[i];
        let changed_objects = index_changed_objects_of(changed, &tx.digest, epoch, Some(checkpoint));
        let deleted_objects = get_deleted_db_objects(&tx.effects, epoch, Some(checkpoint));
        push_record(&mut out, TransactionObjectChanges { changed_objects, deleted_objects });
        assert(out.deep_view() =~= all.take(i + 1));
        i += 1;
    }
    assert(all.take(transactions.len() as int) =~= all);
    out
}

/// Whether `object` is the package with the id `id`.
pub open spec fn is_package_with_id(object: ObjectData, id: ObjectId) -> bool {
    object.content is Package && object.object_id == id
}

/// The place in `changed` of the package with the id `id`: the last one,
/// where several changed objects are packages with that id.
pub open spec fn package_index(changed: Seq<(ObjectStatus, ObjectData)>, id: ObjectId) -> Option<
    int,
>
    decreases changed.len(),
{
    if changed.len() == 0 {
        None
    } else if is_package_with_id(changed.last().1, id) {
        Some(changed.len() - 1)
    } else {
        package_index(changed.drop_last(), id)
    }
}

/// [`package_index`] gives the greatest place at which `changed` holds the
/// package with the id `id`, and nothing where it holds none.
pub proof fn lemma_package_index(changed: Seq<(ObjectStatus, ObjectData)>, id: ObjectId)
    ensures
        match package_index(changed, id) {
            Some(i) => 0 <= i < changed.len() && is_package_with_id(changed[i].1, id)
                && forall|j: int| i < j < changed.len() ==> !is_package_with_id(
                (#[trigger] changed[j]).1,
                id,
            ),
            None => forall|j: int|
                0 <= j < changed.len() ==> !is_package_with_id((#[trigger] changed[j]).1, id),
        },
    decreases changed.len(),
{
    if changed.len() > 0 && !is_package_with_id(changed.last().1, id) {
        let rest = changed.drop_last();
        lemma_package_index(rest, id);
        assert forall|j: int| 0 <= j < rest.len() implies rest[j] == #[trigger] changed[j] by {}
    }
}

/// The record of the package `package`, which `sender` published.
pub open spec fn package_row(sender: Address, package: PackageData) -> PackageView {
    PackageView {
        package_id: package.id,
        version: package.version as i64,
        author: sender,
        modules: package.modules.deep_view(),
    }
}

/// The record of the package that `sender` created as `created`, if the
/// object created is a package among `changed`.
pub open spec fn created_package_row(
    changed: Seq<(ObjectStatus, ObjectData)>,
    sender: Address,
    created: OwnedObjectRef,
) -> Option<PackageView> {
    match package_index(changed, created.reference.object_id) {
        Some(i) => match changed[i].1.content {
            RawData::Package(package) => Some(package_row(sender, package)),
            _ => None,
        },
        None => None,
    }
}

/// The records of the packages that the transaction `tx` created.
pub open spec fn transaction_package_rows(
    tx: TransactionRecord,
    changed: Seq<(ObjectStatus, ObjectData)>,
) -> Seq<PackageView> {
    tx.effects.created@.filter_map(
        |created: OwnedObjectRef| created_package_row(changed, tx.sender, created),
    )
}

/// The records of the packages that `transactions` created: for each
/// transaction, for each object that it created, one record if that object
/// is a package among `changed`, and none if it is not.
pub open spec fn package_rows(
    transactions: Seq<TransactionRecord>,
    changed: Seq<(ObjectStatus, ObjectData)>,
) -> Seq<PackageView> {
    transactions.flat_map(|tx: TransactionRecord| transaction_package_rows(tx, changed))
}

/// Finds the package with the id `id` among `changed`.
pub fn find_package(changed: &Vec<(ObjectStatus, ObjectData)>, id: &ObjectId) -> (r: Option<usize>)
    ensures
        match r {
            Some(i) => package_index(changed@, *id) == Some(i as int) && i < changed.len(),
            None => package_index(changed@, *id) is None,
        },
{
    let mut i: usize = changed.len();
    assert(changed@.take(i as int) =~= changed@);
    while i > 0
        invariant
            i <= changed.len(),
            package_index(changed@, *id) == package_index(changed@.take(i as int), *id),
        decreases i,
    {
        let object = &changed[i - 1].1;
        assert(changed@.take(i as int).last() == changed@[i - 1]);
        if object.content.is_package() && object.object_id == *id {
            return Some(i - 1);
        }
        assert(changed@.take(i as int).drop_last() =~= changed@.take(i - 1));
        i -= 1;
    }
    None
}

impl Package {
    /// Builds the record of the package `package`, which `sender` published.
    pub fn from(sender: Address, package: &PackageData) -> (r: Package)
        ensures
            r.deep_view() == package_row(sender, *package),
    {
        Package {
            package_id: package.id,
            version: package.version as i64,
            author: sender,
            modules: duplicate_modules(&package.modules),
        }
    }
}

/// Builds the records of the packages that `transactions` created.
pub fn index_packages(
    transactions: &Vec<TransactionRecord>,
    changed: &Vec<(ObjectStatus, ObjectData)>,
) -> (r: Vec<Package>)
    ensures
        r.deep_view() == package_rows(transactions@, changed@),
{
    let mut out: Vec<Package> = Vec::new();
    let mut i: usize = 0;
    assert(out.deep_view() =~= package_rows(transactions@.take(0), changed@));
    while i < transactions.len()
        invariant
            i <= transactions.len(),
            out.deep_view() == package_rows(transactions@.take(i as int), changed@),
        decreases transactions.len() - i,
    {
        let tx = &transactions[i];
        let created = &tx.effects.created;
        let ghost before = out.deep_view();
        let ghost f = |created: OwnedObjectRef| created_package_row(changed@, tx.sender, created);
        let mut j: usize = 0;
        assert(created@.take(0).filter_map(f) =~= Seq::<PackageView>::empty());
        while j < created.len()
            invariant
                j <= created.len(),
                created == &tx.effects.created,
                f == |created: OwnedObjectRef| created_package_row(changed@, tx.sender, created),
                out.deep_view() == before + created@.take(j as int).filter_map(f),
            decreases created.len() - j,
        {
            proof {
                created@.lemma_filter_map_take_succ(f, j as int);
            }
            match find_package(changed, &created[j].reference.object_id) {
                Some(k) => {
                    match &changed[k].1.content {
                        RawData::Package(package) => {
                            push_record(&mut out, Package::from(tx.sender, package));
                        },
                        _ => {},
                    }
                },
                None => {},
            }
            assert(out.deep_view() =~= before + created@.take(j + 1).filter_map(f));
            j += 1;
        }
        proof {
            assert(created@.take(j as int) =~= created@);
            transactions@.lemma_flat_map_take_append(
                |tx: TransactionRecord| transaction_package_rows(tx, changed@),
                i as int,
            );
        }
        i += 1;
    }
    assert(transactions@.take(transactions.len() as int) =~= transactions@);
    out
}

/// The id of the object that `kind` names.
pub open spec fn input_object_id(kind: InputObjectKind) -> ObjectId {
    match kind {
        InputObjectKind::MovePackage(id) => id,
        InputObjectKind::ImmOrOwnedMoveObject(reference) => reference.object_id,
        InputObjectKind::SharedMoveObject { id, .. } => id,
    }
}

/// The version at which `kind` names its object: that of an owned or
/// immutable object, the version at which a shared object became shared, and
/// none for a package.
pub open spec fn input_object_version(kind: InputObjectKind) -> Option<i64> {
    match kind {
        InputObjectKind::MovePackage(_) => None,
        InputObjectKind::ImmOrOwnedMoveObject(reference) => Some(reference.version as i64),
        InputObjectKind::SharedMoveObject { initial_shared_version, .. } => Some(
            initial_shared_version as i64,
        ),
    }
}

/// The record of the input `kind` of the transaction `digest`.
pub open spec fn input_object_row(
    digest: TransactionDigest,
    epoch: EpochId,
    checkpoint: CheckpointSequenceNumber,
    kind: InputObjectKind,
) -> InputObject {
    InputObject {
        transaction_digest: digest,
        checkpoint_sequence_number: checkpoint as i64,
        epoch: epoch as i64,
        object_id: input_object_id(kind),
        object_version: input_object_version(kind),
    }
}

/// The records of the inputs of the transaction `tx`, in order.
pub open spec fn transaction_input_objects(
    tx: TransactionRecord,
    epoch: EpochId,
    checkpoint: CheckpointSequenceNumber,
) -> Seq<InputObject> {
    tx.input_objects@.map_values(
        |kind: InputObjectKind| input_object_row(tx.digest, epoch, checkpoint, kind),
    )
}

/// The records of the inputs of `transactions`, transaction by transaction.
pub open spec fn input_object_rows(
    transactions: Seq<TransactionRecord>,
    epoch: EpochId,
    checkpoint: CheckpointSequenceNumber,
) -> Seq<InputObject> {
    transactions.flat_map(|tx: TransactionRecord| transaction_input_objects(tx, epoch, checkpoint))
}

impl TransactionRecord {
    /// Builds the records of the objects that this transaction takes as input.
    pub fn get_input_objects(&self, epoch: EpochId, checkpoint: CheckpointSequenceNumber) -> (r:
        Vec<InputObject>)
        ensures
            r@ == transaction_input_objects(*self, epoch, checkpoint),
    {
        let mut out: Vec<InputObject> = Vec::new();
        let ghost all = transaction_input_objects(*self, epoch, checkpoint);
        let mut i: usize = 0;
        while i < self.input_objects.len()
            invariant
                i <= self.input_objects.len(),
                all == transaction_input_objects(*self, epoch, checkpoint),
                out@ == all.take(i as int),
            decreases self.input_objects.len() - i,
        {
            let (object_id, object_version) = match &self.input_objects[i] {
                InputObjectKind::MovePackage(id) => (*id, None),
                InputObjectKind::ImmOrOwnedMoveObject(reference) => (
                    reference.object_id,
                    Some(reference.version as i64),
                ),
                InputObjectKind::SharedMoveObject { id, initial_shared_version, .. } => (
                    *id,
                    Some(*initial_shared_version as i64),
                ),
            };
            out.push(
                InputObject {
                    transaction_digest: self.digest,
                    checkpoint_sequence_number: checkpoint as i64,
                    epoch: epoch as i64,
                    object_id,
                    object_version,
                },
            );
            assert(out@ =~= all.take(i + 1));
            i += 1;
        }
        assert(all.take(self.input_objects.len() as int) =~= all);
        out
    }
}

/// Builds the records of the inputs of every transaction.
pub fn index_input_objects(
    transactions: &Vec<TransactionRecord>,
    epoch: EpochId,
    checkpoint: CheckpointSequenceNumber,
) -> (r: Vec<InputObject>)
    ensures
        r@ == input_object_rows(transactions@, epoch, checkpoint),
{
    let mut out: Vec<InputObject> = Vec::new();
    let mut i: usize = 0;
    assert(out@ =~= input_object_rows(transactions@.take(0), epoch, checkpoint));
    while i < transactions.len()
        invariant
            i <= transactions.len(),
            out@ == input_object_rows(transactions@.take(i as int), epoch, checkpoint),
        decreases transactions.len() - i,
    {
        let mut rows = transactions[i].get_input_objects(epoch, checkpoint);
        out.append(&mut rows);
        proof {
            transactions@.lemma_flat_map_take_append(
                |tx: TransactionRecord| transaction_input_objects(tx, epoch, checkpoint),
                i as int,
            );
        }
        i += 1;
    }
    assert(transactions@.take(transactions.len() as int) =~= transactions@);
    out
}

/// The record of the call `call` that the transaction `tx` makes.
pub open spec fn move_call_row(
    tx: TransactionRecord,
    epoch: EpochId,
    checkpoint: CheckpointSequenceNumber,
    call: MoveCallTarget,
) -> MoveCallView {
    MoveCallView {
        transaction_digest: tx.digest,
        checkpoint_sequence_number: checkpoint as i64,
        epoch: epoch as i64,
        sender: tx.sender,
        move_package: call.package,
        move_module: call.module@,
        move_function: call.function@,
    }
}

/// The records of the calls that the transaction `tx` makes, in order.
pub open spec fn transaction_move_calls(
    tx: TransactionRecord,
    epoch: EpochId,
    checkpoint: CheckpointSequenceNumber,
) -> Seq<MoveCallView> {
    tx.move_calls@.map_values(|call: MoveCallTarget| move_call_row(tx, epoch, checkpoint, call))
}

/// The records of the calls that `transactions` make, transaction by
/// transaction.
pub open spec fn move_call_rows(
    transactions: Seq<TransactionRecord>,
    epoch: EpochId,
    checkpoint: CheckpointSequenceNumber,
) -> Seq<MoveCallView> {
    transactions.flat_map(|tx: TransactionRecord| transaction_move_calls(tx, epoch, checkpoint))
}

impl TransactionRecord {
    /// Builds the records of the functions that this transaction calls.
    pub fn get_move_calls(&self, epoch: EpochId, checkpoint: CheckpointSequenceNumber) -> (r: Vec<
        MoveCall,
    >)
        ensures
            r.deep_view() == transaction_move_calls(*self, epoch, checkpoint),
    {
        let mut out: Vec<MoveCall> = Vec::new();
        let ghost all = transaction_move_calls(*self, epoch, checkpoint);
        let mut i: usize = 0;
        assert(out.deep_view() =~= all.take(0));
        while i < self.move_calls.len()
            invariant
                i <= self.move_calls.len(),
                all == transaction_move_calls(*self, epoch, checkpoint),
                out.deep_view() == all.take(i as int),
            decreases self.move_calls.len() - i,
        {
            let call = &self.move_calls[i];
            push_record(
                &mut out,
                MoveCall {
                    transaction_digest: self.digest,
                    checkpoint_sequence_number: checkpoint as i64,
                    epoch: epoch as i64,
                    sender: self.sender,
                    move_package: call.package,
                    move_module: call.module.clone(),
                    move_function: call.function.clone(),
                },
            );
            assert(out.deep_view() =~= all.take(i + 1));
            i += 1;
        }
        assert(all.take(self.move_calls.len() as int) =~= all);
        out
    }
}

/// Builds the records of the calls that every transaction makes.
pub fn index_move_calls(
    transactions: &Vec<TransactionRecord>,
    epoch: EpochId,
    checkpoint: CheckpointSequenceNumber,
) -> (r: Vec<MoveCall>)
    ensures
        r.deep_view() == move_call_rows(transactions@, epoch, checkpoint),
{
    let mut out: Vec<MoveCall> = Vec::new();
    let mut i: usize = 0;
    assert(out.deep_view() =~= move_call_rows(transactions@.take(0), epoch, checkpoint));
    while i < transactions.len()
        invariant
            i <= transactions.len(),
            out.deep_view() == move_call_rows(transactions@.take(i as int), epoch, checkpoint),
        decreases transactions.len() - i,
    {
        let mut rows = transactions[i].get_move_calls(epoch, checkpoint);
        append_records(&mut out, &mut rows);
        proof {
            transactions@.lemma_flat_map_take_append(
                |tx: TransactionRecord| transaction_move_calls(tx, epoch, checkpoint),
                i as int,
            );
        }
        i += 1;
    }
    assert(transactions@.take(transactions.len() as int) =~= transactions@);
    out
}

/// The record of the address that owns `received` after the transaction
/// `tx`, if an address owns it.
pub open spec fn recipient_of(
    tx: TransactionRecord,
    epoch: EpochId,
    checkpoint: CheckpointSequenceNumber,
    received: OwnedObjectRef,
) -> Option<Recipient> {
    match received.owner {
        Owner::AddressOwner(recipient) => Some(
            Recipient {
                transaction_digest: tx.digest,
                checkpoint_sequence_number: checkpoint as i64,
                epoch: epoch as i64,
                sender: tx.sender,
                recipient,
            },
        ),
        _ => None,
    }
}

/// The records of the addresses that own the objects `refs` after the
/// transaction `tx`, in the order of `refs`.
pub open spec fn recipients_among(
    tx: TransactionRecord,
    epoch: EpochId,
    checkpoint: CheckpointSequenceNumber,
    refs: Seq<OwnedObjectRef>,
) -> Seq<Recipient> {
    refs.filter_map(|received: OwnedObjectRef| recipient_of(tx, epoch, checkpoint, received))
}

/// The records of the addresses that received an object from the transaction
/// `tx`: the owners of the objects that it created, then of those that it
/// mutated, then of those that it unwrapped. An address is listed once for
/// each object that it owns.
pub open spec fn transaction_recipients(
    tx: TransactionRecord,
    epoch: EpochId,
    checkpoint: CheckpointSequenceNumber,
) -> Seq<Recipient> {
    recipients_among(tx, epoch, checkpoint, tx.effects.created@) + recipients_among(
        tx,
        epoch,
        checkpoint,
        tx.effects.mutated@,
    ) + recipients_among(tx, epoch, checkpoint, tx.effects.unwrapped@)
}

/// The records of the recipients of `transactions`, transaction by
/// transaction.
pub open spec fn recipient_rows(
    transactions: Seq<TransactionRecord>,
    epoch: EpochId,
    checkpoint: CheckpointSequenceNumber,
) -> Seq<Recipient> {
    transactions.flat_map(|tx: TransactionRecord| transaction_recipients(tx, epoch, checkpoint))
}

fn push_recipients_among(
    out: &mut Vec<Recipient>,
    tx: &TransactionRecord,
    epoch: EpochId,
    checkpoint: CheckpointSequenceNumber,
    refs: &Vec<OwnedObjectRef>,
)
    ensures
        final(out)@ == old(out)@ + recipients_among(*tx, epoch, checkpoint, refs@),
{
    let ghost before = out@;
    let ghost f = |received: OwnedObjectRef| recipient_of(*tx, epoch, checkpoint, received);
    let mut i: usize = 0;
    assert(out@ =~= before + refs@.take(0).filter_map(f));
    while i < refs.len()
        invariant
            i <= refs.len(),
            f == |received: OwnedObjectRef| recipient_of(*tx, epoch, checkpoint, received),
            out@ == before + refs@.take(i as int).filter_map(f),
        decreases refs.len() - i,
    {
        proof {
            refs@.lemma_filter_map_take_succ(f, i as int);
        }
        match refs[i].owner {
            Owner::AddressOwner(recipient) => {
                out.push(
                    Recipient {
                        transaction_digest: tx.digest,
                        checkpoint_sequence_number: checkpoint as i64,
                        epoch: epoch as i64,
                        sender: tx.sender,
                        recipient,
                    },
                );
            },
            _ => {},
        }
        assert(out@ =~= before + refs@.take(i + 1).filter_map(f));
        i += 1;
    }
    assert(refs@.take(refs.len() as int) =~= refs@);
}

impl TransactionRecord {
    /// Builds the records of the addresses that received an object from this
    /// transaction.
    pub fn get_recipients(&self, epoch: EpochId, checkpoint: CheckpointSequenceNumber) -> (r: Vec<
        Recipient,
    >)
        ensures
            r@ == transaction_recipients(*self, epoch, checkpoint),
    {
        let mut out: Vec<Recipient> = Vec::new();
        push_recipients_among(&mut out, self, epoch, checkpoint, &self.effects.created);
        push_recipients_among(&mut out, self, epoch, checkpoint, &self.effects.mutated);
        push_recipients_among(&mut out, self, epoch, checkpoint, &self.effects.unwrapped);
        assert(out@ =~= transaction_recipients(*self, epoch, checkpoint));
        out
    }
}

/// Builds the records of the recipients of every transaction.
pub fn index_recipients(
    transactions: &Vec<TransactionRecord>,
    epoch: EpochId,
    checkpoint: CheckpointSequenceNumber,
) -> (r: Vec<Recipient>)
    ensures
        r@ == recipient_rows(transactions@, epoch, checkpoint),
{
    let mut out: Vec<Recipient> = Vec::new();
    let mut i: usize = 0;
    assert(out@ =~= recipient_rows(transactions@.take(0), epoch, checkpoint));
    while i < transactions.len()
        invariant
            i <= transactions.len(),
            out@ == recipient_rows(transactions@.take(i as int), epoch, checkpoint),
        decreases transactions.len() - i,
    {
        let mut rows = transactions[i].get_recipients(epoch, checkpoint);
        out.append(&mut rows);
        proof {
            transactions@.lemma_flat_map_take_append(
                |tx: TransactionRecord| transaction_recipients(tx, epoch, checkpoint),
                i as int,
            );
        }
        i += 1;
    }
    assert(transactions@.take(transactions.len() as int) =~= transactions@);
    out
}

/// The record of `address` as it appears in the transaction `tx`.
pub open spec fn address_row(tx: TransactionRecord, address: Address) -> AddressRow {
    AddressRow {
        account_address: address,
        first_appearance_tx: tx.digest,
        first_appearance_time: tx.timestamp_ms as i64,
    }
}

/// The records of the addresses that took part in the transaction `tx`: its
/// recipients in their order, then its sender.
pub open spec fn transaction_addresses(
    tx: TransactionRecord,
    epoch: EpochId,
    checkpoint: CheckpointSequenceNumber,
) -> Seq<AddressRow> {
    transaction_recipients(tx, epoch, checkpoint).map_values(
        |r: Recipient| address_row(tx, r.recipient),
    ).push(address_row(tx, tx.sender))
}

/// The records of the addresses that took part in `transactions`,
/// transaction by transaction.
pub open spec fn address_rows(
    transactions: Seq<TransactionRecord>,
    epoch: EpochId,
    checkpoint: CheckpointSequenceNumber,
) -> Seq<AddressRow> {
    transactions.flat_map(|tx: TransactionRecord| transaction_addresses(tx, epoch, checkpoint))
}

impl TransactionRecord {
    /// Builds the records of the addresses that took part in this
    /// transaction.
    pub fn get_addresses(&self, epoch: EpochId, checkpoint: CheckpointSequenceNumber) -> (r: Vec<
        AddressRow,
    >)
        ensures
            r@ == transaction_addresses(*self, epoch, checkpoint),
    {
        let recipients = self.get_recipients(epoch, checkpoint);
        let ghost mapped = recipients@.map_values(|r: Recipient| address_row(*self, r.recipient));
        let mut out: Vec<AddressRow> = Vec::new();
        let mut i: usize = 0;
        while i < recipients.len()
            invariant
                i <= recipients.len(),
                mapped == recipients@.map_values(|r: Recipient| address_row(*self, r.recipient)),
                out@ == mapped.take(i as int),
            decreases recipients.len() - i,
        {
            out.push(
                AddressRow {
                    account_address: recipients[i].recipient,
                    first_appearance_tx: self.digest,
                    first_appearance_time: self.timestamp_ms as i64,
                },
            );
            assert(out@ =~= mapped.take(i + 1));
            i += 1;
        }
        assert(mapped.take(recipients.len() as int) =~= mapped);
        out.push(
            AddressRow {
                account_address: self.sender,
                first_appearance_tx: self.digest,
                first_appearance_time: self.timestamp_ms as i64,
            },
        );
        out
    }
}

/// Builds the records of the addresses that took part in every transaction.
pub fn index_addresses(
    transactions: &Vec<TransactionRecord>,
    epoch: EpochId,
    checkpoint: CheckpointSequenceNumber,
) -> (r: Vec<AddressRow>)
    ensures
        r@ == address_rows(transactions@, epoch, checkpoint),
{
    let mut out: Vec<AddressRow> = Vec::new();
    let mut i: usize = 0;
    assert(out@ =~= address_rows(transactions@.take(0), epoch, checkpoint));
    while i < transactions.len()
        invariant
            i <= transactions.len(),
            out@ == address_rows(transactions@.take(i as int), epoch, checkpoint),
        decreases transactions.len() - i,
    {
        let mut rows = transactions[i].get_addresses(epoch, checkpoint);
        out.append(&mut rows);
        proof {
            transactions@.lemma_flat_map_take_append(
                |tx: TransactionRecord| transaction_addresses(tx, epoch, checkpoint),
                i as int,
            );
        }
        i += 1;
    }
    assert(transactions@.take(transactions.len() as int) =~= transactions@);
    out
}

/// The record of the checkpoint `envelope`, whose transactions run
/// `total_transactions` commands together.
pub open spec fn checkpoint_row(envelope: CheckpointEnvelope, total_transactions: i64)
    -> CheckpointRowView {
    CheckpointRowView {
        sequence_number: envelope.sequence_number as i64,
        epoch: envelope.epoch as i64,
        timestamp_ms: envelope.timestamp_ms as i64,
        transactions: envelope.transactions@,
        end_of_epoch: envelope.end_of_epoch_data is Some,
        total_transactions,
    }
}

impl CheckpointRow {
    /// Builds the record of the checkpoint `envelope`.
    pub fn from(envelope: &CheckpointEnvelope, total_transactions: i64) -> (r: CheckpointRow)
        ensures
            r.deep_view() == checkpoint_row(*envelope, total_transactions),
    {
        let mut transactions: Vec<TransactionDigest> = Vec::new();
        let mut i: usize = 0;
        while i < envelope.transactions.len()
            invariant
                i <= envelope.transactions.len(),
                transactions@ == envelope.transactions@.take(i as int),
            decreases envelope.transactions.len() - i,
        {
            transactions.push(envelope.transactions[i]);
            assert(transactions@ =~= envelope.transactions@.take(i + 1));
            i += 1;
        }
        assert(transactions@ =~= envelope.transactions@);
        CheckpointRow {
            sequence_number: envelope.sequence_number as i64,
            epoch: envelope.epoch as i64,
            timestamp_ms: envelope.timestamp_ms as i64,
            transactions,
            end_of_epoch: envelope.end_of_epoch_data.is_some(),
            total_transactions,
        }
    }
}

/// The normalized records of the checkpoint of `data`.
///
/// Every list follows the order of the transactions. The objects that a
/// transaction changed are those of `data.changed_objects` that name it as
/// the transaction that produced them; the epoch and the checkpoint number
/// of every record are those of the envelope.
pub open spec fn checkpoint_store(data: CheckpointData) -> TemporaryCheckpointStoreView {
    let epoch = data.checkpoint.epoch;
    let checkpoint = data.checkpoint.sequence_number;
    TemporaryCheckpointStoreView {
        checkpoint: checkpoint_row(
            data.checkpoint,
            total_transactions(transaction_rows(data.transactions@)),
        ),
        transactions: transaction_rows(data.transactions@),
        events: event_rows(data.transactions@),
        objects_changes: objects_changes(
            data.transactions@,
            data.changed_objects@,
            epoch,
            checkpoint,
        ),
        addresses: address_rows(data.transactions@, epoch, checkpoint),
        packages: package_rows(data.transactions@, data.changed_objects@),
        input_objects: input_object_rows(data.transactions@, epoch, checkpoint),
        move_calls: move_call_rows(data.transactions@, epoch, checkpoint),
        recipients: recipient_rows(data.transactions@, epoch, checkpoint),
    }
}

/// What indexing the checkpoint of `data` gives, where `system_state` is the
/// system state read from the checkpoint's objects, if it could be read: the
/// records of the checkpoint and, where the checkpoint starts the chain or
/// ends an epoch, the records of the epoch change. It fails exactly where the
/// records of the epoch change cannot be built.
pub open spec fn indexed_checkpoint(data: CheckpointData, system_state: Option<&SystemStateSummary>)
    -> Result<(TemporaryCheckpointStoreView, Option<TemporaryEpochStoreView>), IndexerError> {
    match epoch_store(data, system_state) {
        Ok(epoch) => Ok((checkpoint_store(data), epoch)),
        Err(e) => Err(e),
    }
}

/// Builds the normalized records of the checkpoint of `data`.
pub fn index_checkpoint_store(data: &CheckpointData) -> (r: TemporaryCheckpointStore)
    ensures
        r.deep_view() == checkpoint_store(*data),
{
    let epoch = data.checkpoint.epoch;
    let checkpoint = data.checkpoint.sequence_number;
    let transactions = index_transactions(&data.transactions);
    let events = index_events(&data.transactions);
    let objects_changes = index_objects(&data.transactions, &data.changed_objects, epoch, checkpoint);
    let packages = index_packages(&data.transactions, &data.changed_objects);
    let input_objects = index_input_objects(&data.transactions, epoch, checkpoint);
    let move_calls = index_move_calls(&data.transactions, epoch, checkpoint);
    let recipients = index_recipients(&data.transactions, epoch, checkpoint);
    let addresses = index_addresses(&data.transactions, epoch, checkpoint);
    let total = count_total_transactions(&transactions);
    TemporaryCheckpointStore {
        checkpoint: CheckpointRow::from(&data.checkpoint, total),
        transactions,
        events,
        objects_changes,
        addresses,
        packages,
        input_objects,
        move_calls,
        recipients,
    }
}

/// Indexes the checkpoint of `data`: builds its normalized records and,
/// where it starts the chain or ends an epoch, the records of the epoch
/// change.
///
/// `system_state` is the system state read from the checkpoint's objects, if
/// it could be read. Only a checkpoint that starts the chain or ends an epoch
/// needs it.
pub fn index_checkpoint(data: &CheckpointData, system_state: Option<&SystemStateSummary>) -> (r:
    Result<(TemporaryCheckpointStore, Option<TemporaryEpochStore>), IndexerError>)
    ensures
        match r {
            Ok((checkpoint, epoch)) => indexed_checkpoint(*data, system_state) == Ok::<
                (TemporaryCheckpointStoreView, Option<TemporaryEpochStoreView>),
                IndexerError,
            >((checkpoint.deep_view(), epoch.deep_view())),
            Err(e) => indexed_checkpoint(*data, system_state) == Err::<
                (TemporaryCheckpointStoreView, Option<TemporaryEpochStoreView>),
                IndexerError,
            >(e),
        },
        r matches Ok((_, Some(epoch))) ==> (epoch.last_epoch is None <==> data.checkpoint.epoch == 0
            && data.checkpoint.sequence_number == 0),
{
    let checkpoint = index_checkpoint_store(data);
    match index_epoch(data, system_state) {
        Ok(epoch) => Ok((checkpoint, epoch)),
        Err(e) => Err(e),
    }
}

} // verus!
