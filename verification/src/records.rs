//! The normalized records that indexing a checkpoint produces.

use vstd::prelude::*;
use crate::ids::{Address, ObjectDigest, ObjectId, TransactionDigest};
use crate::types::{
    CheckpointSequenceNumber, EpochId, Module, ModuleView, ObjectData, ObjectDataView, ObjectRef,
    ObjectStatus,
};

verus! {

/// Appends `item` to `out`; the model of `out` grows by the model of `item`.
pub fn push_record<T: DeepView>(out: &mut Vec<T>, item: T)
    ensures
        final(out)@ == old(out)@.push(item),
        final(out).deep_view() == old(out).deep_view().push(item.deep_view()),
{
    out.push(item);
    assert(out.deep_view() =~= old(out).deep_view().push(item.deep_view()));
}

/// Moves the records of `more` to the end of `out`; the model of `out` grows
/// by the model of `more`.
pub fn append_records<T: DeepView>(out: &mut Vec<T>, more: &mut Vec<T>)
    ensures
        final(out)@ == old(out)@ + old(more)@,
        final(out).deep_view() == old(out).deep_view() + old(more).deep_view(),
        final(more)@.len() == 0,
{
    out.append(more);
    assert(out.deep_view() =~= old(out).deep_view() + old(more).deep_view());
}

/// The record of an object that a transaction deleted or wrapped.
#[derive(Clone, Copy, Debug, PartialEq, Eq)]
pub struct DeletedObject {
    pub epoch: i64,
    pub checkpoint: Option<i64>,
    pub object_id: ObjectId,
    pub version: i64,
    pub object_digest: ObjectDigest,
    pub previous_transaction: TransactionDigest,
    pub object_status: ObjectStatus,
}

/// A checkpoint number as a signed column, where there is one.
pub open spec fn checkpoint_column(checkpoint: Option<CheckpointSequenceNumber>) -> Option<i64> {
    match checkpoint {
        Some(c) => Some(c as i64),
        None => None,
    }
}

/// A checkpoint number as a signed column, where there is one.
pub fn to_checkpoint_column(checkpoint: Option<CheckpointSequenceNumber>) -> (r: Option<i64>)
    ensures
        r == checkpoint_column(checkpoint),
{
    match checkpoint {
        Some(c) => Some(c as i64),
        None => None,
    }
}

impl DeletedObject {
    /// The record of the object `oref`, which the transaction `transaction`
    /// of checkpoint `checkpoint` in epoch `epoch` left with `status`.
    pub open spec fn spec_from(
        epoch: EpochId,
        checkpoint: Option<CheckpointSequenceNumber>,
        oref: ObjectRef,
        transaction: TransactionDigest,
        status: ObjectStatus,
    ) -> DeletedObject {
        DeletedObject {
            epoch: epoch as i64,
            checkpoint: checkpoint_column(checkpoint),
            object_id: oref.object_id,
            version: oref.version as i64,
            object_digest: oref.digest,
            previous_transaction: transaction,
            object_status: status,
        }
    }

    /// Builds the record of a deleted or wrapped object.
    pub fn from(
        epoch: EpochId,
        checkpoint: Option<CheckpointSequenceNumber>,
        oref: &ObjectRef,
        transaction: &TransactionDigest,
        status: &ObjectStatus,
    ) -> (r: DeletedObject)
        ensures
            r == DeletedObject::spec_from(epoch, checkpoint, *oref, *transaction, *status),
    {
        DeletedObject {
            epoch: epoch as i64,
            checkpoint: to_checkpoint_column(checkpoint),
            object_id: oref.object_id,
            version: oref.version as i64,
            object_digest: oref.digest,
            previous_transaction: *transaction,
            object_status: *status,
        }
    }
}

/// The record of a checkpoint.
#[derive(Clone, Debug, PartialEq, Eq)]
pub struct CheckpointRow {
    pub sequence_number: i64,
    pub epoch: i64,
    pub timestamp_ms: i64,
    pub transactions: Vec<TransactionDigest>,
    pub end_of_epoch: bool,
    /// The number of commands that the checkpoint's transactions run.
    pub total_transactions: i64,
}

/// The model of a [`CheckpointRow`].
pub ghost struct CheckpointRowView {
    pub sequence_number: i64,
    pub epoch: i64,
    pub timestamp_ms: i64,
    pub transactions: Seq<TransactionDigest>,
    pub end_of_epoch: bool,
    pub total_transactions: i64,
}

impl DeepView for CheckpointRow {
    type V = CheckpointRowView;

    open spec fn deep_view(&self) -> CheckpointRowView {
        CheckpointRowView {
            sequence_number: self.sequence_number,
            epoch: self.epoch,
            timestamp_ms: self.timestamp_ms,
            transactions: self.transactions@,
            end_of_epoch: self.end_of_epoch,
            total_transactions: self.total_transactions,
        }
    }
}

/// The record of a transaction.
#[derive(Clone, Copy, Debug, PartialEq, Eq)]
pub struct TransactionRow {
    pub transaction_digest: TransactionDigest,
    pub sender: Address,
    pub checkpoint_sequence_number: i64,
    pub transaction_time: i64,
    pub transaction_count: i64,
}

/// The record of an event.
#[derive(Clone, Debug, PartialEq, Eq)]
pub struct EventRow {
    pub transaction_digest: TransactionDigest,
    pub event_sequence: i64,
    pub sender: Address,
    pub package: ObjectId,
    pub module: String,
    pub type_address: Address,
    pub type_module: String,
    pub type_struct: String,
    pub bcs: Vec<u8>,
}

/// The model of an [`EventRow`].
pub ghost struct EventRowView {
    pub transaction_digest: TransactionDigest,
    pub event_sequence: i64,
    pub sender: Address,
    pub package: ObjectId,
    pub module: Seq<char>,
    pub type_address: Address,
    pub type_module: Seq<char>,
    pub type_struct: Seq<char>,
    pub bcs: Seq<u8>,
}

impl DeepView for EventRow {
    type V = EventRowView;

    open spec fn deep_view(&self) -> EventRowView {
        EventRowView {
            transaction_digest: self.transaction_digest,
            event_sequence: self.event_sequence,
            sender: self.sender,
            package: self.package,
            module: self.module@,
            type_address: self.type_address,
            type_module: self.type_module@,
            type_struct: self.type_struct@,
            bcs: self.bcs@,
        }
    }
}

/// The record of an object that exists after a transaction changed it.
#[derive(Clone, Debug, PartialEq, Eq)]
pub struct ObjectRow {
    pub epoch: i64,
    pub checkpoint: Option<i64>,
    pub object_status: ObjectStatus,
    pub data: ObjectData,
}

/// The model of an [`ObjectRow`].
pub ghost struct ObjectRowView {
    pub epoch: i64,
    pub checkpoint: Option<i64>,
    pub object_status: ObjectStatus,
    pub data: ObjectDataView,
}

impl DeepView for ObjectRow {
    type V = ObjectRowView;

    open spec fn deep_view(&self) -> ObjectRowView {
        ObjectRowView {
            epoch: self.epoch,
            checkpoint: self.checkpoint,
            object_status: self.object_status,
            data: self.data.deep_view(),
        }
    }
}

/// What one transaction did to objects: those that exist afterwards, and
/// those that do not.
#[derive(Clone, Debug, PartialEq, Eq)]
pub struct TransactionObjectChanges {
    pub changed_objects: Vec<ObjectRow>,
    pub deleted_objects: Vec<DeletedObject>,
}

/// The model of a [`TransactionObjectChanges`].
pub ghost struct TransactionObjectChangesView {
    pub changed_objects: Seq<ObjectRowView>,
    pub deleted_objects: Seq<DeletedObject>,
}

impl DeepView for TransactionObjectChanges {
    type V = TransactionObjectChangesView;

    open spec fn deep_view(&self) -> TransactionObjectChangesView {
        TransactionObjectChangesView {
            changed_objects: self.changed_objects.deep_view(),
            deleted_objects: self.deleted_objects@,
        }
    }
}

/// The record of a published package.
#[derive(Clone, Debug, PartialEq, Eq)]
pub struct Package {
    pub package_id: ObjectId,
    pub version: i64,
    pub author: Address,
    pub modules: Vec<Module>,
}

/// The model of a [`Package`].
pub ghost struct PackageView {
    pub package_id: ObjectId,
    pub version: i64,
    pub author: Address,
    pub modules: Seq<ModuleView>,
}

impl DeepView for Package {
    type V = PackageView;

    open spec fn deep_view(&self) -> PackageView {
        PackageView {
            package_id: self.package_id,
            version: self.version,
            author: self.author,
            modules: self.modules.deep_view(),
        }
    }
}

/// The record of an object that a transaction took as input.
#[derive(Clone, Copy, Debug, PartialEq, Eq)]
pub struct InputObject {
    pub transaction_digest: TransactionDigest,
    pub checkpoint_sequence_number: i64,
    pub epoch: i64,
    pub object_id: ObjectId,
    pub object_version: Option<i64>,
}

/// The record of a function that a transaction called.
#[derive(Clone, Debug, PartialEq, Eq)]
pub struct MoveCall {
    pub transaction_digest: TransactionDigest,
    pub checkpoint_sequence_number: i64,
    pub epoch: i64,
    pub sender: Address,
    pub move_package: ObjectId,
    pub move_module: String,
    pub move_function: String,
}

/// The model of a [`MoveCall`].
pub ghost struct MoveCallView {
    pub transaction_digest: TransactionDigest,
    pub checkpoint_sequence_number: i64,
    pub epoch: i64,
    pub sender: Address,
    pub move_package: ObjectId,
    pub move_module: Seq<char>,
    pub move_function: Seq<char>,
}

impl DeepView for MoveCall {
    type V = MoveCallView;

    open spec fn deep_view(&self) -> MoveCallView {
        MoveCallView {
            transaction_digest: self.transaction_digest,
            checkpoint_sequence_number: self.checkpoint_sequence_number,
            epoch: self.epoch,
            sender: self.sender,
            move_package: self.move_package,
            move_module: self.move_module@,
            move_function: self.move_function@,
        }
    }
}

/// The record of an address that received an object from a transaction.
#[derive(Clone, Copy, Debug, PartialEq, Eq)]
pub struct Recipient {
    pub transaction_digest: TransactionDigest,
    pub checkpoint_sequence_number: i64,
    pub epoch: i64,
    pub sender: Address,
    pub recipient: Address,
}

/// The record of an address that took part in a transaction.
#[derive(Clone, Copy, Debug, PartialEq, Eq)]
pub struct AddressRow {
    pub account_address: Address,
    pub first_appearance_tx: TransactionDigest,
    pub first_appearance_time: i64,
}

/// The normalized records of one checkpoint.
#[derive(Clone, Debug, PartialEq, Eq)]
pub struct TemporaryCheckpointStore {
    pub checkpoint: CheckpointRow,
    pub transactions: Vec<TransactionRow>,
    pub events: Vec<EventRow>,
    /// One entry for each transaction, in the order of the transactions.
    pub objects_changes: Vec<TransactionObjectChanges>,
    pub addresses: Vec<AddressRow>,
    pub packages: Vec<Package>,
    pub input_objects: Vec<InputObject>,
    pub move_calls: Vec<MoveCall>,
    pub recipients: Vec<Recipient>,
}

/// The model of a [`TemporaryCheckpointStore`].
pub ghost struct TemporaryCheckpointStoreView {
    pub checkpoint: CheckpointRowView,
    pub transactions: Seq<TransactionRow>,
    pub events: Seq<EventRowView>,
    pub objects_changes: Seq<TransactionObjectChangesView>,
    pub addresses: Seq<AddressRow>,
    pub packages: Seq<PackageView>,
    pub input_objects: Seq<InputObject>,
    pub move_calls: Seq<MoveCallView>,
    pub recipients: Seq<Recipient>,
}

impl DeepView for TemporaryCheckpointStore {
    type V = TemporaryCheckpointStoreView;

    open spec fn deep_view(&self) -> TemporaryCheckpointStoreView {
        TemporaryCheckpointStoreView {
            checkpoint: self.checkpoint.deep_view(),
            transactions: self.transactions@,
            events: self.events.deep_view(),
            objects_changes: self.objects_changes.deep_view(),
            addresses: self.addresses@,
            packages: self.packages.deep_view(),
            input_objects: self.input_objects@,
            move_calls: self.move_calls.deep_view(),
            recipients: self.recipients@,
        }
    }
}

/// The figures that the system publishes in the event that closes an epoch.
#[derive(Clone, Copy, Debug, PartialEq, Eq)]
pub struct SystemEpochInfoEvent {
    pub epoch: i64,
    pub protocol_version: i64,
    pub reference_gas_price: i64,
    pub total_stake: i64,
    pub storage_fund_reinvestment: i64,
    pub storage_charge: i64,
    pub storage_rebate: i64,
    pub storage_fund_balance: i64,
    pub stake_subsidy_amount: i64,
    pub total_gas_fees: i64,
    pub total_stake_rewards_distributed: i64,
    pub leftover_storage_fund_inflow: i64,
}

/// The record of an epoch.
#[derive(Clone, Debug, PartialEq, Eq)]
pub struct DBEpochInfo {
    pub epoch: i64,
    pub first_checkpoint_id: i64,
    pub last_checkpoint_id: Option<i64>,
    pub epoch_start_timestamp: i64,
    pub epoch_end_timestamp: Option<i64>,
    pub epoch_total_transactions: i64,
    pub next_epoch_version: Option<i64>,
    /// The names of the validators of the next epoch.
    pub next_epoch_committee: Vec<Option<Vec<u8>>>,
    /// The stakes of the validators of the next epoch, in the order of their
    /// names.
    pub next_epoch_committee_stake: Vec<Option<i64>>,
    pub epoch_commitments: Vec<Option<Vec<u8>>>,
    pub protocol_version: Option<i64>,
    pub reference_gas_price: Option<i64>,
    pub total_stake: Option<i64>,
    pub storage_fund_reinvestment: Option<i64>,
    pub storage_charge: Option<i64>,
    pub storage_rebate: Option<i64>,
    pub storage_fund_balance: Option<i64>,
    pub stake_subsidy_amount: Option<i64>,
    pub total_gas_fees: Option<i64>,
    pub total_stake_rewards_distributed: Option<i64>,
    pub leftover_storage_fund_inflow: Option<i64>,
}

/// The model of a [`DBEpochInfo`].
pub ghost struct DBEpochInfoView {
    pub epoch: i64,
    pub first_checkpoint_id: i64,
    pub last_checkpoint_id: Option<i64>,
    pub epoch_start_timestamp: i64,
    pub epoch_end_timestamp: Option<i64>,
    pub epoch_total_transactions: i64,
    pub next_epoch_version: Option<i64>,
    pub next_epoch_committee: Seq<Option<Seq<u8>>>,
    pub next_epoch_committee_stake: Seq<Option<i64>>,
    pub epoch_commitments: Seq<Option<Seq<u8>>>,
    pub protocol_version: Option<i64>,
    pub reference_gas_price: Option<i64>,
    pub total_stake: Option<i64>,
    pub storage_fund_reinvestment: Option<i64>,
    pub storage_charge: Option<i64>,
    pub storage_rebate: Option<i64>,
    pub storage_fund_balance: Option<i64>,
    pub stake_subsidy_amount: Option<i64>,
    pub total_gas_fees: Option<i64>,
    pub total_stake_rewards_distributed: Option<i64>,
    pub leftover_storage_fund_inflow: Option<i64>,
}

impl DeepView for DBEpochInfo {
    type V = DBEpochInfoView;

    open spec fn deep_view(&self) -> DBEpochInfoView {
        DBEpochInfoView {
            epoch: self.epoch,
            first_checkpoint_id: self.first_checkpoint_id,
            last_checkpoint_id: self.last_checkpoint_id,
            epoch_start_timestamp: self.epoch_start_timestamp,
            epoch_end_timestamp: self.epoch_end_timestamp,
            epoch_total_transactions: self.epoch_total_transactions,
            next_epoch_version: self.next_epoch_version,
            next_epoch_committee: self.next_epoch_committee.deep_view(),
            next_epoch_committee_stake: self.next_epoch_committee_stake@,
            epoch_commitments: self.epoch_commitments.deep_view(),
            protocol_version: self.protocol_version,
            reference_gas_price: self.reference_gas_price,
            total_stake: self.total_stake,
            storage_fund_reinvestment: self.storage_fund_reinvestment,
            storage_charge: self.storage_charge,
            storage_rebate: self.storage_rebate,
            storage_fund_balance: self.storage_fund_balance,
            stake_subsidy_amount: self.stake_subsidy_amount,
            total_gas_fees: self.total_gas_fees,
            total_stake_rewards_distributed: self.total_stake_rewards_distributed,
            leftover_storage_fund_inflow: self.leftover_storage_fund_inflow,
        }
    }
}

impl DBEpochInfoView {
    /// The record of an epoch of which only its number, its first checkpoint
    /// and its start are known: every other column is zero, empty or null.
    pub open spec fn starting(
        epoch: i64,
        first_checkpoint_id: i64,
        epoch_start_timestamp: i64,
    ) -> DBEpochInfoView {
        DBEpochInfoView {
            epoch,
            first_checkpoint_id,
            last_checkpoint_id: None,
            epoch_start_timestamp,
            epoch_end_timestamp: None,
            epoch_total_transactions: 0,
            next_epoch_version: None,
            next_epoch_committee: Seq::empty(),
            next_epoch_committee_stake: Seq::empty(),
            epoch_commitments: Seq::empty(),
            protocol_version: None,
            reference_gas_price: None,
            total_stake: None,
            storage_fund_reinvestment: None,
            storage_charge: None,
            storage_rebate: None,
            storage_fund_balance: None,
            stake_subsidy_amount: None,
            total_gas_fees: None,
            total_stake_rewards_distributed: None,
            leftover_storage_fund_inflow: None,
        }
    }

    /// Whether the committee of the next epoch is well formed: as many
    /// stakes as names, and a stake exactly where there is a name.
    pub open spec fn committee_aligned(self) -> bool {
        &&& self.next_epoch_committee.len() == self.next_epoch_committee_stake.len()
        &&& forall|i: int|
            0 <= i < self.next_epoch_committee.len() ==> (
            #[trigger] self.next_epoch_committee[i] is None)
                == (self.next_epoch_committee_stake[i] is None)
    }
}

impl DBEpochInfo {
    /// The record of an epoch of which only its number, its first checkpoint
    /// and its start are known.
    pub fn starting(epoch: i64, first_checkpoint_id: i64, epoch_start_timestamp: i64) -> (r:
        DBEpochInfo)
        ensures
            r.deep_view() == DBEpochInfoView::starting(
                epoch,
                first_checkpoint_id,
                epoch_start_timestamp,
            ),
    {
        let r = DBEpochInfo {
            epoch,
            first_checkpoint_id,
            last_checkpoint_id: None,
            epoch_start_timestamp,
            epoch_end_timestamp: None,
            epoch_total_transactions: 0,
            next_epoch_version: None,
            next_epoch_committee: Vec::new(),
            next_epoch_committee_stake: Vec::new(),
            epoch_commitments: Vec::new(),
            protocol_version: None,
            reference_gas_price: None,
            total_stake: None,
            storage_fund_reinvestment: None,
            storage_charge: None,
            storage_rebate: None,
            storage_fund_balance: None,
            stake_subsidy_amount: None,
            total_gas_fees: None,
            total_stake_rewards_distributed: None,
            leftover_storage_fund_inflow: None,
        };
        assert(r.next_epoch_committee.deep_view() =~= Seq::<Option<Seq<u8>>>::empty());
        assert(r.epoch_commitments.deep_view() =~= Seq::<Option<Seq<u8>>>::empty());
        r
    }
}

impl Default for DBEpochInfo {
    fn default() -> (r: DBEpochInfo)
        ensures
            r.deep_view() == DBEpochInfoView::starting(0, 0, 0),
    {
        DBEpochInfo::starting(0, 0, 0)
    }
}

/// The record of the system state that an epoch starts with.
#[derive(Clone, Copy, Debug, PartialEq, Eq)]
pub struct DBSystemStateSummary {
    pub epoch: i64,
    pub protocol_version: i64,
    pub system_state_version: i64,
    pub reference_gas_price: i64,
    pub safe_mode: bool,
    pub epoch_start_timestamp_ms: i64,
    pub epoch_duration_ms: i64,
    pub total_stake: i64,
}

/// The record of a validator in one epoch.
#[derive(Clone, Copy, Debug, PartialEq, Eq)]
pub struct DBValidatorSummary {
    pub epoch: i64,
    pub sui_address: Address,
    pub voting_power: i64,
    pub gas_price: i64,
    pub commission_rate: i64,
    pub staking_pool_id: ObjectId,
    pub staking_pool_sui_balance: i64,
    pub next_epoch_stake: i64,
}

/// The records of the change from one epoch to the next.
#[derive(Clone, Debug, PartialEq, Eq)]
pub struct TemporaryEpochStore {
    /// The epoch that ended; none where the chain starts.
    pub last_epoch: Option<DBEpochInfo>,
    pub new_epoch: DBEpochInfo,
    pub system_state: DBSystemStateSummary,
    pub validators: Vec<DBValidatorSummary>,
}

/// The model of a [`TemporaryEpochStore`].
pub ghost struct TemporaryEpochStoreView {
    pub last_epoch: Option<DBEpochInfoView>,
    pub new_epoch: DBEpochInfoView,
    pub system_state: DBSystemStateSummary,
    pub validators: Seq<DBValidatorSummary>,
}

impl DeepView for TemporaryEpochStore {
    type V = TemporaryEpochStoreView;

    open spec fn deep_view(&self) -> TemporaryEpochStoreView {
        TemporaryEpochStoreView {
            last_epoch: self.last_epoch.deep_view(),
            new_epoch: self.new_epoch.deep_view(),
            system_state: self.system_state,
            validators: self.validators@,
        }
    }
}

} // verus!
