//! What the full node serves for one checkpoint: the envelope, the
//! transactions with their effects and events, and the objects they left
//! behind.

use vstd::prelude::*;
use crate::ids::{Address, ObjectDigest, ObjectId, TransactionDigest};

verus! {

/// The version of an object.
pub type SequenceNumber = u64;

/// The position of a checkpoint in the chain, counted from zero.
pub type CheckpointSequenceNumber = u64;

/// The number of an epoch, counted from zero.
pub type EpochId = u64;

/// How a transaction left an object.
#[derive(Clone, Copy, Debug, PartialEq, Eq, Hash, Structural)]
pub enum ObjectStatus {
    Created,
    Mutated,
    Deleted,
    Wrapped,
    Unwrapped,
    UnwrappedThenDeleted,
}

impl ObjectStatus {
    /// Whether an object with this status exists after the transaction.
    pub open spec fn present_after(self) -> bool {
        self == ObjectStatus::Created || self == ObjectStatus::Mutated || self
            == ObjectStatus::Unwrapped
    }

    /// Whether an object with this status exists after the transaction.
    pub fn is_present_after(&self) -> (r: bool)
        ensures
            r == self.present_after(),
    {
        match self {
            ObjectStatus::Created | ObjectStatus::Mutated | ObjectStatus::Unwrapped => true,
            _ => false,
        }
    }
}

/// Who may use an object.
#[derive(Clone, Copy, Debug, PartialEq, Eq)]
pub enum Owner {
    AddressOwner(Address),
    ObjectOwner(Address),
    Shared { initial_shared_version: SequenceNumber },
    Immutable,
}

/// One version of one object.
#[derive(Clone, Copy, Debug, PartialEq, Eq)]
pub struct ObjectRef {
    pub object_id: ObjectId,
    pub version: SequenceNumber,
    pub digest: ObjectDigest,
}

/// One version of one object, with its owner.
#[derive(Clone, Copy, Debug, PartialEq, Eq)]
pub struct OwnedObjectRef {
    pub owner: Owner,
    pub reference: ObjectRef,
}

/// What a transaction did to objects, by kind of change.
#[derive(Clone, Debug, PartialEq, Eq)]
pub struct TransactionEffects {
    pub transaction_digest: TransactionDigest,
    pub created: Vec<OwnedObjectRef>,
    pub mutated: Vec<OwnedObjectRef>,
    pub unwrapped: Vec<OwnedObjectRef>,
    pub deleted: Vec<ObjectRef>,
    pub wrapped: Vec<ObjectRef>,
    pub unwrapped_then_deleted: Vec<ObjectRef>,
}

/// The type of an event: the struct `name` of `module` published at `address`.
#[derive(Clone, Debug, PartialEq, Eq)]
pub struct EventType {
    pub address: Address,
    pub module: String,
    pub name: String,
}

/// An event that a transaction emitted.
#[derive(Clone, Debug, PartialEq, Eq)]
pub struct Event {
    pub tx_digest: TransactionDigest,
    pub event_seq: u64,
    pub package_id: ObjectId,
    pub transaction_module: String,
    pub sender: Address,
    pub type_: EventType,
    pub bcs: Vec<u8>,
}

/// An object that a transaction takes as input.
#[derive(Clone, Copy, Debug, PartialEq, Eq)]
pub enum InputObjectKind {
    MovePackage(ObjectId),
    ImmOrOwnedMoveObject(ObjectRef),
    SharedMoveObject { id: ObjectId, initial_shared_version: SequenceNumber, mutable: bool },
}

/// The function that a transaction's command calls.
#[derive(Clone, Debug, PartialEq, Eq)]
pub struct MoveCallTarget {
    pub package: ObjectId,
    pub module: String,
    pub function: String,
}

/// One transaction of a checkpoint as the full node serves it.
#[derive(Clone, Debug, PartialEq, Eq)]
pub struct TransactionRecord {
    pub digest: TransactionDigest,
    pub sender: Address,
    /// The number of commands that the transaction runs.
    pub transaction_count: u64,
    pub timestamp_ms: u64,
    pub checkpoint: CheckpointSequenceNumber,
    pub effects: TransactionEffects,
    pub events: Vec<Event>,
    pub input_objects: Vec<InputObjectKind>,
    pub move_calls: Vec<MoveCallTarget>,
}

/// One compiled module of a package.
#[derive(Clone, Debug, PartialEq, Eq)]
pub struct Module {
    pub name: String,
    pub bytes: Vec<u8>,
}

/// The model of a [`Module`].
pub ghost struct ModuleView {
    pub name: Seq<char>,
    pub bytes: Seq<u8>,
}

impl DeepView for Module {
    type V = ModuleView;

    open spec fn deep_view(&self) -> ModuleView {
        ModuleView { name: self.name@, bytes: self.bytes@ }
    }
}

impl Module {
    /// A copy with the same name and bytes.
    pub fn duplicate(&self) -> (r: Module)
        ensures
            r.deep_view() == self.deep_view(),
    {
        Module { name: self.name.clone(), bytes: self.bytes.clone() }
    }
}

/// Copies of `modules`, in the same order.
pub fn duplicate_modules(modules: &Vec<Module>) -> (r: Vec<Module>)
    ensures
        r.deep_view() == modules.deep_view(),
{
    let mut out: Vec<Module> = Vec::new();
    let mut i: usize = 0;
    while i < modules.len()
        invariant
            i <= modules.len(),
            out.len() == i,
            forall|j: int| 0 <= j < i ==> out[j].deep_view() == modules[j].deep_view(),
        decreases modules.len() - i,
    {
        out.push(modules[i].duplicate());
        i += 1;
    }
    assert(out.deep_view() =~= modules.deep_view());
    out
}

/// The raw form of a published package.
#[derive(Clone, Debug, PartialEq, Eq)]
pub struct PackageData {
    pub id: ObjectId,
    pub version: SequenceNumber,
    pub modules: Vec<Module>,
}

/// The model of a [`PackageData`].
pub ghost struct PackageDataView {
    pub id: ObjectId,
    pub version: SequenceNumber,
    pub modules: Seq<ModuleView>,
}

impl DeepView for PackageData {
    type V = PackageDataView;

    open spec fn deep_view(&self) -> PackageDataView {
        PackageDataView { id: self.id, version: self.version, modules: self.modules.deep_view() }
    }
}

impl PackageData {
    /// A copy with the same id, version and modules.
    pub fn duplicate(&self) -> (r: PackageData)
        ensures
            r.deep_view() == self.deep_view(),
    {
        PackageData {
            id: self.id,
            version: self.version,
            modules: duplicate_modules(&self.modules),
        }
    }
}

/// The raw bytes of an object: those of a Move value, or a package.
#[derive(Clone, Debug, PartialEq, Eq)]
pub enum RawData {
    MoveObject { has_public_transfer: bool, contents: Vec<u8> },
    Package(PackageData),
}

/// The model of a [`RawData`].
pub ghost enum RawDataView {
    MoveObject { has_public_transfer: bool, contents: Seq<u8> },
    Package(PackageDataView),
}

impl DeepView for RawData {
    type V = RawDataView;

    open spec fn deep_view(&self) -> RawDataView {
        match self {
            RawData::MoveObject { has_public_transfer, contents } => RawDataView::MoveObject {
                has_public_transfer: *has_public_transfer,
                contents: contents@,
            },
            RawData::Package(p) => RawDataView::Package(p.deep_view()),
        }
    }
}

impl RawData {
    /// Whether these are the bytes of a package.
    pub fn is_package(&self) -> (r: bool)
        ensures
            r == (self is Package),
    {
        match self {
            RawData::Package(_) => true,
            RawData::MoveObject { .. } => false,
        }
    }

    /// A copy with the same bytes.
    pub fn duplicate(&self) -> (r: RawData)
        ensures
            r.deep_view() == self.deep_view(),
    {
        match self {
            RawData::MoveObject { has_public_transfer, contents } => RawData::MoveObject {
                has_public_transfer: *has_public_transfer,
                contents: contents.clone(),
            },
            RawData::Package(p) => RawData::Package(p.duplicate()),
        }
    }
}

/// An object at one version, with its raw bytes.
#[derive(Clone, Debug, PartialEq, Eq)]
pub struct ObjectData {
    pub object_id: ObjectId,
    pub version: SequenceNumber,
    pub digest: ObjectDigest,
    pub owner: Owner,
    /// The transaction that produced this version, where the node knows it.
    pub previous_transaction: Option<TransactionDigest>,
    pub storage_rebate: u64,
    pub content: RawData,
}

/// The model of an [`ObjectData`].
pub ghost struct ObjectDataView {
    pub object_id: ObjectId,
    pub version: SequenceNumber,
    pub digest: ObjectDigest,
    pub owner: Owner,
    pub previous_transaction: Option<TransactionDigest>,
    pub storage_rebate: u64,
    pub content: RawDataView,
}

impl DeepView for ObjectData {
    type V = ObjectDataView;

    open spec fn deep_view(&self) -> ObjectDataView {
        ObjectDataView {
            object_id: self.object_id,
            version: self.version,
            digest: self.digest,
            owner: self.owner,
            previous_transaction: self.previous_transaction,
            storage_rebate: self.storage_rebate,
            content: self.content.deep_view(),
        }
    }
}

impl ObjectData {
    /// A copy that agrees with this object in every field.
    pub fn duplicate(&self) -> (r: ObjectData)
        ensures
            r.deep_view() == self.deep_view(),
    {
        ObjectData {
            object_id: self.object_id,
            version: self.version,
            digest: self.digest,
            owner: self.owner,
            previous_transaction: self.previous_transaction,
            storage_rebate: self.storage_rebate,
            content: self.content.duplicate(),
        }
    }
}

/// A commitment that a checkpoint makes at the end of an epoch.
#[derive(Clone, Copy, Debug, PartialEq, Eq)]
pub enum CheckpointCommitment {
    /// The digest of the set of live objects.
    ECMHLiveObjectSetDigest { digest: [u8; 32] },
}

/// A validator of the next epoch's committee: its name and its stake.
#[derive(Clone, Debug, PartialEq, Eq)]
pub struct CommitteeMember {
    pub name: Vec<u8>,
    pub stake: u64,
}

/// What the last checkpoint of an epoch says of the epoch that follows.
#[derive(Clone, Debug, PartialEq, Eq)]
pub struct EndOfEpochData {
    pub next_epoch_committee: Vec<CommitteeMember>,
    pub next_epoch_protocol_version: u64,
    pub epoch_commitments: Vec<CheckpointCommitment>,
}

/// A checkpoint as the full node serves it, without its transactions' bodies.
#[derive(Clone, Debug, PartialEq, Eq)]
pub struct CheckpointEnvelope {
    pub sequence_number: CheckpointSequenceNumber,
    pub epoch: EpochId,
    pub timestamp_ms: u64,
    pub transactions: Vec<TransactionDigest>,
    pub end_of_epoch_data: Option<EndOfEpochData>,
}

/// Everything downloaded for one checkpoint.
#[derive(Clone, Debug, PartialEq, Eq)]
pub struct CheckpointData {
    pub checkpoint: CheckpointEnvelope,
    pub transactions: Vec<TransactionRecord>,
    /// The objects that exist after the checkpoint's transactions changed
    /// them, each with the kind of change.
    pub changed_objects: Vec<(ObjectStatus, ObjectData)>,
}

/// A change that a transaction made to an object which exists afterwards.
pub type ObjectChange = (ObjectId, SequenceNumber, ObjectStatus);

/// The request for one object at one version.
#[derive(Clone, Copy, Debug, PartialEq, Eq)]
pub struct PastObjectRequest {
    pub object_id: ObjectId,
    pub version: SequenceNumber,
}

/// Which parts of an object the full node is asked to send.
#[derive(Clone, Copy, Debug, PartialEq, Eq, Structural)]
pub struct ObjectDataOptions {
    pub show_type: bool,
    pub show_owner: bool,
    pub show_previous_transaction: bool,
    pub show_storage_rebate: bool,
    pub show_bcs: bool,
}

impl ObjectDataOptions {
    /// Whether the options ask for everything from which the object can be
    /// restored without loss.
    pub open spec fn lossless(self) -> bool {
        &&& self.show_type
        &&& self.show_owner
        &&& self.show_previous_transaction
        &&& self.show_storage_rebate
        &&& self.show_bcs
    }

    /// The options with which changed objects are fetched: everything from
    /// which the object can be restored without loss.
    pub fn bcs_lossless() -> (r: ObjectDataOptions)
        ensures
            r.lossless(),
    {
        ObjectDataOptions {
            show_type: true,
            show_owner: true,
            show_previous_transaction: true,
            show_storage_rebate: true,
            show_bcs: true,
        }
    }
}

/// The full node's answer to a [`PastObjectRequest`].
#[derive(Clone, Debug, PartialEq, Eq)]
pub enum PastObjectResponse {
    /// The object at the version asked for.
    VersionFound(ObjectData),
    /// No object has this id.
    ObjectNotExists(ObjectId),
    /// The object was deleted.
    ObjectDeleted(ObjectRef),
    /// The object never had this version.
    VersionNotFound(ObjectId, SequenceNumber),
    /// The version asked for is later than the latest one.
    VersionTooHigh { object_id: ObjectId, asked_version: SequenceNumber, latest_version: SequenceNumber },
}

/// A validator as the system state lists it.
#[derive(Clone, Copy, Debug, PartialEq, Eq)]
pub struct ValidatorSummary {
    pub sui_address: Address,
    pub voting_power: u64,
    pub gas_price: u64,
    pub commission_rate: u64,
    pub staking_pool_id: ObjectId,
    pub staking_pool_sui_balance: u64,
    pub next_epoch_stake: u64,
}

/// The system state that an epoch starts with.
#[derive(Clone, Debug, PartialEq, Eq)]
pub struct SystemStateSummary {
    pub epoch: EpochId,
    pub protocol_version: u64,
    pub system_state_version: u64,
    pub reference_gas_price: u64,
    pub safe_mode: bool,
    pub epoch_start_timestamp_ms: u64,
    pub epoch_duration_ms: u64,
    pub total_stake: u64,
    pub active_validators: Vec<ValidatorSummary>,
}

} // verus!
