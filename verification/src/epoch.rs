//! The records of an epoch change, which a checkpoint yields if it starts
//! the chain or ends an epoch.

use vstd::prelude::*;
use crate::epoch_event::{
    decode_epoch_info_event, decoded_epoch_info_event, epoch_info_event_among,
    find_epoch_info_event,
};
use crate::errors::IndexerError;
use crate::records::{
    push_record, DBEpochInfo, DBEpochInfoView, DBSystemStateSummary, DBValidatorSummary,
    SystemEpochInfoEvent, TemporaryEpochStore, TemporaryEpochStoreView,
};
use crate::types::{
    CheckpointCommitment, CheckpointData, CheckpointEnvelope, CommitteeMember, EndOfEpochData,
    SystemStateSummary, ValidatorSummary,
};

verus! {

/// What a checkpoint is to the epochs.
#[derive(Clone, Copy, Debug, PartialEq, Eq, Structural)]
pub enum EpochBranch {
    /// The first checkpoint of the chain, which starts the first epoch.
    Genesis,
    /// The last checkpoint of an epoch.
    Boundary,
    /// Any other checkpoint.
    MidEpoch,
}

/// What the checkpoint `envelope` is to the epochs. The first checkpoint of
/// the chain is its genesis, whether or not it carries the data that ends
/// an epoch.
pub open spec fn epoch_branch(envelope: CheckpointEnvelope) -> EpochBranch {
    if envelope.epoch == 0 && envelope.sequence_number == 0 {
        EpochBranch::Genesis
    } else if envelope.end_of_epoch_data is Some {
        EpochBranch::Boundary
    } else {
        EpochBranch::MidEpoch
    }
}

/// Says what `envelope` is to the epochs. Only for a checkpoint in the
/// middle of an epoch is the system state not needed.
pub fn classify_checkpoint(envelope: &CheckpointEnvelope) -> (r: EpochBranch)
    ensures
        r == epoch_branch(*envelope),
{
    if envelope.epoch == 0 && envelope.sequence_number == 0 {
        EpochBranch::Genesis
    } else if envelope.end_of_epoch_data.is_some() {
        EpochBranch::Boundary
    } else {
        EpochBranch::MidEpoch
    }
}

/// The number before `x` in a signed column, which wraps at its least value.
pub open spec fn wrapping_pred(x: i64) -> i64 {
    if x == i64::MIN {
        i64::MAX
    } else {
        (x - 1) as i64
    }
}

/// The number after `x` in a signed column, which wraps at its greatest
/// value.
pub open spec fn wrapping_succ(x: i64) -> i64 {
    if x == i64::MAX {
        i64::MIN
    } else {
        (x + 1) as i64
    }
}

/// The names of `members`, in order; every one is present.
pub open spec fn committee_names(members: Seq<CommitteeMember>) -> Seq<Option<Seq<u8>>> {
    members.map_values(|m: CommitteeMember| Some(m.name@))
}

/// The stakes of `members`, in order; every one is present.
pub open spec fn committee_stakes(members: Seq<CommitteeMember>) -> Seq<Option<i64>> {
    members.map_values(|m: CommitteeMember| Some(m.stake as i64))
}

/// The bare digest of a commitment.
pub open spec fn commitment_digest(commitment: CheckpointCommitment) -> Seq<u8> {
    match commitment {
        CheckpointCommitment::ECMHLiveObjectSetDigest { digest } => digest@,
    }
}

/// The bare digests of `commitments`, in order; every one is present.
pub open spec fn commitment_digests(commitments: Seq<CheckpointCommitment>) -> Seq<
    Option<Seq<u8>>,
> {
    commitments.map_values(|c: CheckpointCommitment| Some(commitment_digest(c)))
}

/// Splits the committee of the next epoch into its names and its stakes.
pub fn split_committee(members: &Vec<CommitteeMember>) -> (r: (
    Vec<Option<Vec<u8>>>,
    Vec<Option<i64>>,
))
    ensures
        r.0.deep_view() == committee_names(members@),
        r.1@ == committee_stakes(members@),
        r.0.len() == r.1.len(),
{
    let mut names: Vec<Option<Vec<u8>>> = Vec::new();
    let mut stakes: Vec<Option<i64>> = Vec::new();
    let mut i: usize = 0;
    assert(names.deep_view() =~= committee_names(members@).take(0));
    while i < members.len()
        invariant
            i <= members.len(),
            names.deep_view() == committee_names(members@).take(i as int),
            stakes@ == committee_stakes(members@).take(i as int),
        decreases members.len() - i,
    {
        let name = members[i].name.clone();
        assert(name.deep_view() =~= members[i as int].name@);
        push_record(&mut names, Some(name));
        stakes.push(Some(members[i].stake as i64));
        assert(names.deep_view() =~= committee_names(members@).take(i + 1));
        assert(stakes@ =~= committee_stakes(members@).take(i + 1));
        i += 1;
    }
    assert(names.deep_view() =~= committee_names(members@));
    assert(stakes@ =~= committee_stakes(members@));
    (names, stakes)
}

/// The bytes of a digest.
pub fn digest_bytes(digest: &[u8; 32]) -> (r: Vec<u8>)
    ensures
        r@ == digest@,
{
    let mut out: Vec<u8> = Vec::new();
    let mut i: usize = 0;
    while i < 32
        invariant
            i <= 32,
            out@ == digest@.take(i as int),
        decreases 32 - i,
    {
        out.push(digest[i]);
        assert(out@ =~= digest@.take(i + 1));
        i += 1;
    }
    assert(out@ =~= digest@);
    out
}

/// Takes the bare digests out of the commitments of an epoch.
pub fn flatten_commitments(commitments: &Vec<CheckpointCommitment>) -> (r: Vec<Option<Vec<u8>>>)
    ensures
        r.deep_view() == commitment_digests(commitments@),
{
    let mut out: Vec<Option<Vec<u8>>> = Vec::new();
    let mut i: usize = 0;
    assert(out.deep_view() =~= commitment_digests(commitments@).take(0));
    while i < commitments.len()
        invariant
            i <= commitments.len(),
            out.deep_view() == commitment_digests(commitments@).take(i as int),
        decreases commitments.len() - i,
    {
        match &commitments[i] {
            CheckpointCommitment::ECMHLiveObjectSetDigest { digest } => {
                let bytes = digest_bytes(digest);
                assert(bytes.deep_view() =~= digest@);
                push_record(&mut out, Some(bytes));
            },
        }
        assert(out.deep_view() =~= commitment_digests(commitments@).take(i + 1));
        i += 1;
    }
    assert(out.deep_view() =~= commitment_digests(commitments@));
    out
}

/// The record of `validator` in the epoch `epoch`.
pub open spec fn validator_row(epoch: u64, validator: ValidatorSummary) -> DBValidatorSummary {
    DBValidatorSummary {
        epoch: epoch as i64,
        sui_address: validator.sui_address,
        voting_power: validator.voting_power as i64,
        gas_price: validator.gas_price as i64,
        commission_rate: validator.commission_rate as i64,
        staking_pool_id: validator.staking_pool_id,
        staking_pool_sui_balance: validator.staking_pool_sui_balance as i64,
        next_epoch_stake: validator.next_epoch_stake as i64,
    }
}

/// The records of the validators that `state` lists, each in the epoch of
/// `state`, in order.
pub open spec fn validator_rows(state: SystemStateSummary) -> Seq<DBValidatorSummary> {
    state.active_validators@.map_values(|v: ValidatorSummary| validator_row(state.epoch, v))
}

/// The record of the system state `state`.
pub open spec fn system_state_row(state: SystemStateSummary) -> DBSystemStateSummary {
    DBSystemStateSummary {
        epoch: state.epoch as i64,
        protocol_version: state.protocol_version as i64,
        system_state_version: state.system_state_version as i64,
        reference_gas_price: state.reference_gas_price as i64,
        safe_mode: state.safe_mode,
        epoch_start_timestamp_ms: state.epoch_start_timestamp_ms as i64,
        epoch_duration_ms: state.epoch_duration_ms as i64,
        total_stake: state.total_stake as i64,
    }
}

/// Builds the records of the validators that `state` lists.
pub fn index_validators(state: &SystemStateSummary) -> (r: Vec<DBValidatorSummary>)
    ensures
        r@ == validator_rows(*state),
{
    let mut out: Vec<DBValidatorSummary> = Vec::new();
    let mut i: usize = 0;
    while i < state.active_validators.len()
        invariant
            i <= state.active_validators.len(),
            out@ == validator_rows(*state).take(i as int),
        decreases state.active_validators.len() - i,
    {
        let v = &state.active_validators[i];
        out.push(
            DBValidatorSummary {
                epoch: state.epoch as i64,
                sui_address: v.sui_address,
                voting_power: v.voting_power as i64,
                gas_price: v.gas_price as i64,
                commission_rate: v.commission_rate as i64,
                staking_pool_id: v.staking_pool_id,
                staking_pool_sui_balance: v.staking_pool_sui_balance as i64,
                next_epoch_stake: v.next_epoch_stake as i64,
            },
        );
        assert(out@ =~= validator_rows(*state).take(i + 1));
        i += 1;
    }
    assert(out@ =~= validator_rows(*state));
    out
}

/// Builds the record of the system state `state`.
pub fn index_system_state(state: &SystemStateSummary) -> (r: DBSystemStateSummary)
    ensures
        r == system_state_row(*state),
{
    DBSystemStateSummary {
        epoch: state.epoch as i64,
        protocol_version: state.protocol_version as i64,
        system_state_version: state.system_state_version as i64,
        reference_gas_price: state.reference_gas_price as i64,
        safe_mode: state.safe_mode,
        epoch_start_timestamp_ms: state.epoch_start_timestamp_ms as i64,
        epoch_duration_ms: state.epoch_duration_ms as i64,
        total_stake: state.total_stake as i64,
    }
}

/// One figure of the event that closed the epoch, where there is such an
/// event.
pub open spec fn figure(event: Option<SystemEpochInfoEvent>, of: spec_fn(SystemEpochInfoEvent) -> i64)
    -> Option<i64> {
    match event {
        Some(e) => Some(of(e)),
        None => None,
    }
}

/// The record of the epoch that the checkpoint `envelope` ends, where `end`
/// is what the checkpoint says of the next epoch, `state` the system state
/// that the next epoch starts with, and `event` the event that closed the
/// epoch, if the checkpoint has one.
///
/// The epoch that ended is the one before that of `state`. It ends with this
/// checkpoint, at this checkpoint's time. Where it began is not known here:
/// its first checkpoint, its start and its number of transactions are zero.
/// The figures of the event are null where there is no event.
pub open spec fn ended_epoch(
    envelope: CheckpointEnvelope,
    end: EndOfEpochData,
    state: SystemStateSummary,
    event: Option<SystemEpochInfoEvent>,
) -> DBEpochInfoView {
    DBEpochInfoView {
        epoch: wrapping_pred(state.epoch as i64),
        first_checkpoint_id: 0,
        last_checkpoint_id: Some(envelope.sequence_number as i64),
        epoch_start_timestamp: 0,
        epoch_end_timestamp: Some(envelope.timestamp_ms as i64),
        epoch_total_transactions: 0,
        next_epoch_version: Some(end.next_epoch_protocol_version as i64),
        next_epoch_committee: committee_names(end.next_epoch_committee@),
        next_epoch_committee_stake: committee_stakes(end.next_epoch_committee@),
        epoch_commitments: commitment_digests(end.epoch_commitments@),
        protocol_version: figure(event, |e: SystemEpochInfoEvent| e.protocol_version),
        reference_gas_price: figure(event, |e: SystemEpochInfoEvent| e.reference_gas_price),
        total_stake: figure(event, |e: SystemEpochInfoEvent| e.total_stake),
        storage_fund_reinvestment: figure(
            event,
            |e: SystemEpochInfoEvent| e.storage_fund_reinvestment,
        ),
        storage_charge: figure(event, |e: SystemEpochInfoEvent| e.storage_charge),
        storage_rebate: figure(event, |e: SystemEpochInfoEvent| e.storage_rebate),
        storage_fund_balance: figure(event, |e: SystemEpochInfoEvent| e.storage_fund_balance),
        stake_subsidy_amount: figure(event, |e: SystemEpochInfoEvent| e.stake_subsidy_amount),
        total_gas_fees: figure(event, |e: SystemEpochInfoEvent| e.total_gas_fees),
        total_stake_rewards_distributed: figure(
            event,
            |e: SystemEpochInfoEvent| e.total_stake_rewards_distributed,
        ),
        leftover_storage_fund_inflow: figure(
            event,
            |e: SystemEpochInfoEvent| e.leftover_storage_fund_inflow,
        ),
    }
}

/// The records with which the chain starts, where `state` is the system
/// state of its first epoch: no epoch has ended, and the first epoch starts
/// with the first checkpoint.
pub open spec fn genesis_epoch_store(state: SystemStateSummary) -> TemporaryEpochStoreView {
    TemporaryEpochStoreView {
        last_epoch: None,
        new_epoch: DBEpochInfoView::starting(0, 0, state.epoch_start_timestamp_ms as i64),
        system_state: system_state_row(state),
        validators: validator_rows(state),
    }
}

/// The records of the epoch change at the checkpoint `envelope`: the epoch
/// that ended, and the epoch of `state`, which starts with the checkpoint
/// after this one.
pub open spec fn boundary_epoch_store(
    envelope: CheckpointEnvelope,
    end: EndOfEpochData,
    state: SystemStateSummary,
    event: Option<SystemEpochInfoEvent>,
) -> TemporaryEpochStoreView {
    TemporaryEpochStoreView {
        last_epoch: Some(ended_epoch(envelope, end, state, event)),
        new_epoch: DBEpochInfoView::starting(
            state.epoch as i64,
            wrapping_succ(envelope.sequence_number as i64),
            state.epoch_start_timestamp_ms as i64,
        ),
        system_state: system_state_row(state),
        validators: validator_rows(state),
    }
}

/// What reading the event that closes the epoch from `data` gives: nothing
/// where no transaction emitted one, its figures where one did, and a
/// failure where its bytes are not those of such an event.
pub open spec fn closing_event(data: CheckpointData) -> Result<
    Option<SystemEpochInfoEvent>,
    IndexerError,
> {
    match epoch_info_event_among(data.transactions@) {
        None => Ok(None),
        Some(event) => match decoded_epoch_info_event(event.bcs@) {
            Ok(figures) => Ok(Some(figures)),
            Err(e) => Err(e),
        },
    }
}

/// The records of the epoch change that the checkpoint of `data` yields,
/// where `system_state` is the system state read from the checkpoint's
/// objects, if it could be read.
///
/// A checkpoint in the middle of an epoch yields none. The genesis and the
/// last checkpoint of an epoch need the system state and fail without it.
/// The last checkpoint of an epoch also fails if it has an event that closes
/// the epoch whose bytes cannot be read.
pub open spec fn epoch_store(data: CheckpointData, system_state: Option<&SystemStateSummary>)
    -> Result<Option<TemporaryEpochStoreView>, IndexerError> {
    match epoch_branch(data.checkpoint) {
        EpochBranch::MidEpoch => Ok(None),
        EpochBranch::Genesis => match system_state {
            None => Err(IndexerError::SystemStateUnavailable),
            Some(state) => Ok(Some(genesis_epoch_store(*state))),
        },
        EpochBranch::Boundary => match system_state {
            None => Err(IndexerError::SystemStateUnavailable),
            Some(state) => match closing_event(data) {
                Err(e) => Err(e),
                Ok(event) => Ok(
                    Some(
                        boundary_epoch_store(
                            data.checkpoint,
                            data.checkpoint.end_of_epoch_data->0,
                            *state,
                            event,
                        ),
                    ),
                ),
            },
        },
    }
}

/// Reads the event that closes the epoch, if `data` has one.
pub fn read_closing_event(data: &CheckpointData) -> (r: Result<
    Option<SystemEpochInfoEvent>,
    IndexerError,
>)
    ensures
        r == closing_event(*data),
{
    match find_epoch_info_event(&data.transactions) {
        None => Ok(None),
        Some(event) => match decode_epoch_info_event(event.bcs.as_slice()) {
            Ok(figures) => Ok(Some(figures)),
            Err(e) => Err(e),
        },
    }
}

/// Builds the record of the epoch that the checkpoint `envelope` ends.
pub fn index_ended_epoch(
    envelope: &CheckpointEnvelope,
    end: &EndOfEpochData,
    state: &SystemStateSummary,
    event: Option<SystemEpochInfoEvent>,
) -> (r: DBEpochInfo)
    ensures
        r.deep_view() == ended_epoch(*envelope, *end, *state, event),
{
    let (next_epoch_committee, next_epoch_committee_stake) = split_committee(
        &end.next_epoch_committee,
    );
    let epoch_commitments = flatten_commitments(&end.epoch_commitments);
    let new_epoch = state.epoch as i64;
    let epoch = if new_epoch == i64::MIN {
        i64::MAX
    } else {
        new_epoch - 1
    };
    DBEpochInfo {
        epoch,
        first_checkpoint_id: 0,
        last_checkpoint_id: Some(envelope.sequence_number as i64),
        epoch_start_timestamp: 0,
        epoch_end_timestamp: Some(envelope.timestamp_ms as i64),
        epoch_total_transactions: 0,
        next_epoch_version: Some(end.next_epoch_protocol_version as i64),
        next_epoch_committee,
        next_epoch_committee_stake,
        epoch_commitments,
        protocol_version: match event {
            Some(e) => Some(e.protocol_version),
            None => None,
        },
        reference_gas_price: match event {
            Some(e) => Some(e.reference_gas_price),
            None => None,
        },
        total_stake: match event {
            Some(e) => Some(e.total_stake),
            None => None,
        },
        storage_fund_reinvestment: match event {
            Some(e) => Some(e.storage_fund_reinvestment),
            None => None,
        },
        storage_charge: match event {
            Some(e) => Some(e.storage_charge),
            None => None,
        },
        storage_rebate: match event {
            Some(e) => Some(e.storage_rebate),
            None => None,
        },
        storage_fund_balance: match event {
            Some(e) => Some(e.storage_fund_balance),
            None => None,
        },
        stake_subsidy_amount: match event {
            Some(e) => Some(e.stake_subsidy_amount),
            None => None,
        },
        total_gas_fees: match event {
            Some(e) => Some(e.total_gas_fees),
            None => None,
        },
        total_stake_rewards_distributed: match event {
            Some(e) => Some(e.total_stake_rewards_distributed),
            None => None,
        },
        leftover_storage_fund_inflow: match event {
            Some(e) => Some(e.leftover_storage_fund_inflow),
            None => None,
        },
    }
}

/// Builds the records of the epoch change that the checkpoint of `data`
/// yields, if it yields any.
///
/// `system_state` is the system state read from the checkpoint's objects, if
/// it could be read; [`classify_checkpoint`] says whether it is needed.
pub fn index_epoch(data: &CheckpointData, system_state: Option<&SystemStateSummary>) -> (r: Result<
    Option<TemporaryEpochStore>,
    IndexerError,
>)
    ensures
        match r {
            Ok(store) => epoch_store(*data, system_state) == Ok::<
                Option<TemporaryEpochStoreView>,
                IndexerError,
            >(store.deep_view()),
            Err(e) => epoch_store(*data, system_state) == Err::<
                Option<TemporaryEpochStoreView>,
                IndexerError,
            >(e),
        },
        r matches Ok(Some(store)) ==> (store.last_epoch is None <==> data.checkpoint.epoch == 0
            && data.checkpoint.sequence_number == 0),
{
    let envelope = &data.checkpoint;
    if envelope.epoch == 0 && envelope.sequence_number == 0 {
        match system_state {
            None => Err(IndexerError::SystemStateUnavailable),
            Some(state) => Ok(
                Some(
                    TemporaryEpochStore {
                        last_epoch: None,
                        new_epoch: DBEpochInfo::starting(0, 0, state.epoch_start_timestamp_ms as i64),
                        system_state: index_system_state(state),
                        validators: index_validators(state),
                    },
                ),
            ),
        }
    } else {
        match &envelope.end_of_epoch_data {
            None => Ok(None),
            Some(end) => match system_state {
                None => Err(IndexerError::SystemStateUnavailable),
                Some(state) => {
                    let event = match read_closing_event(data) {
                        Ok(event) => event,
                        Err(e) => {
                            return Err(e);
                        },
                    };
                    let last_epoch = index_ended_epoch(envelope, end, state, event);
                    let sequence_number = envelope.sequence_number as i64;
                    let first_checkpoint_id = if sequence_number == i64::MAX {
                        i64::MIN
                    } else {
                        sequence_number + 1
                    };
                    Ok(
                        Some(
                            TemporaryEpochStore {
                                last_epoch: Some(last_epoch),
                                new_epoch: DBEpochInfo::starting(
                                    state.epoch as i64,
                                    first_checkpoint_id,
                                    state.epoch_start_timestamp_ms as i64,
                                ),
                                system_state: index_system_state(state),
                                validators: index_validators(state),
                            },
                        ),
                    )
                },
            },
        }
    }
}

/// The records of an epoch change name no epoch that ended exactly where
/// the checkpoint is the first of the chain.
pub proof fn lemma_no_ended_epoch_exactly_at_genesis(
    data: CheckpointData,
    system_state: Option<&SystemStateSummary>,
)
    ensures
        epoch_store(data, system_state) matches Ok(Some(store)) ==> (store.last_epoch is None
            <==> data.checkpoint.epoch == 0 && data.checkpoint.sequence_number == 0),
{
}

/// The committee of the next epoch has as many stakes as names, and a name
/// and a stake at every place.
pub proof fn lemma_split_committee_aligned(members: Seq<CommitteeMember>)
    ensures
        committee_names(members).len() == committee_stakes(members).len(),
        committee_names(members).len() == members.len(),
        forall|i: int|
            0 <= i < members.len() ==> (#[trigger] committee_names(members)[i]) is Some && (
            #[trigger] committee_stakes(members)[i]) is Some,
{
}

/// In the records of every epoch change, the committee of the next epoch is
/// well formed both in the epoch that ended and in the epoch that starts: as
/// many stakes as names, and a stake exactly where there is a name.
pub proof fn lemma_committee_aligned(data: CheckpointData, system_state: Option<&SystemStateSummary>)
    ensures
        epoch_store(data, system_state) matches Ok(Some(store)) ==> store.new_epoch.committee_aligned()
            && (store.last_epoch matches Some(ended) ==> ended.committee_aligned()),
{
    if data.checkpoint.end_of_epoch_data is Some {
        lemma_split_committee_aligned(data.checkpoint.end_of_epoch_data->0.next_epoch_committee@);
    }
}

} // verus!
