use checkpoint_indexer::epoch::{
    classify_checkpoint, flatten_commitments, index_epoch, index_system_state, index_validators,
    split_committee, EpochBranch,
};
use checkpoint_indexer::epoch_event::{
    closes_epoch, decode_epoch_info_event, find_epoch_info_event, EPOCH_EVENT_LENGTH,
};
use checkpoint_indexer::errors::IndexerError;
use checkpoint_indexer::ids::{sui_system_address, Address, ObjectId, TransactionDigest};
use checkpoint_indexer::indexer::index_checkpoint;
use checkpoint_indexer::pipeline::{route_epoch, EpochRoute};
use checkpoint_indexer::records::{DBEpochInfo, DBValidatorSummary, SystemEpochInfoEvent};
use checkpoint_indexer::types::{
    CheckpointCommitment, CheckpointData, CheckpointEnvelope, CommitteeMember, EndOfEpochData,
    Event, EventType, SystemStateSummary, TransactionEffects, TransactionRecord, ValidatorSummary,
};

fn ep_figures() -> [i64; 12] {
    [6, 11, 1000, 5_000_000, 12, 13, 14, 15, 16, 17, 18, 19]
}

fn ep_event(name: &str, address: Address, bcs: Vec<u8>) -> Event {
    Event {
        tx_digest: TransactionDigest { bytes: [1; 32] },
        event_seq: 0,
        package_id: ObjectId { bytes: sui_system_address().bytes },
        transaction_module: "sui_system".to_string(),
        sender: Address { bytes: [0; 32] },
        type_: EventType {
            address,
            module: "sui_system_state_inner".to_string(),
            name: name.to_string(),
        },
        bcs,
    }
}

fn ep_epoch_event(bcs: Vec<u8>) -> Event {
    ep_event("SystemEpochInfoEvent", sui_system_address(), bcs)
}

fn ep_transaction(digest: u8, events: Vec<Event>) -> TransactionRecord {
    TransactionRecord {
        digest: TransactionDigest { bytes: [digest; 32] },
        sender: Address { bytes: [0; 32] },
        transaction_count: 1,
        timestamp_ms: 1_000,
        checkpoint: 0,
        effects: TransactionEffects {
            transaction_digest: TransactionDigest { bytes: [digest; 32] },
            created: vec![],
            mutated: vec![],
            unwrapped: vec![],
            deleted: vec![],
            wrapped: vec![],
            unwrapped_then_deleted: vec![],
        },
        events,
        input_objects: vec![],
        move_calls: vec![],
    }
}

fn ep_end_of_epoch() -> EndOfEpochData {
    EndOfEpochData {
        next_epoch_committee: vec![
            CommitteeMember { name: vec![0xaa; 96], stake: 2_500 },
            CommitteeMember { name: vec![0xbb; 96], stake: 7_500 },
        ],
        next_epoch_protocol_version: 12,
        epoch_commitments: vec![CheckpointCommitment::ECMHLiveObjectSetDigest { digest: [0xcd; 32] }],
    }
}

fn ep_system_state(epoch: u64) -> SystemStateSummary {
    SystemStateSummary {
        epoch,
        protocol_version: 12,
        system_state_version: 1,
        reference_gas_price: 1000,
        safe_mode: false,
        epoch_start_timestamp_ms: 86_400_000,
        epoch_duration_ms: 86_400_000,
        total_stake: 10_000,
        active_validators: vec![
            ValidatorSummary {
                sui_address: Address { bytes: [0xa1; 32] },
                voting_power: 2_500,
                gas_price: 1000,
                commission_rate: 200,
                staking_pool_id: ObjectId { bytes: [0xa2; 32] },
                staking_pool_sui_balance: 2_500,
                next_epoch_stake: 2_600,
            },
            ValidatorSummary {
                sui_address: Address { bytes: [0xb1; 32] },
                voting_power: 7_500,
                gas_price: 900,
                commission_rate: 100,
                staking_pool_id: ObjectId { bytes: [0xb2; 32] },
                staking_pool_sui_balance: 7_500,
                next_epoch_stake: 7_400,
            },
        ],
    }
}

fn ep_data(
    sequence_number: u64,
    epoch: u64,
    end_of_epoch_data: Option<EndOfEpochData>,
    transactions: Vec<TransactionRecord>,
) -> CheckpointData {
    CheckpointData {
        checkpoint: CheckpointEnvelope {
            sequence_number,
            epoch,
            timestamp_ms: 90_000_000,
            transactions: transactions.iter().map(|t| t.digest).collect(),
            end_of_epoch_data,
        },
        transactions,
        changed_objects: vec![],
    }
}

#[test]
fn an_epoch_event_decodes_to_the_figures_that_bcs_encoded() {
    let bytes = bcs::to_bytes(&ep_figures()).unwrap();
    assert_eq!(bytes.len(), EPOCH_EVENT_LENGTH);
    assert_eq!(
        decode_epoch_info_event(&bytes),
        Ok(SystemEpochInfoEvent {
            epoch: 6,
            protocol_version: 11,
            reference_gas_price: 1000,
            total_stake: 5_000_000,
            storage_fund_reinvestment: 12,
            storage_charge: 13,
            storage_rebate: 14,
            storage_fund_balance: 15,
            stake_subsidy_amount: 16,
            total_gas_fees: 17,
            total_stake_rewards_distributed: 18,
            leftover_storage_fund_inflow: 19,
        })
    );
}

#[test]
fn an_epoch_event_holds_its_numbers_lowest_byte_first() {
    let mut bytes = vec![0u8; 96];
    bytes[0] = 0x01;
    bytes[1] = 0x02;
    bytes[8] = 0xff;
    bytes[16..24].copy_from_slice(&[0xff; 8]);
    bytes[24..32].copy_from_slice(&[0, 0, 0, 0, 0, 0, 0, 0x80]);
    bytes[95] = 0x7f;
    let event = decode_epoch_info_event(&bytes).unwrap();
    assert_eq!(event.epoch, 0x0201);
    assert_eq!(event.protocol_version, 255);
    assert_eq!(event.reference_gas_price, -1);
    assert_eq!(event.total_stake, i64::MIN);
    assert_eq!(event.storage_charge, 0);
    assert_eq!(event.leftover_storage_fund_inflow, 0x7f00_0000_0000_0000);
}

#[test]
fn an_epoch_event_of_another_length_is_malformed() {
    assert_eq!(decode_epoch_info_event(&[0u8; 95]), Err(IndexerError::EpochEventMalformed));
    assert_eq!(decode_epoch_info_event(&[0u8; 97]), Err(IndexerError::EpochEventMalformed));
    assert_eq!(decode_epoch_info_event(&[]), Err(IndexerError::EpochEventMalformed));
    assert!(decode_epoch_info_event(&[0u8; 96]).is_ok());
}

#[test]
fn the_epoch_event_is_known_by_address_module_and_name() {
    assert!(closes_epoch(&ep_epoch_event(vec![])));
    assert!(!closes_epoch(&ep_event("SystemEpochInfo", sui_system_address(), vec![])));
    assert!(!closes_epoch(&ep_event("SystemEpochInfoEvent", Address { bytes: [0; 32] }, vec![])));
    let mut other_module = ep_epoch_event(vec![]);
    other_module.type_.module = "sui_system".to_string();
    assert!(!closes_epoch(&other_module));
    let mut expected = [0u8; 32];
    expected[31] = 3;
    assert_eq!(sui_system_address().bytes, expected);
}

#[test]
fn the_first_epoch_event_of_the_first_transaction_that_has_one_is_found() {
    let transactions = vec![
        ep_transaction(1, vec![ep_event("Other", sui_system_address(), vec![9])]),
        ep_transaction(
            2,
            vec![
                ep_event("Other", sui_system_address(), vec![8]),
                ep_epoch_event(vec![1]),
                ep_epoch_event(vec![2]),
            ],
        ),
        ep_transaction(3, vec![ep_epoch_event(vec![3])]),
    ];
    assert_eq!(find_epoch_info_event(&transactions).unwrap().bcs, vec![1]);
    assert!(find_epoch_info_event(&transactions[..1].to_vec()).is_none());
    assert!(find_epoch_info_event(&vec![]).is_none());
}

#[test]
fn checkpoints_are_classified_by_epoch_number_and_end_of_epoch_data() {
    let classify = |seq, epoch, end| classify_checkpoint(&ep_data(seq, epoch, end, vec![]).checkpoint);
    assert_eq!(classify(0, 0, None), EpochBranch::Genesis);
    assert_eq!(classify(0, 0, Some(ep_end_of_epoch())), EpochBranch::Genesis);
    assert_eq!(classify(100, 6, Some(ep_end_of_epoch())), EpochBranch::Boundary);
    assert_eq!(classify(100, 0, Some(ep_end_of_epoch())), EpochBranch::Boundary);
    assert_eq!(classify(0, 1, Some(ep_end_of_epoch())), EpochBranch::Boundary);
    assert_eq!(classify(100, 6, None), EpochBranch::MidEpoch);
    assert_eq!(classify(1, 0, None), EpochBranch::MidEpoch);
    assert_eq!(classify(0, 1, None), EpochBranch::MidEpoch);
}

#[test]
fn genesis_yields_the_first_epoch_and_no_ended_epoch() {
    let data = ep_data(0, 0, None, vec![ep_transaction(1, vec![])]);
    let state = ep_system_state(0);
    let store = index_epoch(&data, Some(&state)).unwrap().unwrap();
    assert!(store.last_epoch.is_none());
    assert_eq!(store.new_epoch, DBEpochInfo { epoch_start_timestamp: 86_400_000, ..DBEpochInfo::default() });
    assert_eq!(store.new_epoch.epoch, 0);
    assert_eq!(store.new_epoch.first_checkpoint_id, 0);
    assert_eq!(store.system_state, index_system_state(&state));
    assert_eq!(store.validators.len(), 2);
    assert_eq!(route_epoch(&Some(store)), EpochRoute::CommitInline);
}

#[test]
fn an_epoch_boundary_yields_the_epoch_that_ended_and_the_one_that_starts() {
    let bytes = bcs::to_bytes(&ep_figures()).unwrap();
    let data = ep_data(
        4_321,
        6,
        Some(ep_end_of_epoch()),
        vec![ep_transaction(1, vec![]), ep_transaction(2, vec![ep_epoch_event(bytes)])],
    );
    let state = ep_system_state(7);
    let (_, epoch) = index_checkpoint(&data, Some(&state)).unwrap();
    let store = epoch.unwrap();
    let last = store.last_epoch.clone().unwrap();
    assert_eq!(last.epoch, 6);
    assert_eq!(last.first_checkpoint_id, 0);
    assert_eq!(last.last_checkpoint_id, Some(4_321));
    assert_eq!(last.epoch_start_timestamp, 0);
    assert_eq!(last.epoch_end_timestamp, Some(90_000_000));
    assert_eq!(last.epoch_total_transactions, 0);
    assert_eq!(last.next_epoch_version, Some(12));
    assert_eq!(last.next_epoch_committee, vec![Some(vec![0xaa; 96]), Some(vec![0xbb; 96])]);
    assert_eq!(last.next_epoch_committee_stake, vec![Some(2_500), Some(7_500)]);
    assert_eq!(last.epoch_commitments, vec![Some(vec![0xcd; 32])]);
    assert_eq!(last.protocol_version, Some(11));
    assert_eq!(last.reference_gas_price, Some(1000));
    assert_eq!(last.total_stake, Some(5_000_000));
    assert_eq!(last.storage_fund_reinvestment, Some(12));
    assert_eq!(last.storage_charge, Some(13));
    assert_eq!(last.storage_rebate, Some(14));
    assert_eq!(last.storage_fund_balance, Some(15));
    assert_eq!(last.stake_subsidy_amount, Some(16));
    assert_eq!(last.total_gas_fees, Some(17));
    assert_eq!(last.total_stake_rewards_distributed, Some(18));
    assert_eq!(last.leftover_storage_fund_inflow, Some(19));
    assert_eq!(
        store.new_epoch,
        DBEpochInfo {
            epoch: 7,
            first_checkpoint_id: 4_322,
            epoch_start_timestamp: 86_400_000,
            ..DBEpochInfo::default()
        }
    );
    assert_eq!(route_epoch(&Some(store)), EpochRoute::Enqueue);
}

#[test]
fn an_epoch_boundary_without_the_event_leaves_its_figures_null() {
    let data = ep_data(4_321, 6, Some(ep_end_of_epoch()), vec![ep_transaction(1, vec![])]);
    let state = ep_system_state(7);
    let store = index_epoch(&data, Some(&state)).unwrap().unwrap();
    let last = store.last_epoch.unwrap();
    assert_eq!(last.epoch, 6);
    assert_eq!(last.last_checkpoint_id, Some(4_321));
    assert_eq!(last.next_epoch_version, Some(12));
    assert_eq!(last.protocol_version, None);
    assert_eq!(last.reference_gas_price, None);
    assert_eq!(last.total_stake, None);
    assert_eq!(last.storage_fund_reinvestment, None);
    assert_eq!(last.storage_charge, None);
    assert_eq!(last.storage_rebate, None);
    assert_eq!(last.storage_fund_balance, None);
    assert_eq!(last.stake_subsidy_amount, None);
    assert_eq!(last.total_gas_fees, None);
    assert_eq!(last.total_stake_rewards_distributed, None);
    assert_eq!(last.leftover_storage_fund_inflow, None);
}

#[test]
fn a_checkpoint_in_the_middle_of_an_epoch_yields_no_epoch_records() {
    let data = ep_data(50, 6, None, vec![ep_transaction(1, vec![ep_epoch_event(vec![1])])]);
    assert_eq!(index_epoch(&data, None), Ok(None));
    assert_eq!(index_epoch(&data, Some(&ep_system_state(6))), Ok(None));
    assert_eq!(route_epoch(&None), EpochRoute::Nowhere);
}

#[test]
fn an_epoch_change_without_the_system_state_fails() {
    let genesis = ep_data(0, 0, None, vec![]);
    assert_eq!(index_epoch(&genesis, None), Err(IndexerError::SystemStateUnavailable));
    let boundary = ep_data(100, 6, Some(ep_end_of_epoch()), vec![]);
    assert_eq!(index_epoch(&boundary, None), Err(IndexerError::SystemStateUnavailable));
    assert_eq!(
        index_checkpoint(&boundary, None).map(|_| ()),
        Err(IndexerError::SystemStateUnavailable)
    );
}

#[test]
fn an_epoch_boundary_with_a_malformed_event_fails() {
    let data = ep_data(
        100,
        6,
        Some(ep_end_of_epoch()),
        vec![ep_transaction(1, vec![ep_epoch_event(vec![1, 2, 3])])],
    );
    let state = ep_system_state(7);
    assert_eq!(index_epoch(&data, Some(&state)), Err(IndexerError::EpochEventMalformed));
    assert_eq!(index_epoch(&data, None), Err(IndexerError::SystemStateUnavailable));
}

#[test]
fn genesis_does_not_read_the_epoch_event() {
    let data = ep_data(0, 0, Some(ep_end_of_epoch()), vec![ep_transaction(1, vec![ep_epoch_event(vec![1])])]);
    let store = index_epoch(&data, Some(&ep_system_state(0))).unwrap().unwrap();
    assert!(store.last_epoch.is_none());
    assert!(store.new_epoch.next_epoch_committee.is_empty());
}

#[test]
fn no_epoch_ended_exactly_at_the_first_checkpoint_of_the_chain() {
    let state = ep_system_state(1);
    for (seq, epoch) in [(0u64, 0u64), (0, 1), (1, 0), (7, 3)] {
        for end in [None, Some(ep_end_of_epoch())] {
            let data = ep_data(seq, epoch, end, vec![]);
            if let Some(store) = index_epoch(&data, Some(&state)).unwrap() {
                assert_eq!(store.last_epoch.is_none(), seq == 0 && epoch == 0);
            }
        }
    }
}

#[test]
fn the_committee_has_a_stake_for_every_name() {
    let members = ep_end_of_epoch().next_epoch_committee;
    let (names, stakes) = split_committee(&members);
    assert_eq!(names.len(), stakes.len());
    assert_eq!(names.len(), 2);
    for (name, stake) in names.iter().zip(stakes.iter()) {
        assert_eq!(name.is_none(), stake.is_none());
    }
    assert_eq!(names[1], Some(vec![0xbb; 96]));
    assert_eq!(stakes[1], Some(7_500));
    let (no_names, no_stakes) = split_committee(&vec![]);
    assert!(no_names.is_empty() && no_stakes.is_empty());
}

#[test]
fn commitments_are_flattened_to_their_digests() {
    let commitments = vec![
        CheckpointCommitment::ECMHLiveObjectSetDigest { digest: [1; 32] },
        CheckpointCommitment::ECMHLiveObjectSetDigest { digest: [2; 32] },
    ];
    assert_eq!(flatten_commitments(&commitments), vec![Some(vec![1; 32]), Some(vec![2; 32])]);
    assert!(flatten_commitments(&vec![]).is_empty());
}

#[test]
fn validators_are_recorded_in_the_epoch_of_the_system_state() {
    let state = ep_system_state(7);
    let rows = index_validators(&state);
    assert_eq!(
        rows[1],
        DBValidatorSummary {
            epoch: 7,
            sui_address: Address { bytes: [0xb1; 32] },
            voting_power: 7_500,
            gas_price: 900,
            commission_rate: 100,
            staking_pool_id: ObjectId { bytes: [0xb2; 32] },
            staking_pool_sui_balance: 7_500,
            next_epoch_stake: 7_400,
        }
    );
    assert_eq!(rows.len(), 2);
    assert_eq!(rows[0].epoch, 7);
    let system = index_system_state(&state);
    assert_eq!(system.epoch, 7);
    assert_eq!(system.protocol_version, 12);
    assert_eq!(system.reference_gas_price, 1000);
    assert_eq!(system.epoch_start_timestamp_ms, 86_400_000);
    assert_eq!(system.epoch_duration_ms, 86_400_000);
    assert_eq!(system.total_stake, 10_000);
    assert!(!system.safe_mode);
}

#[test]
fn the_epoch_before_the_first_is_minus_one() {
    let data = ep_data(5, 0, Some(ep_end_of_epoch()), vec![]);
    let store = index_epoch(&data, Some(&ep_system_state(0))).unwrap().unwrap();
    assert_eq!(store.last_epoch.unwrap().epoch, -1);
}

#[test]
fn a_default_epoch_record_is_empty() {
    let record = DBEpochInfo::default();
    assert_eq!(record, DBEpochInfo::starting(0, 0, 0));
    assert_eq!(record.epoch, 0);
    assert_eq!(record.last_checkpoint_id, None);
    assert!(record.next_epoch_committee.is_empty());
    assert!(record.next_epoch_committee_stake.is_empty());
    assert!(record.epoch_commitments.is_empty());
    assert_eq!(record.total_stake, None);
}
