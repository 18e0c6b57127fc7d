//! The event with which the system closes an epoch: finding it among the
//! events of a checkpoint, and reading its figures from its bytes.

use vstd::prelude::*;
use vstd::string::StringExecFns;
use crate::errors::IndexerError;
use crate::ids::{sui_system_address, system_address};
use crate::records::SystemEpochInfoEvent;
use crate::types::{Event, TransactionRecord};

verus! {

/// The number of bytes of an epoch event: twelve numbers of eight bytes.
pub const EPOCH_EVENT_LENGTH: usize = 96;

/// The number that eight bytes hold, the lowest byte first.
pub open spec fn le_u64(bytes: Seq<u8>) -> int
    recommends
        bytes.len() == 8,
{
    bytes[0] + bytes[1] * 0x100 + bytes[2] * 0x1_0000 + bytes[3] * 0x100_0000 + bytes[4]
        * 0x1_0000_0000 + bytes[5] * 0x100_0000_0000 + bytes[6] * 0x1_0000_0000_0000 + bytes[7]
        * 0x100_0000_0000_0000
}

/// The signed number that eight bytes hold, the lowest byte first, in two's
/// complement.
pub open spec fn le_i64(bytes: Seq<u8>) -> i64
    recommends
        bytes.len() == 8,
{
    if le_u64(bytes) < 0x8000_0000_0000_0000 {
        le_u64(bytes) as i64
    } else {
        (le_u64(bytes) - 0x1_0000_0000_0000_0000) as i64
    }
}

/// The `index`-th number of eight bytes in `bytes`.
pub open spec fn word_at(bytes: Seq<u8>, index: int) -> i64 {
    le_i64(bytes.subrange(8 * index, 8 * index + 8))
}

/// The error with which the BCS decoder rejects its input.
#[verifier::external_type_specification]
#[verifier::external_body]
pub struct ExBcsError(bcs::Error);

/// Calls `bcs::from_bytes` at the type of twelve signed numbers of 64 bits.
///
/// In BCS such an array has no length prefix and each number takes eight
/// bytes, the lowest first, so the decoder accepts exactly the inputs of 96
/// bytes: it fails on a shorter input when the bytes run out, and on a
/// longer one because input remains. The contract claims that, and that the
/// numbers returned are those that the bytes hold, in order.
#[verifier::external_body]
fn bcs_decode_words(bytes: &[u8]) -> (r: Result<[i64; 12], bcs::Error>)
    ensures
        r is Ok <==> bytes@.len() == EPOCH_EVENT_LENGTH,
        r matches Ok(words) ==> forall|k: int| 0 <= k < 12 ==> words@[k] == word_at(bytes@, k),
{
    bcs::from_bytes::<[i64; 12]>(bytes)
}

/// The figures that the bytes of an epoch event hold.
pub open spec fn epoch_info_event(bytes: Seq<u8>) -> SystemEpochInfoEvent {
    SystemEpochInfoEvent {
        epoch: word_at(bytes, 0),
        protocol_version: word_at(bytes, 1),
        reference_gas_price: word_at(bytes, 2),
        total_stake: word_at(bytes, 3),
        storage_fund_reinvestment: word_at(bytes, 4),
        storage_charge: word_at(bytes, 5),
        storage_rebate: word_at(bytes, 6),
        storage_fund_balance: word_at(bytes, 7),
        stake_subsidy_amount: word_at(bytes, 8),
        total_gas_fees: word_at(bytes, 9),
        total_stake_rewards_distributed: word_at(bytes, 10),
        leftover_storage_fund_inflow: word_at(bytes, 11),
    }
}

/// What reading an epoch event from `bytes` gives: its figures where the
/// bytes are as many as an epoch event has, and a failure otherwise.
pub open spec fn decoded_epoch_info_event(bytes: Seq<u8>) -> Result<
    SystemEpochInfoEvent,
    IndexerError,
> {
    if bytes.len() == EPOCH_EVENT_LENGTH {
        Ok(epoch_info_event(bytes))
    } else {
        Err(IndexerError::EpochEventMalformed)
    }
}

/// Reads the figures of an epoch event from its bytes.
pub fn decode_epoch_info_event(bytes: &[u8]) -> (r: Result<SystemEpochInfoEvent, IndexerError>)
    ensures
        r == decoded_epoch_info_event(bytes@),
{
    match bcs_decode_words(bytes) {
        Ok(words) => Ok(
            SystemEpochInfoEvent {
                epoch: words[0],
                protocol_version: words[1],
                reference_gas_price: words[2],
                total_stake: words[3],
                storage_fund_reinvestment: words[4],
                storage_charge: words[5],
                storage_rebate: words[6],
                storage_fund_balance: words[7],
                stake_subsidy_amount: words[8],
                total_gas_fees: words[9],
                total_stake_rewards_distributed: words[10],
                leftover_storage_fund_inflow: words[11],
            },
        ),
        Err(_) => Err(IndexerError::EpochEventMalformed),
    }
}

/// Whether `event` is the event with which the system closes an epoch: the
/// struct `SystemEpochInfoEvent` of the module `sui_system_state_inner`,
/// published at the system address.
pub open spec fn is_epoch_info_event(event: Event) -> bool {
    &&& event.type_.address == system_address()
    &&& event.type_.module@ == "sui_system_state_inner"@
    &&& event.type_.name@ == "SystemEpochInfoEvent"@
}

/// The first of `events` that closes an epoch.
pub open spec fn first_epoch_info_event(events: Seq<Event>) -> Option<Event>
    decreases events.len(),
{
    if events.len() == 0 {
        None
    } else {
        match first_epoch_info_event(events.drop_last()) {
            Some(event) => Some(event),
            None => if is_epoch_info_event(events.last()) {
                Some(events.last())
            } else {
                None
            },
        }
    }
}

/// The event that closes an epoch among the events of `transactions`: the
/// first such event of the first transaction that has one.
pub open spec fn epoch_info_event_among(transactions: Seq<TransactionRecord>) -> Option<Event>
    decreases transactions.len(),
{
    if transactions.len() == 0 {
        None
    } else {
        match epoch_info_event_among(transactions.drop_last()) {
            Some(event) => Some(event),
            None => first_epoch_info_event(transactions.last().events@),
        }
    }
}

/// [`first_epoch_info_event`] gives the earliest of `events` that closes an
/// epoch, and nothing where none does.
pub proof fn lemma_first_epoch_info_event(events: Seq<Event>)
    ensures
        match first_epoch_info_event(events) {
            Some(event) => exists|i: int|
                0 <= i < events.len() && #[trigger] events[i] == event && is_epoch_info_event(
                    event,
                ) && forall|j: int| 0 <= j < i ==> !is_epoch_info_event(#[trigger] events[j]),
            None => forall|j: int|
                0 <= j < events.len() ==> !is_epoch_info_event(#[trigger] events[j]),
        },
    decreases events.len(),
{
    if events.len() > 0 {
        let rest = events.drop_last();
        lemma_first_epoch_info_event(rest);
        assert forall|j: int| 0 <= j < rest.len() implies rest[j] == #[trigger] events[j] by {}
        match first_epoch_info_event(rest) {
            Some(event) => {
                let i = choose|i: int|
                    0 <= i < rest.len() && #[trigger] rest[i] == event && is_epoch_info_event(
                        event,
                    ) && forall|j: int| 0 <= j < i ==> !is_epoch_info_event(#[trigger] rest[j]);
                assert(events[i] == event);
                assert forall|j: int| 0 <= j < i implies !is_epoch_info_event(
                    #[trigger] events[j],
                ) by {
                    assert(rest[j] == events[j]);
                }
            },
            None => {
                if is_epoch_info_event(events.last()) {
                    let i = events.len() - 1;
                    assert(events[i] == events.last());
                    assert forall|j: int| 0 <= j < i implies !is_epoch_info_event(
                        #[trigger] events[j],
                    ) by {
                        assert(rest[j] == events[j]);
                    }
                } else {
                    assert forall|j: int| 0 <= j < events.len() implies !is_epoch_info_event(
                        #[trigger] events[j],
                    ) by {
                        if j < rest.len() {
                            assert(rest[j] == events[j]);
                        }
                    }
                }
            },
        }
    }
}

/// Whether `event` is the event with which the system closes an epoch.
pub fn closes_epoch(event: &Event) -> (r: bool)
    ensures
        r == is_epoch_info_event(*event),
{
    let module = String::from_str("sui_system_state_inner");
    let name = String::from_str("SystemEpochInfoEvent");
    event.type_.address == sui_system_address() && event.type_.module == module && event.type_.name
        == name
}

/// Finds the first of `events` that closes an epoch.
pub fn find_first_epoch_info_event(events: &Vec<Event>) -> (r: Option<&Event>)
    ensures
        match r {
            Some(event) => first_epoch_info_event(events@) == Some(*event),
            None => first_epoch_info_event(events@) is None,
        },
{
    let mut i: usize = 0;
    while i < events.len()
        invariant
            i <= events.len(),
            first_epoch_info_event(events@.take(i as int)) is None,
        decreases events.len() - i,
    {
        assert(events@.take(i + 1).drop_last() =~= events@.take(i as int));
        if closes_epoch(&events[i]) {
            proof {
                lemma_first_found_stays(events@, i + 1);
            }
            return Some(&events[i]);
        }
        i += 1;
    }
    assert(events@.take(events.len() as int) =~= events@);
    None
}

/// An event found among the first `n` of `events` is the one found among
/// all of them.
proof fn lemma_first_found_stays(events: Seq<Event>, n: int)
    requires
        0 <= n <= events.len(),
        first_epoch_info_event(events.take(n)) is Some,
    ensures
        first_epoch_info_event(events) == first_epoch_info_event(events.take(n)),
    decreases events.len() - n,
{
    if n < events.len() {
        assert(events.take(n + 1).drop_last() =~= events.take(n));
        lemma_first_found_stays(events, n + 1);
    } else {
        assert(events.take(n) =~= events);
    }
}

/// An event found among the first `n` of `transactions` is the one found
/// among all of them.
proof fn lemma_found_among_stays(transactions: Seq<TransactionRecord>, n: int)
    requires
        0 <= n <= transactions.len(),
        epoch_info_event_among(transactions.take(n)) is Some,
    ensures
        epoch_info_event_among(transactions) == epoch_info_event_among(transactions.take(n)),
    decreases transactions.len() - n,
{
    if n < transactions.len() {
        assert(transactions.take(n + 1).drop_last() =~= transactions.take(n));
        lemma_found_among_stays(transactions, n + 1);
    } else {
        assert(transactions.take(n) =~= transactions);
    }
}

/// Finds the event that closes an epoch among the events of `transactions`.
pub fn find_epoch_info_event(transactions: &Vec<TransactionRecord>) -> (r: Option<&Event>)
    ensures
        match r {
            Some(event) => epoch_info_event_among(transactions@) == Some(*event),
            None => epoch_info_event_among(transactions@) is None,
        },
{
    let mut i: usize = 0;
    while i < transactions.len()
        invariant
            i <= transactions.len(),
            epoch_info_event_among(transactions@.take(i as int)) is None,
        decreases transactions.len() - i,
    {
        assert(transactions@.take(i + 1).drop_last() =~= transactions@.take(i as int));
        match find_first_epoch_info_event(&transactions[i].events) {
            Some(event) => {
                proof {
                    lemma_found_among_stays(transactions@, i + 1);
                }
                return Some(event);
            },
            None => {},
        }
        i += 1;
    }
    assert(transactions@.take(transactions.len() as int) =~= transactions@);
    None
}

} // verus!
