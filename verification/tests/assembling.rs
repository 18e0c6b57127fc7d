use checkpoint_indexer::assembler::{
    collect_changed_objects, past_object_requests, transaction_digest_chunks,
};
use checkpoint_indexer::chunks::{collect_chunks, split_chunks, MULTI_GET_CHUNK_SIZE};
use checkpoint_indexer::errors::{IndexerError, PAST_OBJECT_MISSING};
use checkpoint_indexer::ids::{ObjectDigest, ObjectId, TransactionDigest};
use checkpoint_indexer::types::{
    CheckpointEnvelope, ObjectChange, ObjectData, ObjectDataOptions, ObjectRef, ObjectStatus,
    Owner, PastObjectRequest, PastObjectResponse, RawData,
};

fn as_id(n: u32) -> ObjectId {
    let mut bytes = [0u8; 32];
    bytes[..4].copy_from_slice(&n.to_le_bytes());
    ObjectId { bytes }
}

fn as_status(n: u32) -> ObjectStatus {
    match n % 3 {
        0 => ObjectStatus::Created,
        1 => ObjectStatus::Mutated,
        _ => ObjectStatus::Unwrapped,
    }
}

fn as_changes(count: u32) -> Vec<ObjectChange> {
    (0..count).map(|n| (as_id(n), u64::from(n) + 1, as_status(n))).collect()
}

fn as_object(request: &PastObjectRequest) -> ObjectData {
    ObjectData {
        object_id: request.object_id,
        version: request.version,
        digest: ObjectDigest { bytes: [0; 32] },
        owner: Owner::Immutable,
        previous_transaction: None,
        storage_rebate: 0,
        content: RawData::MoveObject { has_public_transfer: false, contents: vec![1, 2, 3] },
    }
}

fn as_answer(requests: &[PastObjectRequest]) -> Result<Vec<PastObjectResponse>, IndexerError> {
    Ok(requests.iter().map(|r| PastObjectResponse::VersionFound(as_object(r))).collect())
}

#[test]
fn chunk_size_is_five_hundred() {
    assert_eq!(MULTI_GET_CHUNK_SIZE, 500);
}

#[test]
fn thirteen_hundred_items_make_chunks_of_500_500_300() {
    let items: Vec<u32> = (0..1300).collect();
    let chunks = split_chunks(&items, 500);
    let sizes: Vec<usize> = chunks.iter().map(|c| c.len()).collect();
    assert_eq!(sizes, vec![500, 500, 300]);
    assert_eq!(chunks.concat(), items);
}

#[test]
fn a_multiple_of_the_chunk_size_leaves_no_short_chunk() {
    let items: Vec<u32> = (0..1000).collect();
    let sizes: Vec<usize> = split_chunks(&items, 500).iter().map(|c| c.len()).collect();
    assert_eq!(sizes, vec![500, 500]);
}

#[test]
fn an_empty_list_has_no_chunks() {
    let items: Vec<u32> = vec![];
    assert!(split_chunks(&items, 500).is_empty());
}

#[test]
fn a_short_list_is_one_chunk() {
    let items: Vec<u32> = vec![4, 5, 6];
    assert_eq!(split_chunks(&items, 500), vec![vec![4, 5, 6]]);
    assert_eq!(split_chunks(&items, 2), vec![vec![4, 5], vec![6]]);
    assert_eq!(split_chunks(&items, 1), vec![vec![4], vec![5], vec![6]]);
}

#[test]
fn transaction_digests_are_asked_in_chunks_of_at_most_500() {
    let envelope = CheckpointEnvelope {
        sequence_number: 1,
        epoch: 0,
        timestamp_ms: 0,
        transactions: (0..501u32)
            .map(|n| {
                let mut bytes = [0u8; 32];
                bytes[..4].copy_from_slice(&n.to_le_bytes());
                TransactionDigest { bytes }
            })
            .collect(),
        end_of_epoch_data: None,
    };
    let chunks = transaction_digest_chunks(&envelope);
    assert_eq!(chunks.len(), 2);
    assert_eq!(chunks[0].len(), 500);
    assert_eq!(chunks[1], vec![envelope.transactions[500]]);
}

#[test]
fn collected_chunks_keep_the_order_of_the_calls() {
    let chunks: Vec<Result<Vec<u8>, IndexerError>> = vec![Ok(vec![1, 2]), Ok(vec![]), Ok(vec![3])];
    assert_eq!(collect_chunks(chunks), Ok(vec![1, 2, 3]));
}

#[test]
fn collected_chunks_fail_with_the_first_failure() {
    let chunks: Vec<Result<Vec<u8>, IndexerError>> = vec![
        Ok(vec![1, 2]),
        Err(IndexerError::FullNodeReadingError("first".to_string())),
        Ok(vec![3]),
        Err(IndexerError::FullNodeReadingError("second".to_string())),
    ];
    assert_eq!(
        collect_chunks(chunks),
        Err(IndexerError::FullNodeReadingError("first".to_string()))
    );
}

#[test]
fn no_chunks_collect_to_nothing() {
    let chunks: Vec<Result<Vec<u8>, IndexerError>> = vec![];
    assert_eq!(collect_chunks(chunks), Ok(vec![]));
}

#[test]
fn past_object_requests_ask_for_each_change_at_its_version() {
    let changes = as_changes(3);
    let calls = past_object_requests(&changes);
    assert_eq!(
        calls,
        vec![vec![
            PastObjectRequest { object_id: as_id(0), version: 1 },
            PastObjectRequest { object_id: as_id(1), version: 2 },
            PastObjectRequest { object_id: as_id(2), version: 3 },
        ]]
    );
}

#[test]
fn thirteen_hundred_changed_objects_are_fetched_in_three_calls() {
    let changes = as_changes(1300);
    let calls = past_object_requests(&changes);
    let sizes: Vec<usize> = calls.iter().map(|c| c.len()).collect();
    assert_eq!(sizes, vec![500, 500, 300]);
    let answers = calls.iter().map(|c| as_answer(c)).collect();
    let objects = collect_changed_objects(&changes, answers).unwrap();
    assert_eq!(objects.len(), 1300);
    for (change, (status, object)) in changes.iter().zip(objects.iter()) {
        assert_eq!(*status, change.2);
        assert_eq!(object.object_id, change.0);
        assert_eq!(object.version, change.1);
    }
}

#[test]
fn every_change_has_its_object_when_the_node_answers_in_full() {
    let changes = as_changes(7);
    let calls = past_object_requests(&changes);
    let answers = calls.iter().map(|c| as_answer(c)).collect();
    let objects = collect_changed_objects(&changes, answers).unwrap();
    for change in &changes {
        let found = objects
            .iter()
            .filter(|(s, o)| *s == change.2 && o.object_id == change.0 && o.version == change.1)
            .count();
        assert_eq!(found, 1);
    }
}

#[test]
fn a_failed_call_fails_the_changed_objects() {
    let changes = as_changes(600);
    let calls = past_object_requests(&changes);
    let answers = vec![
        as_answer(&calls[0]),
        Err(IndexerError::SerdeError("node is down".to_string())),
    ];
    assert_eq!(
        collect_changed_objects(&changes, answers),
        Err(IndexerError::SerdeError("node is down".to_string()))
    );
}

#[test]
fn a_missing_object_fails_the_changed_objects() {
    let changes = as_changes(3);
    let calls = past_object_requests(&changes);
    let mut responses = as_answer(&calls[0]).unwrap();
    responses[1] = PastObjectResponse::VersionNotFound(as_id(1), 2);
    responses[2] = PastObjectResponse::ObjectNotExists(as_id(2));
    assert_eq!(
        collect_changed_objects(&changes, vec![Ok(responses)]),
        Err(IndexerError::SerdeError(PAST_OBJECT_MISSING.to_string()))
    );
}

#[test]
fn every_answer_but_an_object_is_a_failure() {
    let id = as_id(5);
    let reference = ObjectRef { object_id: id, version: 3, digest: ObjectDigest { bytes: [0; 32] } };
    let failure = Err(IndexerError::SerdeError(PAST_OBJECT_MISSING.to_string()));
    assert_eq!(failure, Err(IndexerError::past_object_missing()));
    assert_eq!(
        PAST_OBJECT_MISSING,
        "Failed to generate changed objects of checkpoint: past object not found"
    );
    assert_eq!(PastObjectResponse::ObjectNotExists(id).into_object(), failure);
    assert_eq!(PastObjectResponse::ObjectDeleted(reference).into_object(), failure);
    assert_eq!(PastObjectResponse::VersionNotFound(id, 3).into_object(), failure);
    assert_eq!(
        PastObjectResponse::VersionTooHigh { object_id: id, asked_version: 9, latest_version: 3 }
            .into_object(),
        failure
    );
    let object = as_object(&PastObjectRequest { object_id: id, version: 3 });
    assert_eq!(PastObjectResponse::VersionFound(object.clone()).into_object(), Ok(object));
}

#[test]
fn a_short_answer_leaves_the_last_changes_without_object() {
    let changes = as_changes(3);
    let calls = past_object_requests(&changes);
    let mut responses = as_answer(&calls[0]).unwrap();
    responses.pop();
    let objects = collect_changed_objects(&changes, vec![Ok(responses)]).unwrap();
    assert_eq!(objects.len(), 2);
    assert_eq!(objects[1].0, changes[1].2);
    assert_eq!(objects[1].1.object_id, changes[1].0);
}

#[test]
fn an_answer_without_a_call_is_left_out() {
    let changes = as_changes(2);
    let calls = past_object_requests(&changes);
    let answers = vec![
        as_answer(&calls[0]),
        Err(IndexerError::SerdeError("never asked".to_string())),
    ];
    assert_eq!(collect_changed_objects(&changes, answers).unwrap().len(), 2);
}

#[test]
fn no_changes_need_no_calls() {
    let changes: Vec<ObjectChange> = vec![];
    assert!(past_object_requests(&changes).is_empty());
    assert_eq!(collect_changed_objects(&changes, vec![]), Ok(vec![]));
}

#[test]
fn changed_objects_are_asked_for_without_loss() {
    assert_eq!(
        ObjectDataOptions::bcs_lossless(),
        ObjectDataOptions {
            show_type: true,
            show_owner: true,
            show_previous_transaction: true,
            show_storage_rebate: true,
            show_bcs: true,
        }
    );
}

#[test]
fn a_missing_object_in_a_later_call_fails_like_a_failed_call() {
    let changes = as_changes(501);
    let calls = past_object_requests(&changes);
    let missing = vec![
        as_answer(&calls[0]),
        Ok(vec![PastObjectResponse::ObjectNotExists(as_id(500))]),
    ];
    let failed = vec![
        as_answer(&calls[0]),
        Err(IndexerError::SerdeError("node is down".to_string())),
    ];
    assert!(matches!(
        collect_changed_objects(&changes, missing),
        Err(IndexerError::SerdeError(_))
    ));
    assert!(matches!(
        collect_changed_objects(&changes, failed),
        Err(IndexerError::SerdeError(_))
    ));
}
