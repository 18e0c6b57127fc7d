//! Assembling what was downloaded for one checkpoint.
//!
//! The envelope names the transactions of a checkpoint; their effects name
//! the objects that exist afterwards. Both are asked of the full node in
//! chunks of at most [`MULTI_GET_CHUNK_SIZE`] items. This module plans those
//! calls and puts their answers together. The calls themselves are made
//! elsewhere.

use vstd::prelude::*;
use vstd::seq_lib::*;
use crate::chunks::{chunk_views, chunked, lemma_chunked, split_chunks, MULTI_GET_CHUNK_SIZE};
use crate::errors::{past_object_missing, IndexerError, IndexerErrorView};
use crate::ids::TransactionDigest;
use crate::types::{
    CheckpointEnvelope, ObjectChange, ObjectData, ObjectStatus, PastObjectRequest,
    PastObjectResponse,
};

verus! {

/// Plans the calls for the transactions of the checkpoint `envelope`: its
/// digests in chunks of at most [`MULTI_GET_CHUNK_SIZE`].
pub fn transaction_digest_chunks(envelope: &CheckpointEnvelope) -> (r: Vec<Vec<TransactionDigest>>)
    ensures
        chunk_views(r@) == chunked(envelope.transactions@, MULTI_GET_CHUNK_SIZE as int),
{
    split_chunks(&envelope.transactions, MULTI_GET_CHUNK_SIZE)
}

/// The kinds of the changes `changes`, in order.
pub open spec fn statuses_of(changes: Seq<ObjectChange>) -> Seq<ObjectStatus> {
    changes.map_values(|c: ObjectChange| c.2)
}

/// The request for the object of the change `change` at the version that the
/// change gave it.
pub open spec fn request_of(change: ObjectChange) -> PastObjectRequest {
    PastObjectRequest { object_id: change.0, version: change.1 }
}

/// The requests for the objects of `changes`, in order.
pub open spec fn requests_of(changes: Seq<ObjectChange>) -> Seq<PastObjectRequest> {
    changes.map_values(|c: ObjectChange| request_of(c))
}

/// Plans the calls for the objects of `changes`: one request for each
/// change, in chunks of at most [`MULTI_GET_CHUNK_SIZE`].
pub fn past_object_requests(changes: &Vec<ObjectChange>) -> (r: Vec<Vec<PastObjectRequest>>)
    ensures
        chunk_views(r@) == chunked(requests_of(changes@), MULTI_GET_CHUNK_SIZE as int),
{
    let mut requests: Vec<PastObjectRequest> = Vec::new();
    let mut i: usize = 0;
    while i < changes.len()
        invariant
            i <= changes.len(),
            requests@ == requests_of(changes@).take(i as int),
        decreases changes.len() - i,
    {
        let change = &changes[i];
        requests.push(PastObjectRequest { object_id: change.0, version: change.1 });
        assert(requests@ =~= requests_of(changes@).take(i + 1));
        i += 1;
    }
    assert(requests@ =~= requests_of(changes@));
    split_chunks(&requests, MULTI_GET_CHUNK_SIZE)
}

/// The kinds of `changes`, in chunks of at most [`MULTI_GET_CHUNK_SIZE`].
fn status_chunks(changes: &Vec<ObjectChange>) -> (r: Vec<Vec<ObjectStatus>>)
    ensures
        chunk_views(r@) == chunked(statuses_of(changes@), MULTI_GET_CHUNK_SIZE as int),
{
    let mut statuses: Vec<ObjectStatus> = Vec::new();
    let mut i: usize = 0;
    while i < changes.len()
        invariant
            i <= changes.len(),
            statuses@ == statuses_of(changes@).take(i as int),
        decreases changes.len() - i,
    {
        statuses.push(changes[i].2);
        assert(statuses@ =~= statuses_of(changes@).take(i + 1));
        i += 1;
    }
    assert(statuses@ =~= statuses_of(changes@));
    split_chunks(&statuses, MULTI_GET_CHUNK_SIZE)
}

impl PastObjectResponse {
    /// The object that the full node found, or the failure that this answer
    /// stands for: every answer but an object is the same failure.
    pub open spec fn object(self) -> Result<ObjectData, IndexerErrorView> {
        match self {
            PastObjectResponse::VersionFound(object) => Ok(object),
            _ => Err(past_object_missing()),
        }
    }

    /// The object that the full node found. Every other answer is a failure.
    pub fn into_object(self) -> (r: Result<ObjectData, IndexerError>)
        ensures
            match r {
                Ok(object) => self.object() == Ok::<ObjectData, IndexerErrorView>(object),
                Err(e) => self.object() == Err::<ObjectData, IndexerErrorView>(e.deep_view()),
            },
    {
        match self {
            PastObjectResponse::VersionFound(object) => Ok(object),
            _ => Err(IndexerError::past_object_missing()),
        }
    }
}

/// The failure of the first of `responses` that is not an object.
pub open spec fn first_missing(responses: Seq<PastObjectResponse>) -> Option<IndexerErrorView>
    decreases responses.len(),
{
    if responses.len() == 0 {
        None
    } else {
        match first_missing(responses.drop_last()) {
            Some(e) => Some(e),
            None => match responses.last().object() {
                Err(e) => Some(e),
                Ok(_) => None,
            },
        }
    }
}

/// The object of an answer that found one.
pub open spec fn found_object(response: PastObjectResponse) -> ObjectData {
    match response {
        PastObjectResponse::VersionFound(object) => object,
        _ => arbitrary(),
    }
}

/// The objects of `responses`, each with the kind of change at the same
/// place in `statuses`. Where one list is longer than the other, what it
/// holds beyond the other's end is left out.
pub open spec fn paired(statuses: Seq<ObjectStatus>, responses: Seq<PastObjectResponse>) -> Seq<
    (ObjectStatus, ObjectData),
> {
    Seq::new(
        if statuses.len() <= responses.len() {
            statuses.len()
        } else {
            responses.len()
        },
        |i: int| (statuses[i], found_object(responses[i])),
    )
}

/// The changed objects that the answer to one call gives, where `statuses`
/// are the kinds of the changes that the call asked about: the failure of
/// the call, or the failure of its first response that is not an object, or
/// else the objects paired with the kinds.
pub open spec fn chunk_changed_objects(
    statuses: Seq<ObjectStatus>,
    answer: Result<Vec<PastObjectResponse>, IndexerError>,
) -> Result<Seq<(ObjectStatus, ObjectData)>, IndexerErrorView> {
    match answer {
        Err(e) => Err(e.deep_view()),
        Ok(responses) => match first_missing(responses@) {
            Some(e) => Err(e),
            None => Ok(paired(statuses, responses@)),
        },
    }
}

/// The changed objects that the first `n` answers give, where
/// `status_chunks` are the kinds of the changes that each call asked about:
/// the first failure, or else the changed objects of all `n`, call by call.
pub open spec fn changed_objects_upto(
    status_chunks: Seq<Seq<ObjectStatus>>,
    answers: Seq<Result<Vec<PastObjectResponse>, IndexerError>>,
    n: nat,
) -> Result<Seq<(ObjectStatus, ObjectData)>, IndexerErrorView>
    decreases n,
{
    if n == 0 {
        Ok(Seq::empty())
    } else {
        match changed_objects_upto(status_chunks, answers, (n - 1) as nat) {
            Err(e) => Err(e),
            Ok(before) => match chunk_changed_objects(status_chunks[n - 1], answers[n - 1]) {
                Err(e) => Err(e),
                Ok(more) => Ok(before + more),
            },
        }
    }
}

/// The changed objects that the answers `answers` to the calls planned by
/// [`past_object_requests`] give for `changes`. The answers stand in the
/// order of the calls; an answer without a call, or a call without an
/// answer, is left out.
pub open spec fn fetched_changed_objects(
    changes: Seq<ObjectChange>,
    answers: Seq<Result<Vec<PastObjectResponse>, IndexerError>>,
) -> Result<Seq<(ObjectStatus, ObjectData)>, IndexerErrorView> {
    let status_chunks = chunked(statuses_of(changes), MULTI_GET_CHUNK_SIZE as int);
    changed_objects_upto(
        status_chunks,
        answers,
        if status_chunks.len() <= answers.len() {
            status_chunks.len()
        } else {
            answers.len()
        },
    )
}

/// A failure among the first `n` answers is the failure of any more.
proof fn lemma_failure_stays(
    status_chunks: Seq<Seq<ObjectStatus>>,
    answers: Seq<Result<Vec<PastObjectResponse>, IndexerError>>,
    n: nat,
    m: nat,
)
    requires
        n <= m,
        changed_objects_upto(status_chunks, answers, n) is Err,
    ensures
        changed_objects_upto(status_chunks, answers, m) == changed_objects_upto(
            status_chunks,
            answers,
            n,
        ),
    decreases m - n,
{
    if n < m {
        lemma_failure_stays(status_chunks, answers, n, (m - 1) as nat);
    }
}

/// A response among the first `n` that is not an object is the first
/// missing of all.
proof fn lemma_first_missing_stays(responses: Seq<PastObjectResponse>, n: int)
    requires
        0 <= n <= responses.len(),
        first_missing(responses.take(n)) is Some,
    ensures
        first_missing(responses) == first_missing(responses.take(n)),
    decreases responses.len() - n,
{
    if n < responses.len() {
        assert(responses.take(n + 1).drop_last() =~= responses.take(n));
        lemma_first_missing_stays(responses, n + 1);
    } else {
        assert(responses.take(n) =~= responses);
    }
}

/// Puts together the answers to the calls planned by
/// [`past_object_requests`] for `object_changes`: the objects found, each
/// with the kind of its change, in the order of the changes; or the first
/// failure.
pub fn collect_changed_objects(
    object_changes: &Vec<ObjectChange>,
    answers: Vec<Result<Vec<PastObjectResponse>, IndexerError>>,
) -> (r: Result<Vec<(ObjectStatus, ObjectData)>, IndexerError>)
    ensures
        match r {
            Ok(objects) => fetched_changed_objects(object_changes@, answers@) == Ok::<
                Seq<(ObjectStatus, ObjectData)>,
                IndexerErrorView,
            >(objects@),
            Err(e) => fetched_changed_objects(object_changes@, answers@) == Err::<
                Seq<(ObjectStatus, ObjectData)>,
                IndexerErrorView,
            >(e.deep_view()),
        },
{
    let chunks = status_chunks(object_changes);
    let ghost views = chunk_views(chunks@);
    let ghost all = answers@;
    let ghost bound: nat = if views.len() <= all.len() {
        views.len()
    } else {
        all.len()
    };
    let mut out: Vec<(ObjectStatus, ObjectData)> = Vec::new();
    let mut k: usize = 0;
    for answer in it: answers
        invariant
            it.seq() == all,
            views == chunk_views(chunks@),
            views == chunked(statuses_of(object_changes@), MULTI_GET_CHUNK_SIZE as int),
            views.len() == chunks.len(),
            k == it.index(),
            k <= chunks.len(),
            bound == (if views.len() <= all.len() {
                views.len()
            } else {
                all.len()
            }),
            changed_objects_upto(views, all, k as nat) == Ok::<
                Seq<(ObjectStatus, ObjectData)>,
                IndexerErrorView,
            >(out@),
    {
        if k >= chunks.len() {
            return Ok(out);
        }
        let statuses = &chunks[k];
        assert(views[k as int] == statuses@);
        match answer {
            Err(e) => {
                proof {
                    lemma_failure_stays(views, all, (k + 1) as nat, bound);
                }
                return Err(e);
            },
            Ok(responses) => {
                let ghost before = out@;
                let ghost asked = responses@;
                assert(asked.len() == responses.len());
                let mut j: usize = 0;
                assert(paired(statuses@, asked.take(0)) =~= Seq::<
                    (ObjectStatus, ObjectData),
                >::empty());
                for response in jt: responses
                    invariant
                        jt.seq() == asked,
                        j == jt.index(),
                        all == answers@,
                        views == chunked(statuses_of(object_changes@), MULTI_GET_CHUNK_SIZE as int),
                        asked.len() <= usize::MAX,
                        views.len() == chunks.len(),
                        statuses@ == views[k as int],
                        all[k as int] == Ok::<Vec<PastObjectResponse>, IndexerError>(responses),
                        asked == responses@,
                        k < chunks.len(),
                        k < all.len(),
                        bound == (if views.len() <= all.len() {
                            views.len()
                        } else {
                            all.len()
                        }),
                        changed_objects_upto(views, all, k as nat) == Ok::<
                Seq<(ObjectStatus, ObjectData)>,
                IndexerErrorView,
            >(before),
                        first_missing(asked.take(j as int)) is None,
                        out@ == before + paired(statuses@, asked.take(j as int)),
                {
                    proof {
                        assert(asked.take(j + 1).drop_last() =~= asked.take(j as int));
                    }
                    match response.into_object() {
                        Err(e) => {
                            proof {
                                lemma_first_missing_stays(asked, j + 1);
                                lemma_failure_stays(views, all, (k + 1) as nat, bound);
                            }
                            return Err(e);
                        },
                        Ok(object) => {
                            if j < statuses.len() {
                                out.push((statuses[j], object));
                            }
                            assert(out@ =~= before + paired(statuses@, asked.take(j + 1)));
                        },
                    }
                    j += 1;
                }
                assert(asked.take(asked.len() as int) =~= asked);
            },
        }
        k += 1;
    }
    Ok(out)
}

/// Whether `entry` is the object of the change `change` after it: the kind
/// of change, and the object with the id and at the version of the change.
pub open spec fn answers_change(change: ObjectChange, entry: (ObjectStatus, ObjectData)) -> bool {
    &&& entry.0 == change.2
    &&& entry.1.object_id == change.0
    &&& entry.1.version == change.1
}

/// Whether `answer` answers the call `requests` in full: an object for each
/// request, in the order of the requests, with the id and at the version
/// asked for.
pub open spec fn answers_in_full(
    requests: Seq<PastObjectRequest>,
    answer: Result<Vec<PastObjectResponse>, IndexerError>,
) -> bool {
    &&& answer matches Ok(responses)
    &&& responses@.len() == requests.len()
    &&& forall|j: int|
        0 <= j < requests.len() ==> ((#[trigger] responses@[j]) matches PastObjectResponse::VersionFound(
            object,
        ) && object.object_id == requests[j].object_id && object.version == requests[j].version)
}

/// Whether `answers` answer in full the calls planned for `changes`, one
/// answer for each call.
pub open spec fn all_answered_in_full(
    changes: Seq<ObjectChange>,
    answers: Seq<Result<Vec<PastObjectResponse>, IndexerError>>,
) -> bool {
    let calls = chunked(requests_of(changes), MULTI_GET_CHUNK_SIZE as int);
    &&& answers.len() == calls.len()
    &&& forall|k: int| 0 <= k < calls.len() ==> answers_in_full(calls[k], #[trigger] answers[k])
}

/// Responses that are all objects have no first missing one.
proof fn lemma_none_missing(responses: Seq<PastObjectResponse>)
    requires
        forall|j: int|
            0 <= j < responses.len() ==> (#[trigger] responses[j]) is VersionFound,
    ensures
        first_missing(responses) is None,
    decreases responses.len(),
{
    if responses.len() > 0 {
        let rest = responses.drop_last();
        assert forall|j: int| 0 <= j < rest.len() implies (#[trigger] rest[j]) is VersionFound by {
            assert(rest[j] == responses[j]);
        }
        lemma_none_missing(rest);
        assert(responses.last() == responses[responses.len() - 1]);
    }
}

/// What the first `n` calls give where every call is answered in full: the
/// objects of the first changes, as many as those calls asked about.
proof fn lemma_fan_out_upto(
    changes: Seq<ObjectChange>,
    answers: Seq<Result<Vec<PastObjectResponse>, IndexerError>>,
    n: nat,
)
    requires
        all_answered_in_full(changes, answers),
        n <= chunked(requests_of(changes), MULTI_GET_CHUNK_SIZE as int).len(),
    ensures
        changed_objects_upto(
            chunked(statuses_of(changes), MULTI_GET_CHUNK_SIZE as int),
            answers,
            n,
        ) matches Ok(objects) && objects.len() == (if n * 500 <= changes.len() {
            n * 500
        } else {
            changes.len()
        }) && forall|i: int|
            0 <= i < objects.len() ==> answers_change(changes[i], #[trigger] objects[i]),
    decreases n,
{
    let statuses = statuses_of(changes);
    let requests = requests_of(changes);
    let status_chunks = chunked(statuses, 500);
    let calls = chunked(requests, 500);
    lemma_chunked(statuses, 500);
    lemma_chunked(requests, 500);
    assert(statuses.len() == changes.len());
    assert(requests.len() == changes.len());
    if n > 0 {
        let k = n - 1;
        lemma_fan_out_upto(changes, answers, k as nat);
        let before = changed_objects_upto(status_chunks, answers, k as nat)->Ok_0;
        let lo = k * 500;
        let hi = if (k + 1) * 500 <= changes.len() {
            (k + 1) * 500
        } else {
            changes.len() as int
        };
        assert(lo < changes.len());
        assert(status_chunks[k] == statuses.subrange(lo, hi));
        assert(calls[k] == requests.subrange(lo, hi));
        assert(answers_in_full(calls[k], answers[k]));
        let responses = answers[k]->Ok_0@;
        assert forall|j: int| 0 <= j < responses.len() implies (
        #[trigger] responses[j]) is VersionFound by {}
        lemma_none_missing(responses);
        let more = paired(status_chunks[k], responses);
        assert(chunk_changed_objects(status_chunks[k], answers[k]) == Ok::<
                Seq<(ObjectStatus, ObjectData)>,
                IndexerErrorView,
            >(more));
        let objects = before + more;
        assert(changed_objects_upto(status_chunks, answers, n) == Ok::<
                Seq<(ObjectStatus, ObjectData)>,
                IndexerErrorView,
            >(objects));
        assert(before.len() == lo);
        assert(more.len() == hi - lo);
        assert forall|i: int| 0 <= i < objects.len() implies answers_change(
            changes[i],
            #[trigger] objects[i],
        ) by {
            if i >= lo {
                let j = i - lo;
                assert(objects[i] == more[j]);
                assert(more[j] == (status_chunks[k][j], found_object(responses[j])));
                assert(status_chunks[k][j] == statuses[lo + j]);
                assert(calls[k][j] == requests[lo + j]);
                assert(responses[j] is VersionFound);
            } else {
                assert(objects[i] == before[i]);
            }
        }
    }
}

/// Where the full node answers every call in full, every change that a
/// transaction of the checkpoint made to an object which exists afterwards
/// has its object among the changed objects: there are as many changed
/// objects as changes, and the object at each place is the one of the change
/// at that place, with the kind of that change.
pub proof fn lemma_fan_out_complete(
    changes: Seq<ObjectChange>,
    answers: Seq<Result<Vec<PastObjectResponse>, IndexerError>>,
)
    requires
        all_answered_in_full(changes, answers),
    ensures
        fetched_changed_objects(changes, answers) matches Ok(objects) && objects.len()
            == changes.len() && forall|i: int|
            0 <= i < changes.len() ==> answers_change(changes[i], #[trigger] objects[i]),
{
    let statuses = statuses_of(changes);
    let requests = requests_of(changes);
    lemma_chunked(statuses, 500);
    lemma_chunked(requests, 500);
    assert(statuses.len() == changes.len());
    assert(requests.len() == changes.len());
    let n = chunked(requests, 500).len();
    assert(chunked(statuses, 500).len() == n);
    lemma_fan_out_upto(changes, answers, n);
    assert(n * 500 >= changes.len());
}

} // verus!
