//! What the three stages of the indexer decide between one step and the
//! next.
//!
//! The download stage fetches and indexes one checkpoint after another and
//! offers each to a bounded queue. The checkpoint commit stage takes them
//! from the queue and writes them to the store. The epoch commit stage does
//! the same for the records of epoch changes. The stages wait on the full
//! node, on the store and on one another; that waiting is done by whoever
//! runs them. Each stage is given here as a state that says what to do next,
//! and a step that takes the stage from one state to the next when it is told
//! what came of what it did.

use vstd::prelude::*;
use crate::records::{TemporaryCheckpointStore, TemporaryEpochStore};
use crate::types::CheckpointSequenceNumber;

verus! {

/// How long a stage waits before it is started again after a failure, in
/// seconds.
pub const DOWNLOAD_RETRY_INTERVAL_IN_SECS: u64 = 10;

/// How long a commit stage waits before it writes again what the store
/// refused, in milliseconds.
pub const DB_COMMIT_RETRY_INTERVAL_IN_MILLIS: u64 = 100;

/// How long the download stage waits before it asks again for a checkpoint
/// that the full node does not have yet, in milliseconds.
pub const RPC_AVAILABILITY_POLL_INTERVAL_IN_MILLIS: u64 = 100;

/// How long the checkpoint commit stage waits when its queue gave nothing,
/// in milliseconds.
pub const CHECKPOINT_EMPTY_POLL_INTERVAL_IN_MILLIS: u64 = 100;

/// How long the epoch commit stage waits when its queue gave nothing, in
/// milliseconds.
pub const EPOCH_EMPTY_POLL_INTERVAL_IN_MILLIS: u64 = 1000;

/// The number of indexed checkpoints that the queue to the commit stage
/// holds at most.
pub const CHECKPOINT_QUEUE_LIMIT: usize = 10;

/// The number of epoch changes that the queue to the epoch commit stage
/// holds at most.
pub const EPOCH_QUEUE_LIMIT: usize = 2;

/// The checkpoint with which the download stage starts, where `latest` is
/// the number of the last checkpoint in the store, or -1 if the store has
/// none: the one after `latest`, and never one before the first.
pub open spec fn resume_point(latest: int) -> int {
    if latest + 1 > 0 {
        latest + 1
    } else {
        0
    }
}

/// The checkpoint with which the download stage starts, where
/// `last_seq_from_db` is the number of the last checkpoint in the store, or
/// -1 if the store has none.
pub fn resume_cursor(last_seq_from_db: i64) -> (r: CheckpointSequenceNumber)
    ensures
        r == resume_point(last_seq_from_db as int),
{
    if last_seq_from_db < 0 {
        0
    } else {
        last_seq_from_db as u64 + 1
    }
}

/// The checkpoint after `cursor`, if the numbers have not run out.
pub fn next_cursor(cursor: CheckpointSequenceNumber) -> (r: Option<CheckpointSequenceNumber>)
    ensures
        cursor < u64::MAX ==> r == Some((cursor + 1) as u64),
        cursor == u64::MAX ==> r is None,
{
    cursor.checked_add(1)
}

/// Where the records of an epoch change go once their checkpoint has been
/// offered to the commit stage.
#[derive(Clone, Copy, Debug, PartialEq, Eq, Structural)]
pub enum EpochRoute {
    /// The checkpoint yielded none.
    Nowhere,
    /// To the store at once, before the download stage goes on: the records
    /// of the first epoch.
    CommitInline,
    /// To the queue of the epoch commit stage.
    Enqueue,
}

/// Where the records `epoch` go: those with which the chain starts are
/// written at once, those of any later epoch change are queued.
pub open spec fn epoch_route(epoch: Option<TemporaryEpochStore>) -> EpochRoute {
    match epoch {
        None => EpochRoute::Nowhere,
        Some(store) => if store.last_epoch is None {
            EpochRoute::CommitInline
        } else {
            EpochRoute::Enqueue
        },
    }
}

/// Says where the records of an epoch change go.
pub fn route_epoch(epoch: &Option<TemporaryEpochStore>) -> (r: EpochRoute)
    ensures
        r == epoch_route(*epoch),
{
    match epoch {
        None => EpochRoute::Nowhere,
        Some(store) => if store.last_epoch.is_none() {
            EpochRoute::CommitInline
        } else {
            EpochRoute::Enqueue
        },
    }
}

/// What failed, for the one who decides whether and when to try again.
#[derive(Clone, Copy, Debug, PartialEq, Eq, Structural)]
pub enum Failure {
    /// The full node could not serve the checkpoint asked for.
    CheckpointUnavailable,
    /// The store refused a write of a commit stage.
    CommitRefused,
    /// A stage ended with a failure.
    StageFailed,
}

/// How long to wait after the failure `failure` before trying again, in
/// milliseconds. Every failure is tried again, without end.
pub open spec fn retry_interval_millis(failure: Failure) -> u64 {
    match failure {
        Failure::CheckpointUnavailable => RPC_AVAILABILITY_POLL_INTERVAL_IN_MILLIS,
        Failure::CommitRefused => DB_COMMIT_RETRY_INTERVAL_IN_MILLIS,
        Failure::StageFailed => 10_000,
    }
}

/// Says how long to wait after `failure` before trying again, in
/// milliseconds.
pub fn retry_after(failure: Failure) -> (r: u64)
    ensures
        r == retry_interval_millis(failure),
        failure == Failure::StageFailed ==> r == DOWNLOAD_RETRY_INTERVAL_IN_SECS * 1000,
{
    match failure {
        Failure::CheckpointUnavailable => RPC_AVAILABILITY_POLL_INTERVAL_IN_MILLIS,
        Failure::CommitRefused => DB_COMMIT_RETRY_INTERVAL_IN_MILLIS,
        Failure::StageFailed => DOWNLOAD_RETRY_INTERVAL_IN_SECS * 1000,
    }
}

/// What the download stage does next.
///
/// The stage reads the last checkpoint of the store once, and then, for one
/// checkpoint after another: asks the full node for it until the node has
/// it, downloads what belongs to it and indexes it, offers it to the commit
/// stage, sends the records of an epoch change on their way, and hands its
/// events to the subscribers. Whatever else fails, the stage waits and
/// starts again from the store.
#[derive(Clone, Copy, Debug, PartialEq, Eq, Structural)]
pub enum DownloadStage {
    /// Read the number of the last checkpoint in the store.
    ReadStore,
    /// Ask the full node for the checkpoint `cursor`.
    FetchCheckpoint { cursor: CheckpointSequenceNumber },
    /// The full node did not serve the checkpoint: wait, then ask again.
    AwaitCheckpoint { cursor: CheckpointSequenceNumber, wait_millis: u64 },
    /// Download the transactions and the changed objects of the checkpoint,
    /// and index it.
    Assemble { cursor: CheckpointSequenceNumber },
    /// Offer the indexed checkpoint to the queue of the commit stage.
    SendCheckpoint { cursor: CheckpointSequenceNumber, route: EpochRoute },
    /// Write the records of the first epoch to the store.
    PersistEpoch { cursor: CheckpointSequenceNumber },
    /// Offer the records of the epoch change to the queue of the epoch
    /// commit stage.
    SendEpoch { cursor: CheckpointSequenceNumber },
    /// Hand the events of the checkpoint to the subscribers.
    ProcessEvents { cursor: CheckpointSequenceNumber },
    /// Wait, then start again.
    Failed { wait_millis: u64 },
}

/// What happened to what the download stage last did.
#[derive(Clone, Copy, Debug, PartialEq, Eq, Structural)]
pub enum DownloadEvent {
    /// The store gave the number of its last checkpoint, or -1 for none.
    StoreRead { last_seq_from_db: i64 },
    /// The checkpoint was assembled and indexed; the records of its epoch
    /// change, if it has any, go `route`.
    Indexed { route: EpochRoute },
    /// What the stage did is done.
    Done,
    /// What the stage did failed.
    Failed,
    /// The wait is over.
    Waited,
}

/// The step of the download stage from `stage` on `event`.
///
/// A full node that fails to serve the checkpoint is asked again after a
/// short wait, whatever its failure, without end. Every other failure sends
/// the stage back to the store after a long wait. An event that does not
/// answer what the stage did leaves the stage as it is.
pub open spec fn download_stage_next(stage: DownloadStage, event: DownloadEvent) -> DownloadStage {
    match (stage, event) {
        (DownloadStage::Failed { .. }, DownloadEvent::Waited) => DownloadStage::ReadStore,
        (DownloadStage::Failed { .. }, _) => stage,
        (DownloadStage::FetchCheckpoint { cursor }, DownloadEvent::Failed) => {
            DownloadStage::AwaitCheckpoint {
                cursor,
                wait_millis: retry_interval_millis(Failure::CheckpointUnavailable),
            }
        },
        (_, DownloadEvent::Failed) => DownloadStage::Failed {
            wait_millis: retry_interval_millis(Failure::StageFailed),
        },
        (DownloadStage::ReadStore, DownloadEvent::StoreRead { last_seq_from_db }) => {
            DownloadStage::FetchCheckpoint { cursor: resume_point(last_seq_from_db as int) as u64 }
        },
        (DownloadStage::FetchCheckpoint { cursor }, DownloadEvent::Done) => DownloadStage::Assemble {
            cursor,
        },
        (DownloadStage::AwaitCheckpoint { cursor, .. }, DownloadEvent::Waited) => {
            DownloadStage::FetchCheckpoint { cursor }
        },
        (DownloadStage::Assemble { cursor }, DownloadEvent::Indexed { route }) => {
            DownloadStage::SendCheckpoint { cursor, route }
        },
        (DownloadStage::SendCheckpoint { cursor, route }, DownloadEvent::Done) => match route {
            EpochRoute::Nowhere => DownloadStage::ProcessEvents { cursor },
            EpochRoute::CommitInline => DownloadStage::PersistEpoch { cursor },
            EpochRoute::Enqueue => DownloadStage::SendEpoch { cursor },
        },
        (DownloadStage::PersistEpoch { cursor }, DownloadEvent::Done) => {
            DownloadStage::ProcessEvents { cursor }
        },
        (DownloadStage::SendEpoch { cursor }, DownloadEvent::Done) => DownloadStage::ProcessEvents {
            cursor,
        },
        (DownloadStage::ProcessEvents { cursor }, DownloadEvent::Done) => if cursor < u64::MAX {
            DownloadStage::FetchCheckpoint { cursor: (cursor + 1) as u64 }
        } else {
            DownloadStage::Failed { wait_millis: retry_interval_millis(Failure::StageFailed) }
        },
        _ => stage,
    }
}

impl DownloadStage {
    /// The stage as it starts.
    pub fn new() -> (r: DownloadStage)
        ensures
            r == DownloadStage::ReadStore,
    {
        DownloadStage::ReadStore
    }

    /// The checkpoint that the stage is working on, once it has read the
    /// store.
    pub open spec fn cursor(self) -> Option<CheckpointSequenceNumber> {
        match self {
            DownloadStage::ReadStore => None,
            DownloadStage::Failed { .. } => None,
            DownloadStage::FetchCheckpoint { cursor } => Some(cursor),
            DownloadStage::AwaitCheckpoint { cursor, .. } => Some(cursor),
            DownloadStage::Assemble { cursor } => Some(cursor),
            DownloadStage::SendCheckpoint { cursor, .. } => Some(cursor),
            DownloadStage::PersistEpoch { cursor } => Some(cursor),
            DownloadStage::SendEpoch { cursor } => Some(cursor),
            DownloadStage::ProcessEvents { cursor } => Some(cursor),
        }
    }

    /// Takes the step of the download stage on `event`.
    pub fn step(self, event: DownloadEvent) -> (r: DownloadStage)
        ensures
            r == download_stage_next(self, event),
    {
        match (self, event) {
            (DownloadStage::Failed { .. }, DownloadEvent::Waited) => DownloadStage::ReadStore,
            (DownloadStage::Failed { .. }, _) => self,
            (DownloadStage::FetchCheckpoint { cursor }, DownloadEvent::Failed) => {
                DownloadStage::AwaitCheckpoint {
                    cursor,
                    wait_millis: retry_after(Failure::CheckpointUnavailable),
                }
            },
            (_, DownloadEvent::Failed) => DownloadStage::Failed {
                wait_millis: retry_after(Failure::StageFailed),
            },
            (DownloadStage::ReadStore, DownloadEvent::StoreRead { last_seq_from_db }) => {
                DownloadStage::FetchCheckpoint { cursor: resume_cursor(last_seq_from_db) }
            },
            (DownloadStage::FetchCheckpoint { cursor }, DownloadEvent::Done) => {
                DownloadStage::Assemble { cursor }
            },
            (DownloadStage::AwaitCheckpoint { cursor, .. }, DownloadEvent::Waited) => {
                DownloadStage::FetchCheckpoint { cursor }
            },
            (DownloadStage::Assemble { cursor }, DownloadEvent::Indexed { route }) => {
                DownloadStage::SendCheckpoint { cursor, route }
            },
            (DownloadStage::SendCheckpoint { cursor, route }, DownloadEvent::Done) => match route {
                EpochRoute::Nowhere => DownloadStage::ProcessEvents { cursor },
                EpochRoute::CommitInline => DownloadStage::PersistEpoch { cursor },
                EpochRoute::Enqueue => DownloadStage::SendEpoch { cursor },
            },
            (DownloadStage::PersistEpoch { cursor }, DownloadEvent::Done) => {
                DownloadStage::ProcessEvents { cursor }
            },
            (DownloadStage::SendEpoch { cursor }, DownloadEvent::Done) => {
                DownloadStage::ProcessEvents { cursor }
            },
            (DownloadStage::ProcessEvents { cursor }, DownloadEvent::Done) => match next_cursor(
                cursor,
            ) {
                Some(next) => DownloadStage::FetchCheckpoint { cursor: next },
                None => DownloadStage::Failed { wait_millis: retry_after(Failure::StageFailed) },
            },
            _ => self,
        }
    }
}

/// The download stage goes from one checkpoint to the next only when the
/// checkpoint has been offered to the commit stage and its events have been
/// handed on; until then, and whatever else happens, it stays at its
/// checkpoint or starts again from the store.
pub proof fn lemma_download_stage_advances_by_one(stage: DownloadStage, event: DownloadEvent)
    ensures
        match (stage.cursor(), download_stage_next(stage, event).cursor()) {
            (Some(before), Some(after)) => after == before || (after == before + 1 && stage
                is ProcessEvents && event == DownloadEvent::Done),
            (Some(_), None) => download_stage_next(stage, event) is Failed,
            (None, Some(after)) => stage is ReadStore && event is StoreRead && after == resume_point(
                event->last_seq_from_db as int,
            ),
            (None, None) => true,
        },
{
}

/// The download stage waits for a checkpoint that the full node does not
/// serve: as long as the node fails to serve it, the stage asks again after
/// the short wait, and never starts again from the store on that account.
pub proof fn lemma_download_stage_waits_for_checkpoint(
    cursor: CheckpointSequenceNumber,
    wait_millis: u64,
)
    ensures
        download_stage_next(DownloadStage::FetchCheckpoint { cursor }, DownloadEvent::Failed)
            == (DownloadStage::AwaitCheckpoint {
            cursor,
            wait_millis: RPC_AVAILABILITY_POLL_INTERVAL_IN_MILLIS,
        }),
        download_stage_next(
            DownloadStage::AwaitCheckpoint { cursor, wait_millis },
            DownloadEvent::Waited,
        ) == (DownloadStage::FetchCheckpoint { cursor }),
{
}

/// What a commit stage does next.
///
/// The stage takes one item after another from its queue and writes it to
/// the store. An item that the store refuses is written again, after a wait,
/// until the store takes it.
#[derive(Clone, Debug, PartialEq, Eq)]
pub enum CommitStage<T> {
    /// Take the next item from the queue.
    Receive,
    /// The queue gave nothing: wait, then take the next item from the queue.
    Idle { wait_millis: u64 },
    /// Write the item to the store.
    Persist { item: T },
    /// The store refused the item: wait, then write it again.
    Retry { item: T, wait_millis: u64 },
}

/// What happened to what a commit stage last did.
#[derive(Clone, Debug, PartialEq, Eq)]
pub enum CommitEvent<T> {
    /// The queue gave `item`, or nothing.
    Received { item: Option<T> },
    /// The wait is over.
    Waited,
    /// The store took the item, or refused it.
    Persisted { accepted: bool },
}

/// The step of a commit stage from `stage` on `event`, where `write` says
/// whether an item that the queue gave is to be written, and `idle_millis`
/// how long the stage waits when the queue gave nothing. An event that does
/// not answer what the stage did leaves the stage as it is.
pub open spec fn commit_stage_next<T>(
    stage: CommitStage<T>,
    event: CommitEvent<T>,
    write: bool,
    idle_millis: u64,
) -> CommitStage<T> {
    match (stage, event) {
        (CommitStage::Receive, CommitEvent::Received { item: None }) => CommitStage::Idle {
            wait_millis: idle_millis,
        },
        (CommitStage::Receive, CommitEvent::Received { item: Some(item) }) => if write {
            CommitStage::Persist { item }
        } else {
            CommitStage::Receive
        },
        (CommitStage::Idle { .. }, CommitEvent::Waited) => CommitStage::Receive,
        (CommitStage::Persist { item }, CommitEvent::Persisted { accepted }) => if accepted {
            CommitStage::Receive
        } else {
            CommitStage::Retry { item, wait_millis: retry_interval_millis(Failure::CommitRefused) }
        },
        (CommitStage::Retry { item, .. }, CommitEvent::Waited) => CommitStage::Persist { item },
        _ => stage,
    }
}

impl<T> CommitStage<T> {
    /// The stage as it starts.
    pub fn new() -> (r: CommitStage<T>)
        ensures
            r == CommitStage::<T>::Receive,
    {
        CommitStage::Receive
    }

    /// The item that the stage took from the queue and that the store has not
    /// taken yet.
    pub open spec fn held(self) -> Option<T> {
        match self {
            CommitStage::Persist { item } => Some(item),
            CommitStage::Retry { item, .. } => Some(item),
            _ => None,
        }
    }

    /// The item that the stage took from the queue and that the store has not
    /// taken yet.
    pub fn held_item(&self) -> (r: Option<&T>)
        ensures
            match r {
                Some(item) => self.held() == Some(*item),
                None => self.held() is None,
            },
    {
        match self {
            CommitStage::Persist { item } => Some(item),
            CommitStage::Retry { item, .. } => Some(item),
            _ => None,
        }
    }

    fn step(self, event: CommitEvent<T>, write: bool, idle_millis: u64) -> (r: CommitStage<T>)
        ensures
            r == commit_stage_next(self, event, write, idle_millis),
    {
        match self {
            CommitStage::Receive => match event {
                CommitEvent::Received { item } => match item {
                    None => CommitStage::Idle { wait_millis: idle_millis },
                    Some(item) => if write {
                        CommitStage::Persist { item }
                    } else {
                        CommitStage::Receive
                    },
                },
                _ => CommitStage::Receive,
            },
            CommitStage::Idle { wait_millis } => match event {
                CommitEvent::Waited => CommitStage::Receive,
                _ => CommitStage::Idle { wait_millis },
            },
            CommitStage::Persist { item } => match event {
                CommitEvent::Persisted { accepted } => if accepted {
                    CommitStage::Receive
                } else {
                    CommitStage::Retry { item, wait_millis: retry_after(Failure::CommitRefused) }
                },
                _ => CommitStage::Persist { item },
            },
            CommitStage::Retry { item, wait_millis } => match event {
                CommitEvent::Waited => CommitStage::Persist { item },
                _ => CommitStage::Retry { item, wait_millis },
            },
        }
    }
}

/// Whether the epoch commit stage writes what `event` brings: the records of
/// an epoch change that ended an epoch. Those of the first epoch were
/// written by the download stage.
pub open spec fn writes_epoch(event: CommitEvent<TemporaryEpochStore>) -> bool {
    event matches CommitEvent::Received { item: Some(store) } && store.last_epoch is Some
}

/// Takes the step of the checkpoint commit stage on `event`. With commits
/// switched off the stage drops every checkpoint that its queue gives.
pub fn checkpoint_commit_step(
    stage: CommitStage<TemporaryCheckpointStore>,
    event: CommitEvent<TemporaryCheckpointStore>,
    skip_db_commit: bool,
) -> (r: CommitStage<TemporaryCheckpointStore>)
    ensures
        r == commit_stage_next(
            stage,
            event,
            !skip_db_commit,
            CHECKPOINT_EMPTY_POLL_INTERVAL_IN_MILLIS,
        ),
{
    stage.step(event, !skip_db_commit, CHECKPOINT_EMPTY_POLL_INTERVAL_IN_MILLIS)
}

/// Takes the step of the epoch commit stage on `event`.
pub fn epoch_commit_step(
    stage: CommitStage<TemporaryEpochStore>,
    event: CommitEvent<TemporaryEpochStore>,
) -> (r: CommitStage<TemporaryEpochStore>)
    ensures
        r == commit_stage_next(
            stage,
            event,
            writes_epoch(event),
            EPOCH_EMPTY_POLL_INTERVAL_IN_MILLIS,
        ),
{
    let write = match &event {
        CommitEvent::Received { item: Some(store) } => store.last_epoch.is_some(),
        _ => false,
    };
    stage.step(event, write, EPOCH_EMPTY_POLL_INTERVAL_IN_MILLIS)
}

/// A commit stage does not lose what it took from the queue: an item that it
/// holds stays with it through every event but the store's taking it.
pub proof fn lemma_commit_stage_keeps_item<T>(
    stage: CommitStage<T>,
    event: CommitEvent<T>,
    write: bool,
    idle_millis: u64,
)
    requires
        stage.held() is Some,
    ensures
        commit_stage_next(stage, event, write, idle_millis).held() == stage.held() || (stage
            is Persist && event == (CommitEvent::<T>::Persisted { accepted: true })),
        !(event is Persisted) ==> commit_stage_next(stage, event, write, idle_millis).held()
            == stage.held(),
        event == (CommitEvent::<T>::Persisted { accepted: false }) ==> commit_stage_next(
            stage,
            event,
            write,
            idle_millis,
        ).held() == stage.held(),
{
}

} // verus!
