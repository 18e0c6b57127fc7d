//! A model of the download stage and the checkpoint commit stage together,
//! with the queue between them, and what holds of every run of it.
//!
//! The model follows the checkpoints by their numbers. The download stage
//! holds a cursor, the number of the checkpoint that it fetches next, and at
//! most one indexed checkpoint that it is offering to the queue. The queue
//! gives out what it took in the same order and holds at most
//! [`CHECKPOINT_QUEUE_LIMIT`] checkpoints. The commit stage holds at most one
//! checkpoint, which it writes until the store takes it. Commits are
//! switched on. A restart is a restart of the whole process: it loses what
//! is in memory and keeps the store. A download stage that fails and starts
//! again on its own while checkpoints are on their way is not a step of this
//! model. As long as nothing fails, the steps of the download stage are steps
//! of the model.

use vstd::prelude::*;
use crate::pipeline::{
    download_stage_next, resume_point, DownloadEvent, DownloadStage, CHECKPOINT_QUEUE_LIMIT,
};

verus! {

/// The state of the two stages, the queue and the store.
pub ghost struct PipelineModel {
    /// The number of the last checkpoint in the store, or -1 if it has none.
    pub latest: int,
    /// The checkpoints that the store took since the model began, in the
    /// order in which it took them.
    pub commits: Seq<int>,
    /// The checkpoint that the download stage fetches next; none before the
    /// stage has read the store.
    pub cursor: Option<int>,
    /// The checkpoint that the download stage has indexed and is offering to
    /// the queue.
    pub offered: Option<int>,
    /// The checkpoints in the queue, the oldest first.
    pub queue: Seq<int>,
    /// The checkpoint that the commit stage took from the queue and that the
    /// store has not taken yet.
    pub in_commit: Option<int>,
}

/// A step of the model.
pub ghost enum Step {
    /// The process starts, or starts again after a crash: the download stage
    /// reads the number of the last checkpoint in the store.
    Restart,
    /// The download stage fetches and indexes the checkpoint at its cursor.
    Download,
    /// The queue takes the checkpoint that the download stage offers.
    Enqueue,
    /// The commit stage takes the oldest checkpoint from the queue.
    Dequeue,
    /// The store takes the checkpoint that the commit stage writes.
    Commit,
    /// The store refuses the checkpoint that the commit stage writes, which
    /// will write it again.
    CommitRefused,
}

/// The state of a process that has not started, over a store whose last
/// checkpoint is `latest`.
pub open spec fn init(latest: int) -> PipelineModel {
    PipelineModel {
        latest,
        commits: Seq::empty(),
        cursor: None,
        offered: None,
        queue: Seq::empty(),
        in_commit: None,
    }
}

/// Whether the model can take `step` in the state `s`.
pub open spec fn enabled(s: PipelineModel, step: Step) -> bool {
    match step {
        Step::Restart => true,
        Step::Download => s.cursor is Some && s.offered is None,
        Step::Enqueue => s.offered is Some && s.queue.len() < CHECKPOINT_QUEUE_LIMIT,
        Step::Dequeue => s.in_commit is None && s.queue.len() > 0,
        Step::Commit => s.in_commit is Some,
        Step::CommitRefused => s.in_commit is Some,
    }
}

/// The state after `step`, taken in the state `s` in which it is enabled.
pub open spec fn next(s: PipelineModel, step: Step) -> PipelineModel {
    match step {
        Step::Restart => PipelineModel {
            cursor: Some(resume_point(s.latest)),
            offered: None,
            queue: Seq::empty(),
            in_commit: None,
            ..s
        },
        Step::Download => PipelineModel { offered: s.cursor, ..s },
        Step::Enqueue => PipelineModel {
            cursor: Some(s.offered->0 + 1),
            offered: None,
            queue: s.queue.push(s.offered->0),
            ..s
        },
        Step::Dequeue => PipelineModel {
            queue: s.queue.drop_first(),
            in_commit: Some(s.queue.first()),
            ..s
        },
        Step::Commit => PipelineModel {
            latest: s.in_commit->0,
            commits: s.commits.push(s.in_commit->0),
            in_commit: None,
            ..s
        },
        Step::CommitRefused => s,
    }
}

/// The state after the steps `steps`, taken one after the other from the
/// state `s`. A step that is not enabled when its turn comes is not taken.
pub open spec fn run(s: PipelineModel, steps: Seq<Step>) -> PipelineModel
    decreases steps.len(),
{
    if steps.len() == 0 {
        s
    } else {
        let before = run(s, steps.drop_last());
        if enabled(before, steps.last()) {
            next(before, steps.last())
        } else {
            before
        }
    }
}

/// The checkpoints on their way from the download stage to the store, the
/// oldest first: the one being written, those in the queue, the one offered.
pub open spec fn in_flight(s: PipelineModel) -> Seq<int> {
    (match s.in_commit {
        Some(c) => seq![c],
        None => Seq::empty(),
    }) + s.queue + (match s.offered {
        Some(c) => seq![c],
        None => Seq::empty(),
    })
}

/// The number of checkpoints that the download stage has indexed and the
/// commit stage has not taken: those in the queue and the one offered.
pub open spec fn outstanding(s: PipelineModel) -> int {
    s.queue.len() + (if s.offered is Some {
        1int
    } else {
        0int
    })
}

/// What holds of every state that the model reaches: the checkpoints on
/// their way follow the last one in the store without a gap, the cursor
/// follows them, the queue is within its limit, and the store took its
/// checkpoints in rising order.
pub open spec fn inv(s: PipelineModel) -> bool {
    &&& s.latest >= -1
    &&& forall|i: int| 0 <= i < in_flight(s).len() ==> #[trigger] in_flight(s)[i] == s.latest + 1 + i
    &&& match s.cursor {
        Some(c) => c == s.latest + 1 + in_flight(s).len() - (if s.offered is Some {
            1int
        } else {
            0int
        }),
        None => in_flight(s).len() == 0,
    }
    &&& s.queue.len() <= CHECKPOINT_QUEUE_LIMIT
    &&& forall|i: int, j: int|
        0 <= i < j < s.commits.len() ==> #[trigger] s.commits[i] < #[trigger] s.commits[j]
    &&& forall|i: int| 0 <= i < s.commits.len() ==> #[trigger] s.commits[i] <= s.latest
}

/// The invariant holds before the process starts.
pub proof fn lemma_init_inv(latest: int)
    requires
        latest >= -1,
    ensures
        inv(init(latest)),
{
    assert(in_flight(init(latest)) =~= Seq::<int>::empty());
}

/// Every step keeps the invariant.
pub proof fn lemma_step_inv(s: PipelineModel, step: Step)
    requires
        inv(s),
        enabled(s, step),
    ensures
        inv(next(s, step)),
{
    let t = next(s, step);
    let before = in_flight(s);
    let after = in_flight(t);
    match step {
        Step::Restart => {
            assert(after =~= Seq::<int>::empty());
        },
        Step::Download => {
            assert(after =~= before.push(s.cursor->0));
            assert forall|i: int| 0 <= i < after.len() implies #[trigger] after[i] == t.latest + 1
                + i by {
                if i < before.len() {
                    assert(after[i] == before[i]);
                }
            }
        },
        Step::Enqueue => {
            assert(after =~= before);
            assert(before[before.len() - 1] == s.offered->0);
        },
        Step::Dequeue => {
            assert(after =~= before);
        },
        Step::Commit => {
            assert(before[0] == s.in_commit->0);
            assert(after =~= before.drop_first());
            assert forall|i: int| 0 <= i < after.len() implies #[trigger] after[i] == t.latest + 1
                + i by {
                assert(after[i] == before[i + 1]);
            }
            assert forall|i: int, j: int| 0 <= i < j < t.commits.len() implies #[trigger] t.commits[i]
                < #[trigger] t.commits[j] by {
                if j == s.commits.len() {
                    assert(t.commits[i] == s.commits[i]);
                }
            }
            assert forall|i: int| 0 <= i < t.commits.len() implies #[trigger] t.commits[i]
                <= t.latest by {
                if i < s.commits.len() {
                    assert(t.commits[i] == s.commits[i]);
                }
            }
        },
        Step::CommitRefused => {},
    }
}

/// Every run from a state in which the invariant holds ends in one.
pub proof fn lemma_run_inv(s: PipelineModel, steps: Seq<Step>)
    requires
        inv(s),
    ensures
        inv(run(s, steps)),
    decreases steps.len(),
{
    if steps.len() > 0 {
        lemma_run_inv(s, steps.drop_last());
        let before = run(s, steps.drop_last());
        if enabled(before, steps.last()) {
            lemma_step_inv(before, steps.last());
        }
    }
}

/// The store takes the checkpoints in the order of their numbers: in every
/// run of the process, of two checkpoints that the store took, the one with
/// the lower number was taken first.
pub proof fn lemma_commits_in_order(latest: int, steps: Seq<Step>)
    requires
        latest >= -1,
    ensures
        forall|i: int, j: int|
            0 <= i < run(init(latest), steps).commits.len() && 0 <= j < run(
                init(latest),
                steps,
            ).commits.len() && #[trigger] run(init(latest), steps).commits[i] < #[trigger] run(
                init(latest),
                steps,
            ).commits[j] ==> i < j,
{
    lemma_init_inv(latest);
    lemma_run_inv(init(latest), steps);
    let commits = run(init(latest), steps).commits;
    assert forall|i: int, j: int|
        0 <= i < commits.len() && 0 <= j < commits.len() && #[trigger] commits[i]
            < #[trigger] commits[j] implies i < j by {
        if j < i {
            assert(commits[j] < commits[i]);
        }
    }
}

/// A checkpoint that the commit stage had taken from the queue when the
/// process crashed, and that the store had not taken, comes to the store
/// again: after the restart the download stage fetches that checkpoint
/// first, and it is the first that the commit stage takes from the queue.
pub proof fn lemma_crash_presents_again(s: PipelineModel, checkpoint: int)
    requires
        inv(s),
        s.in_commit == Some(checkpoint),
    ensures
        next(s, Step::Restart).cursor == Some(checkpoint),
        run(s, seq![Step::Restart, Step::Download]).offered == Some(checkpoint),
        run(s, seq![Step::Restart, Step::Download, Step::Enqueue, Step::Dequeue]).in_commit
            == Some(checkpoint),
{
    reveal_with_fuel(run, 5);
    assert(in_flight(s)[0] == checkpoint);
    let s1 = next(s, Step::Restart);
    let s2 = next(s1, Step::Download);
    let s3 = next(s2, Step::Enqueue);
    let s4 = next(s3, Step::Dequeue);
    let steps2 = seq![Step::Restart, Step::Download];
    let steps4 = seq![Step::Restart, Step::Download, Step::Enqueue, Step::Dequeue];
    assert(steps2.drop_last() =~= seq![Step::Restart]);
    assert(seq![Step::Restart].drop_last() =~= Seq::<Step>::empty());
    assert(run(s, seq![Step::Restart]) == s1);
    assert(run(s, steps2) == s2);
    assert(steps4.drop_last() =~= seq![Step::Restart, Step::Download, Step::Enqueue]);
    assert(seq![Step::Restart, Step::Download, Step::Enqueue].drop_last() =~= steps2);
    assert(run(s, seq![Step::Restart, Step::Download, Step::Enqueue]) == s3);
    assert(s3.queue =~= seq![checkpoint]);
    assert(run(s, steps4) == s4);
}

/// While the queue is full and a checkpoint is on offer, the download stage
/// can take no step: it fetches nothing until the commit stage has taken a
/// checkpoint from the queue. Never are more than the queue's limit and one
/// checkpoints indexed and not taken.
pub proof fn lemma_backpressure(s: PipelineModel)
    requires
        inv(s),
    ensures
        outstanding(s) <= CHECKPOINT_QUEUE_LIMIT + 1,
        enabled(s, Step::Download) ==> outstanding(s) <= CHECKPOINT_QUEUE_LIMIT,
        outstanding(s) == CHECKPOINT_QUEUE_LIMIT + 1 ==> !enabled(s, Step::Download) && !enabled(
            s,
            Step::Enqueue,
        ),
{
}

/// Whether `step` is a step of the download stage.
pub open spec fn is_download_stage_step(step: Step) -> bool {
    step == Step::Download || step == Step::Enqueue
}

/// The number of checkpoints that the download stage fetches in the run
/// `steps` from the state `s`.
pub open spec fn downloads(s: PipelineModel, steps: Seq<Step>) -> int
    decreases steps.len(),
{
    if steps.len() == 0 {
        0
    } else {
        downloads(s, steps.drop_last()) + (if steps.last() == Step::Download && enabled(
            run(s, steps.drop_last()),
            Step::Download,
        ) {
            1int
        } else {
            0int
        })
    }
}

/// With the store blocked, so that the commit stage takes nothing from the
/// queue, the download stage fetches at most as many checkpoints as the
/// queue holds and one more, less those that it had indexed before; and when
/// it has fetched that many it can fetch no more.
pub proof fn lemma_blocked_store_bounds_downloads(s: PipelineModel, steps: Seq<Step>)
    requires
        inv(s),
        forall|k: int| 0 <= k < steps.len() ==> is_download_stage_step(#[trigger] steps[k]),
    ensures
        outstanding(run(s, steps)) == outstanding(s) + downloads(s, steps),
        downloads(s, steps) <= CHECKPOINT_QUEUE_LIMIT + 1 - outstanding(s),
        downloads(s, steps) == CHECKPOINT_QUEUE_LIMIT + 1 - outstanding(s) ==> !enabled(
            run(s, steps),
            Step::Download,
        ) && !enabled(run(s, steps), Step::Enqueue),
    decreases steps.len(),
{
    lemma_run_inv(s, steps);
    lemma_backpressure(run(s, steps));
    if steps.len() > 0 {
        let rest = steps.drop_last();
        assert forall|k: int| 0 <= k < rest.len() implies is_download_stage_step(
            #[trigger] rest[k],
        ) by {
            assert(rest[k] == steps[k]);
        }
        lemma_blocked_store_bounds_downloads(s, rest);
        lemma_run_inv(s, rest);
        assert(is_download_stage_step(steps[steps.len() - 1]));
    }
}

/// The cursor of the model for the download stage in the state `stage`: the
/// checkpoint that the stage fetches next. Once the stage has put a
/// checkpoint into the queue, that is the checkpoint after it.
pub open spec fn model_cursor(stage: DownloadStage) -> Option<int> {
    match stage {
        DownloadStage::ReadStore => None,
        DownloadStage::Failed { .. } => None,
        DownloadStage::FetchCheckpoint { cursor } => Some(cursor as int),
        DownloadStage::AwaitCheckpoint { cursor, .. } => Some(cursor as int),
        DownloadStage::Assemble { cursor } => Some(cursor as int),
        DownloadStage::SendCheckpoint { cursor, .. } => Some(cursor as int),
        DownloadStage::PersistEpoch { cursor } => Some(cursor + 1),
        DownloadStage::SendEpoch { cursor } => Some(cursor + 1),
        DownloadStage::ProcessEvents { cursor } => Some(cursor + 1),
    }
}

/// The checkpoint that the download stage in the state `stage` is offering
/// to the queue.
pub open spec fn model_offered(stage: DownloadStage) -> Option<int> {
    match stage {
        DownloadStage::SendCheckpoint { cursor, .. } => Some(cursor as int),
        _ => None,
    }
}

/// Whether the model in the state `s` stands for the download stage in the
/// state `stage`.
pub open spec fn models_stage(s: PipelineModel, stage: DownloadStage) -> bool {
    s.cursor == model_cursor(stage) && s.offered == model_offered(stage)
}

/// The step of the model that the download stage takes when it goes from
/// `stage` on `event`, if it takes one.
pub open spec fn model_step(stage: DownloadStage, event: DownloadEvent) -> Option<Step> {
    match (stage, event) {
        (DownloadStage::ReadStore, DownloadEvent::StoreRead { .. }) => Some(Step::Restart),
        (DownloadStage::Assemble { .. }, DownloadEvent::Indexed { .. }) => Some(Step::Download),
        (DownloadStage::SendCheckpoint { .. }, DownloadEvent::Done) => Some(Step::Enqueue),
        _ => None,
    }
}

/// The download stage, as long as nothing fails, takes the steps of the
/// model: when it has read the store the model starts, when it has indexed a
/// checkpoint the model downloads, when its send to the queue is done the
/// model enqueues, and on every other event the model stays as it is.
pub proof fn lemma_download_stage_takes_model_steps(
    s: PipelineModel,
    stage: DownloadStage,
    event: DownloadEvent,
)
    requires
        models_stage(s, stage),
        event != DownloadEvent::Failed,
        event matches DownloadEvent::StoreRead { last_seq_from_db } ==> last_seq_from_db
            == s.latest,
        stage matches DownloadStage::ProcessEvents { cursor } ==> cursor < u64::MAX,
    ensures
        match model_step(stage, event) {
            Some(step) => models_stage(next(s, step), download_stage_next(stage, event)),
            None => models_stage(s, download_stage_next(stage, event)),
        },
        model_step(stage, event) == Some(Step::Download) ==> enabled(s, Step::Download),
{
}

} // verus!
