//! What the hand-off guarantees.
//!
//! A [`Job`] is one request together with what reading its image will come
//! to. [`serve`] follows the buffer through one job, moment by moment, by the
//! worker's own rule; [`after`] follows it through a queue of jobs. The
//! proofs below say what a reader can rely on at every one of those moments.

use crate::buffer::{apply, emitted, readable, Snapshot};
use crate::loader::{failure_message, load_error, load_result, loaded_bytes, ImageReadView};
use crate::status::{may_follow, terminal, COMPLETED, ERRORED, IDLE, PROCESSING};
use crate::worker::{diagnostic_line, step, ActionView, EventView, WorkerView};
use vstd::prelude::*;

verus! {

/// One request: the path that the queue hands over, and what reading the
/// image at that path will come to.
pub struct Job {
    pub path: Seq<char>,
    pub read: ImageReadView,
}

/// The status that ends a job.
pub open spec fn verdict(job: Job) -> usize {
    if job.read is Complete {
        COMPLETED
    } else {
        ERRORED
    }
}

/// What the worker asks for when the queue hands over the job's path.
pub open spec fn opening(job: Job) -> ActionView {
    ActionView::Load { status: PROCESSING, path: job.path }
}

/// What the worker asks for when the job's load has ended.
pub open spec fn closing(job: Job) -> ActionView {
    match load_error(job.read) {
        None => ActionView::Finish { status: COMPLETED, name: Some(job.path), diagnostic: None },
        Some(error) => ActionView::Finish {
            status: ERRORED,
            name: None,
            diagnostic: Some(diagnostic_line(error.message)),
        },
    }
}

/// The buffer at the three moments of one job: when the worker has published
/// that it is at work; when the image has been read into the locked buffer;
/// when the worker has ended the request. Each moment comes from the one
/// before by what the worker's rule asks for.
pub open spec fn serve(before: Snapshot, job: Job) -> Seq<Snapshot> {
    let (loading, load) = step(WorkerView::Waiting, EventView::Request { path: job.path });
    let announced = apply(before, load);
    let read = Snapshot { bytes: loaded_bytes(job.read, announced.bytes), ..announced };
    let (_, finish) = step(loading, EventView::Loaded { result: load_result(job.read) });
    seq![announced, read, apply(read, finish)]
}

/// The buffer when a job has ended.
pub open spec fn settled(before: Snapshot, job: Job) -> Snapshot {
    serve(before, job)[2]
}

/// The buffer when every job of a queue has ended, in the order of the queue.
pub open spec fn after(start: Snapshot, jobs: Seq<Job>) -> Snapshot
    decreases jobs.len(),
{
    if jobs.len() == 0 {
        start
    } else {
        settled(after(start, jobs.drop_last()), jobs.last())
    }
}

/// The path and bytes of the last job of a queue whose read was complete, or
/// those of `start` if there is no such job.
pub open spec fn committed(start: Snapshot, jobs: Seq<Job>) -> (Seq<char>, Seq<u8>)
    decreases jobs.len(),
{
    if jobs.len() == 0 {
        (start.path, start.bytes)
    } else {
        match jobs.last().read {
            ImageReadView::Complete(bytes) => (jobs.last().path, bytes),
            _ => committed(start, jobs.drop_last()),
        }
    }
}

/// What the worker is told while it serves a queue of jobs: for each job in
/// turn, its request and then the end of its load.
pub open spec fn script(jobs: Seq<Job>) -> Seq<EventView>
    decreases jobs.len(),
{
    if jobs.len() == 0 {
        Seq::empty()
    } else {
        script(jobs.drop_last()).push(EventView::Request { path: jobs.last().path }).push(
            EventView::Loaded { result: load_result(jobs.last().read) },
        )
    }
}

/// The worker told `events` one after the other: where it stands at the end,
/// and everything it asked for.
pub open spec fn run(worker: WorkerView, events: Seq<EventView>) -> (WorkerView, Seq<ActionView>)
    decreases events.len(),
{
    if events.len() == 0 {
        (worker, Seq::empty())
    } else {
        let (before, actions) = run(worker, events.drop_last());
        let (next, action) = step(before, events.last());
        (next, actions.push(action))
    }
}

/// The worker's rule on the two events of a job: the request starts the
/// load, and the end of the load ends the request and leaves the worker
/// waiting.
pub proof fn lemma_job_steps(job: Job)
    ensures
        step(WorkerView::Waiting, EventView::Request { path: job.path }) == (
            WorkerView::Loading { path: job.path },
            opening(job),
        ),
        step(
            WorkerView::Loading { path: job.path },
            EventView::Loaded { result: load_result(job.read) },
        ) == (WorkerView::Waiting, closing(job)),
{
}

/// Whatever it is told, wherever it stands, the worker asks to publish
/// `PROCESSING` with a load and a terminal status with the end of a request:
/// never `IDLE`, never `SLEEPING`.
pub proof fn lemma_published_statuses(worker: WorkerView, event: EventView)
    ensures
        match step(worker, event).1 {
            ActionView::Load { status, .. } => status == PROCESSING,
            ActionView::Finish { status, .. } => terminal(status),
            ActionView::Ignore => true,
            ActionView::Stop => true,
        },
{
}

/// During a request the status is `PROCESSING`, and when the request has
/// ended it is exactly one of `COMPLETED` and `ERRORED`: `COMPLETED` if and
/// only if the read was complete. If the buffer was idle or at rest before,
/// both changes of the flag are ones that the status rule allows.
pub proof fn lemma_request_statuses(before: Snapshot, job: Job)
    ensures
        serve(before, job).len() == 3,
        serve(before, job)[0].state == PROCESSING,
        serve(before, job)[1].state == PROCESSING,
        settled(before, job).state == verdict(job),
        terminal(verdict(job)),
        verdict(job) == COMPLETED <==> job.read is Complete,
        before.state == IDLE || terminal(before.state) ==> may_follow(before.state, PROCESSING),
        may_follow(PROCESSING, verdict(job)),
{
}

/// Told the requests of a queue and the ends of their loads in order, the
/// worker takes the jobs strictly in that order: for each job it asks first
/// for the load of that job's path under `PROCESSING` and then for the end
/// of that request under a terminal status, before it asks anything for the
/// next job. It asks for nothing else, and ends waiting.
pub proof fn lemma_jobs_in_order(jobs: Seq<Job>)
    ensures
        run(WorkerView::Waiting, script(jobs)).0 == WorkerView::Waiting,
        run(WorkerView::Waiting, script(jobs)).1.len() == 2 * jobs.len(),
        forall|i: int|
            #![trigger jobs[i]]
            0 <= i < jobs.len() ==> {
                let actions = run(WorkerView::Waiting, script(jobs)).1;
                &&& actions[2 * i] == opening(jobs[i])
                &&& actions[2 * i + 1] == closing(jobs[i])
            },
    decreases jobs.len(),
{
    if jobs.len() > 0 {
        let earlier = jobs.drop_last();
        let job = jobs.last();
        lemma_jobs_in_order(earlier);
        lemma_job_steps(job);
        let request = EventView::Request { path: job.path };
        let loaded = EventView::Loaded { result: load_result(job.read) };
        let first = script(earlier).push(request);
        assert(script(jobs) == first.push(loaded));
        assert(script(jobs).drop_last() == first);
        assert(first.drop_last() == script(earlier));
        let actions = run(WorkerView::Waiting, script(jobs)).1;
        let before = run(WorkerView::Waiting, script(earlier)).1;
        assert(run(WorkerView::Waiting, first).1 == before.push(opening(job)));
        assert(actions == before.push(opening(job)).push(closing(job)));
        assert forall|i: int| #![trigger jobs[i]] 0 <= i < jobs.len() implies {
            &&& actions[2 * i] == opening(jobs[i])
            &&& actions[2 * i + 1] == closing(jobs[i])
        } by {
            if i < earlier.len() {
                assert(earlier[i] == jobs[i]);
            }
        }
    }
}

/// Once the queue is closed the worker has stopped: whatever it is told
/// afterwards, it stays stopped and asks only to leave the loop.
pub proof fn lemma_stopped_for_good(events: Seq<EventView>)
    ensures
        step(WorkerView::Waiting, EventView::Closed) == (WorkerView::Stopped, ActionView::Stop),
        run(WorkerView::Stopped, events).0 == WorkerView::Stopped,
        run(WorkerView::Stopped, events).1.len() == events.len(),
        forall|i: int|
            0 <= i < events.len() ==> run(WorkerView::Stopped, events).1[i] == ActionView::Stop,
    decreases events.len(),
{
    if events.len() > 0 {
        lemma_stopped_for_good(events.drop_last());
    }
}

/// Closing the queue ends the loop: after the jobs of any queue, the worker
/// answers the closing with `Stop`, its only answer that is not part of a
/// job, and stands stopped.
pub proof fn lemma_closing_ends_the_loop(jobs: Seq<Job>)
    ensures
        run(WorkerView::Waiting, script(jobs).push(EventView::Closed)).0 == WorkerView::Stopped,
        run(WorkerView::Waiting, script(jobs).push(EventView::Closed)).1.len() == 2 * jobs.len()
            + 1,
        run(WorkerView::Waiting, script(jobs).push(EventView::Closed)).1.last()
            == ActionView::Stop,
{
    lemma_jobs_in_order(jobs);
    assert(script(jobs).push(EventView::Closed).drop_last() == script(jobs));
}

/// A load that succeeds leaves in the buffer the path that was requested and
/// the bytes that were read, under `COMPLETED`, and emits nothing. A reader
/// may then take exactly these.
pub proof fn lemma_success_is_published(before: Snapshot, job: Job)
    requires
        job.read is Complete,
    ensures
        settled(before, job) == (Snapshot {
            path: job.path,
            bytes: job.read->Complete_0,
            state: COMPLETED,
        }),
        readable(settled(before, job)) == Some((job.path, job.read->Complete_0)),
        emitted(closing(job)) is None,
{
}

/// The cause of a failed read.
pub open spec fn cause(read: ImageReadView) -> Seq<char> {
    match read {
        ImageReadView::Complete(_) => Seq::empty(),
        ImageReadView::OpenFailed(why) => why,
        ImageReadView::ReadFailed(why) => why,
    }
}

/// A load that fails ends under `ERRORED`, with the path and the bytes of
/// the buffer as they were before the request, and nothing for a reader to
/// take. One line is emitted: it ends with the cause of the failure, behind
/// the two fixed openings.
pub proof fn lemma_failure_is_reported(before: Snapshot, job: Job)
    requires
        !(job.read is Complete),
    ensures
        settled(before, job) == (Snapshot { state: ERRORED, ..before }),
        readable(settled(before, job)) is None,
        emitted(closing(job)) == Some(diagnostic_line(failure_message(cause(job.read)))),
        ({
            let line = diagnostic_line(failure_message(cause(job.read)));
            let why = cause(job.read);
            &&& line.len() >= why.len()
            &&& line.subrange(line.len() - why.len(), line.len() as int) == why
        }),
{
    let line = diagnostic_line(failure_message(cause(job.read)));
    let why = cause(job.read);
    assert(line.subrange(line.len() - why.len(), line.len() as int) =~= why);
}

/// Whenever the flag says `COMPLETED`, at any moment of any request of any
/// queue, the buffer holds the path and the bytes of the most recent load
/// that succeeded, both of the same load. The moment at which the new bytes
/// stand beside the old path lies under `PROCESSING`.
pub proof fn lemma_completed_is_whole(start: Snapshot, jobs: Seq<Job>, index: int, moment: int)
    requires
        0 <= index < jobs.len(),
        0 <= moment < 3,
    ensures
        ({
            let seen = serve(after(start, jobs.take(index)), jobs[index])[moment];
            let whole = committed(start, jobs.take(index + 1));
            &&& seen.state == COMPLETED ==> (seen.path, seen.bytes) == whole
            &&& readable(seen) is Some ==> readable(seen) == Some(whole)
            &&& moment < 2 ==> seen.state == PROCESSING
        }),
{
    let served = jobs.take(index + 1);
    assert(served.last() == jobs[index]);
}

/// Between requests the buffer holds the path and the bytes of the most
/// recent load that succeeded: a load that fails in between takes neither
/// away. Its status is that of the last job, or the one it started with.
pub proof fn lemma_rest_is_committed(start: Snapshot, jobs: Seq<Job>)
    ensures
        (after(start, jobs).path, after(start, jobs).bytes) == committed(start, jobs),
        after(start, jobs).state == if jobs.len() == 0 {
            start.state
        } else {
            verdict(jobs.last())
        },
    decreases jobs.len(),
{
    if jobs.len() > 0 {
        lemma_rest_is_committed(start, jobs.drop_last());
    }
}

/// Whenever the worker does not hold the lock, the buffer is whole. The
/// worker holds it from the read of a job to the end of that job. Before the
/// read, when the job is announced, path and bytes are still those of the
/// most recent load that succeeded before this job; at the end of the job
/// they are those of the most recent one including it.
pub proof fn lemma_unlocked_is_whole(start: Snapshot, jobs: Seq<Job>, index: int)
    requires
        0 <= index < jobs.len(),
    ensures
        ({
            let moments = serve(after(start, jobs.take(index)), jobs[index]);
            &&& (moments[0].path, moments[0].bytes) == committed(start, jobs.take(index))
            &&& (moments[2].path, moments[2].bytes) == committed(start, jobs.take(index + 1))
        }),
{
    lemma_rest_is_committed(start, jobs.take(index));
    lemma_rest_is_committed(start, jobs.take(index + 1));
    assert(jobs.take(index + 1).drop_last() == jobs.take(index));
    assert(jobs.take(index + 1).last() == jobs[index]);
}

/// Started idle or at rest, the flag only ever changes as the status rule
/// allows: at every job of every queue it goes from `IDLE` or a terminal
/// status to `PROCESSING`, stays there while the image is read, and goes on
/// to a terminal status.
pub proof fn lemma_flag_follows_the_rule(start: Snapshot, jobs: Seq<Job>, index: int)
    requires
        start.state == IDLE || terminal(start.state),
        0 <= index < jobs.len(),
    ensures
        ({
            let before = after(start, jobs.take(index));
            let moments = serve(before, jobs[index]);
            &&& may_follow(before.state, moments[0].state)
            &&& moments[1].state == moments[0].state
            &&& may_follow(moments[1].state, moments[2].state)
        }),
{
    lemma_rest_is_committed(start, jobs.take(index));
}

/// Loading the same image twice in a row, with the same bytes read both
/// times, leaves the buffer after the second load exactly as it was after
/// the first.
pub proof fn lemma_reload_changes_nothing(before: Snapshot, job: Job)
    requires
        job.read is Complete,
    ensures
        settled(settled(before, job), job) == settled(before, job),
{
}

} // verus!
