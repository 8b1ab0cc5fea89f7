//! The decisions of a worker: which task to take, and what becomes of a task
//! once its stage has ended.
//!
//! A worker leases a task, runs the stage of its kind, and hands the result
//! back here. Success completes the task and enqueues what the stage asked
//! for. A failure that may pass schedules the task again after a delay that
//! doubles with each attempt, as long as the task has retries left; any other
//! failure is final.

use crate::backoff::{backoff, backoff_seconds, lemma_backoff_fits};
use crate::error::PipelineError;
use crate::job::{Job, STAGE_MAX_RETRIES};
use crate::store::{
    completed, enqueued, failed, first_due, none_due, retried, Task, TaskState, TaskStore,
};
use vstd::prelude::*;

verus! {

/// The latest time, in seconds, at which a task can still be scheduled
/// again: any delay added to it fits in a `u64`.
pub const LATEST_NOW: u64 = 18446744069414584320;

/// What becomes of a task when its stage has ended.
#[derive(Clone, Debug, PartialEq, Eq)]
pub enum Transition {
    /// The stage succeeded: the task is done.
    Complete,
    /// The stage failed and the task runs again after `delay` seconds.
    Retry { delay: u32 },
    /// The stage failed for good.
    Fail,
}

/// The transition that a result calls for: success completes; a failure that
/// may pass is retried while the task has retries left, with the delay of
/// its attempt; every other failure is final.
pub open spec fn verdict(task: Task, outcome: Result<Option<Job>, PipelineError>) -> Transition {
    match outcome {
        Ok(_) => Transition::Complete,
        Err(error) => if error.retryable() && task.retries_left() {
            Transition::Retry { delay: backoff_seconds(task.attempts as nat) as u32 }
        } else {
            Transition::Fail
        },
    }
}

/// The store after the result of a stage has been applied to the task `id`.
/// Only a running task can be settled. On success it is done and the task
/// that the stage asked for, if any, is enqueued.
pub open spec fn settled(
    tasks: Seq<Task>,
    id: u64,
    outcome: Result<Option<Job>, PipelineError>,
    now: u64,
) -> (Seq<Task>, bool) {
    if id < tasks.len() && tasks[id as int].state is Running {
        match verdict(tasks[id as int], outcome) {
            Transition::Complete => match outcome->Ok_0 {
                Some(next) => (enqueued(completed(tasks, id).0, next, now).0, true),
                None => (completed(tasks, id).0, true),
            },
            Transition::Retry { delay } => (retried(tasks, id, delay, now).0, true),
            Transition::Fail => (failed(tasks, id, outcome->Err_0).0, true),
        }
    } else {
        (tasks, false)
    }
}

/// Decides what becomes of a task whose stage has ended with `outcome`.
pub fn decide(task: &Task, outcome: &Result<Option<Job>, PipelineError>) -> (out: Transition)
    ensures
        out == verdict(*task, *outcome),
{
    match outcome {
        Ok(_) => Transition::Complete,
        Err(error) => {
            if error.is_retryable() && task.attempts < task.job.max_retries() {
                Transition::Retry { delay: backoff(task.attempts) }
            } else {
                Transition::Fail
            }
        },
    }
}

/// Leases the next task unless the worker is draining: a worker that has
/// been told to stop takes no new task.
pub fn poll(store: &mut TaskStore, now: u64, draining: bool) -> (out: Option<Task>)
    requires
        old(store).wf(),
    ensures
        final(store).wf(),
        draining ==> out is None && final(store)@ == old(store)@,
        !draining ==> match out {
            Some(task) => {
                &&& first_due(old(store)@, now, task.id as int)
                &&& task == old(store)@[task.id as int].leased()
                &&& final(store)@ == old(store)@.update(task.id as int, task)
            },
            None => none_due(old(store)@, now) && final(store)@ == old(store)@,
        },
{
    if draining {
        None
    } else {
        store.lease_next(now)
    }
}

/// Applies the result of a stage to the task `id`. Tells whether it did: a
/// task that is not running, or does not exist, is left alone.
pub fn settle(
    store: &mut TaskStore,
    id: u64,
    outcome: Result<Option<Job>, PipelineError>,
    now: u64,
) -> (applied: bool)
    requires
        old(store).wf(),
        now <= LATEST_NOW,
    ensures
        final(store).wf(),
        (final(store)@, applied) == settled(old(store)@, id, outcome, now),
{
    let transition = match store.get(id) {
        Some(task) => match task.state {
            TaskState::Running => decide(task, &outcome),
            _ => {
                return false;
            },
        },
        None => {
            return false;
        },
    };
    match transition {
        Transition::Complete => {
            store.complete(id);
            match outcome {
                Ok(Some(next)) => {
                    store.enqueue(next, now);
                },
                _ => {},
            }
        },
        Transition::Retry { delay } => {
            store.retry(id, delay, now);
        },
        Transition::Fail => match outcome {
            Err(error) => {
                store.fail(id, error);
            },
            Ok(_) => {},
        },
    }
    true
}

/// A running task whose stage fails in a way that may pass, and that has
/// retries left, becomes pending again: one more attempt is counted, and it
/// may run once the delay of the failed attempt has passed.
pub proof fn law_retryable_failure_backs_off(tasks: Seq<Task>, id: u64, error: PipelineError, now: u64)
    requires
        id < tasks.len(),
        tasks[id as int].state is Running,
        tasks[id as int].retries_left(),
        error.retryable(),
        now <= LATEST_NOW,
    ensures
        settled(tasks, id, Err(error), now).0 == tasks.update(
            id as int,
            Task {
                state: TaskState::Pending,
                attempts: (tasks[id as int].attempts + 1) as u32,
                run_at: (now + backoff_seconds(tasks[id as int].attempts as nat)) as u64,
                ..tasks[id as int]
            },
        ),
        now + backoff_seconds(tasks[id as int].attempts as nat) <= u64::MAX,
{
    let attempts = tasks[id as int].attempts;
    assert(attempts < STAGE_MAX_RETRIES);
    lemma_backoff_fits(attempts as nat);
}

/// A running task whose stage fails when no retry is left, or in a way that
/// cannot pass, fails for good: it keeps the error, and no worker leases it
/// again.
pub proof fn law_spent_or_fatal_failure_is_final(
    tasks: Seq<Task>,
    id: u64,
    error: PipelineError,
    now: u64,
    later: u64,
)
    requires
        id < tasks.len(),
        tasks[id as int].state is Running,
        !tasks[id as int].retries_left() || !error.retryable(),
    ensures
        settled(tasks, id, Err(error), now).0 == tasks.update(
            id as int,
            Task { state: TaskState::Failed, error: Some(error), ..tasks[id as int] },
        ),
        !first_due(settled(tasks, id, Err(error), now).0, later, id as int),
{
}

} // verus!
