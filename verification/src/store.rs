//! The task store: the queue of the pipeline and the life of each task.
//!
//! A task is pending until a worker leases it, running while the worker
//! executes it, and then done, pending again after a delay, or failed.
//! Done and failed are final. At any time at most one task that is not
//! final exists for a uniqueness key.

use crate::error::PipelineError;
use crate::job::{Job, TaskKey};
use vstd::prelude::*;

verus! {

/// Where a task stands in its life.
#[derive(Clone, Copy, Debug, PartialEq, Eq, Structural)]
pub enum TaskState {
    Pending,
    Running,
    Done,
    Failed,
}

/// A unit of work in the queue.
#[derive(Clone, Debug, PartialEq, Eq)]
pub struct Task {
    /// The place of the task in the order of insertion.
    pub id: u64,
    pub job: Job,
    /// How many attempts have failed and been scheduled again.
    pub attempts: u32,
    /// The time, in seconds, from which the task may be leased.
    pub run_at: u64,
    pub state: TaskState,
    /// Why the task failed for good.
    pub error: Option<PipelineError>,
}

impl Task {
    /// Whether the task is neither done nor failed.
    pub open spec fn live(self) -> bool {
        self.state is Pending || self.state is Running
    }

    /// Whether the task may be leased at the time `now`.
    pub open spec fn due(self, now: u64) -> bool {
        self.state is Pending && self.run_at <= now
    }

    /// Whether the task can be scheduled again after a failure.
    pub open spec fn retries_left(self) -> bool {
        self.attempts < self.job.retry_limit()
    }

    /// The task once a worker has leased it.
    pub open spec fn leased(self) -> Task {
        Task { state: TaskState::Running, ..self }
    }

    /// The task once it has succeeded.
    pub open spec fn completed(self) -> Task {
        Task { state: TaskState::Done, ..self }
    }

    /// The task once it has been scheduled again, `delay` seconds after
    /// `now`.
    pub open spec fn retried(self, delay: u32, now: u64) -> Task {
        Task {
            state: TaskState::Pending,
            attempts: (self.attempts + 1) as u32,
            run_at: (now + delay) as u64,
            ..self
        }
    }

    /// The task once it has failed for good.
    pub open spec fn failed(self, error: PipelineError) -> Task {
        Task { state: TaskState::Failed, error: Some(error), ..self }
    }
}

/// What became of a request to enqueue.
#[derive(Clone, Debug, PartialEq, Eq)]
pub enum EnqueueOutcome {
    /// The task was added, under this id.
    Enqueued(u64),
    /// A task with the same uniqueness key is still pending or running:
    /// nothing was added.
    DuplicateSkipped,
}

/// Whether the task at `i` is live and has the uniqueness key `key`.
pub open spec fn live_at(tasks: Seq<Task>, key: TaskKey, i: int) -> bool {
    0 <= i < tasks.len() && tasks[i].live() && tasks[i].job.key() == key
}

/// Whether some live task has the uniqueness key `key`.
pub open spec fn has_live(tasks: Seq<Task>, key: TaskKey) -> bool {
    exists|i: int| live_at(tasks, key, i)
}

/// Whether exactly one live task has the uniqueness key `key`.
pub open spec fn exactly_one_live(tasks: Seq<Task>, key: TaskKey) -> bool {
    exists|i: int|
        live_at(tasks, key, i) && forall|j: int| live_at(tasks, key, j) ==> #[trigger] same_place(
            i,
            j,
        )
}

/// Whether two places are the same.
pub open spec fn same_place(i: int, j: int) -> bool {
    i == j
}

/// The invariant of the store: a task's id is its place, no two live tasks
/// share a uniqueness key, no task has been scheduled again more often than
/// its stage allows, and exactly the failed tasks carry an error.
pub open spec fn well_formed(tasks: Seq<Task>) -> bool {
    &&& tasks.len() <= u64::MAX
    &&& forall|i: int|
        0 <= i < tasks.len() ==> {
            &&& (#[trigger] tasks[i]).id == i
            &&& tasks[i].attempts <= tasks[i].job.retry_limit()
            &&& (tasks[i].error is Some <==> tasks[i].state is Failed)
        }
    &&& forall|i: int, j: int|
        0 <= i < j < tasks.len() && (#[trigger] tasks[i]).live() && (#[trigger] tasks[j]).live()
            ==> tasks[i].job.key() != tasks[j].job.key()
}

/// The task that enqueuing `job` at the time `now` adds.
pub open spec fn fresh_task(tasks: Seq<Task>, job: Job, now: u64) -> Task {
    Task {
        id: tasks.len() as u64,
        job,
        attempts: 0,
        run_at: now,
        state: TaskState::Pending,
        error: None,
    }
}

/// Enqueuing: nothing happens where a live task has the key of `job`;
/// otherwise a pending task is added at the end, due at once.
pub open spec fn enqueued(tasks: Seq<Task>, job: Job, now: u64) -> (Seq<Task>, EnqueueOutcome) {
    if has_live(tasks, job.key()) {
        (tasks, EnqueueOutcome::DuplicateSkipped)
    } else {
        (tasks.push(fresh_task(tasks, job, now)), EnqueueOutcome::Enqueued(tasks.len() as u64))
    }
}

/// Whether the task at `i` comes before the task at `j` in the order of
/// leasing: it is due earlier, or at the same time and was inserted first.
pub open spec fn leased_before(tasks: Seq<Task>, i: int, j: int) -> bool {
    tasks[i].run_at < tasks[j].run_at || (tasks[i].run_at == tasks[j].run_at && i <= j)
}

/// Whether the task at `i` is the one to lease at the time `now`: it is due,
/// and it comes before every other task that is due.
pub open spec fn first_due(tasks: Seq<Task>, now: u64, i: int) -> bool {
    &&& 0 <= i < tasks.len()
    &&& tasks[i].due(now)
    &&& forall|j: int| 0 <= j < tasks.len() && (#[trigger] tasks[j]).due(now) ==> leased_before(tasks, i, j)
}

/// Whether no task is due at the time `now`.
pub open spec fn none_due(tasks: Seq<Task>, now: u64) -> bool {
    forall|j: int| 0 <= j < tasks.len() ==> !(#[trigger] tasks[j]).due(now)
}

/// Completing: a running task becomes done; anything else stays as it is.
pub open spec fn completed(tasks: Seq<Task>, id: u64) -> (Seq<Task>, bool) {
    if id < tasks.len() && tasks[id as int].state is Running {
        (tasks.update(id as int, tasks[id as int].completed()), true)
    } else {
        (tasks, false)
    }
}

/// Scheduling again: a running task that has retries left becomes pending,
/// due `delay` seconds after `now`, with one more attempt counted; anything
/// else stays as it is.
pub open spec fn retried(tasks: Seq<Task>, id: u64, delay: u32, now: u64) -> (Seq<Task>, bool) {
    if id < tasks.len() && tasks[id as int].state is Running && tasks[id as int].retries_left() {
        (tasks.update(id as int, tasks[id as int].retried(delay, now)), true)
    } else {
        (tasks, false)
    }
}

/// Failing: a running task becomes failed and keeps the error; anything else
/// stays as it is.
pub open spec fn failed(tasks: Seq<Task>, id: u64, error: PipelineError) -> (Seq<Task>, bool) {
    if id < tasks.len() && tasks[id as int].state is Running {
        (tasks.update(id as int, tasks[id as int].failed(error)), true)
    } else {
        (tasks, false)
    }
}

/// The queue: every task that was ever enqueued, in the order of insertion.
pub struct TaskStore {
    tasks: Vec<Task>,
}

impl View for TaskStore {
    type V = Seq<Task>;

    closed spec fn view(&self) -> Seq<Task> {
        self.tasks@
    }
}

impl TaskStore {
    /// Whether the store keeps its invariant.
    pub open spec fn wf(&self) -> bool {
        well_formed(self@)
    }

    /// An empty store.
    pub fn new() -> (store: TaskStore)
        ensures
            store.wf(),
            store@ == Seq::<Task>::empty(),
    {
        TaskStore { tasks: Vec::new() }
    }

    /// Takes up a queue from the tasks that were kept of it, in the order of
    /// insertion. The tasks are taken as they are where they keep the
    /// invariant of the store, and refused where they do not: where an id is
    /// not the place of its task, two live tasks share a uniqueness key, a
    /// task was scheduled again more often than its stage allows, or a task
    /// carries an error without having failed, or has failed without one.
    pub fn restore(tasks: Vec<Task>) -> (out: Option<TaskStore>)
        ensures
            match out {
                Some(store) => well_formed(tasks@) && store@ == tasks@,
                None => !well_formed(tasks@),
            },
    {
        let mut i: usize = 0;
        while i < tasks.len()
            invariant
                i <= tasks.len(),
                forall|k: int|
                    0 <= k < i ==> {
                        &&& (#[trigger] tasks@[k]).id == k
                        &&& tasks@[k].attempts <= tasks@[k].job.retry_limit()
                        &&& (tasks@[k].error is Some <==> tasks@[k].state is Failed)
                    },
                forall|a: int, b: int|
                    0 <= a < b < i && (#[trigger] tasks@[a]).live() && (#[trigger] tasks@[b]).live()
                        ==> tasks@[a].job.key() != tasks@[b].job.key(),
            decreases tasks.len() - i,
        {
            let task = &tasks[i];
            let failed = match task.state {
                TaskState::Failed => true,
                _ => false,
            };
            if task.id != i as u64 || task.attempts > task.job.max_retries()
                || task.error.is_some() != failed {
                assert(!well_formed(tasks@)) by {
                    let at = tasks@[i as int];
                }
                return None;
            }
            let live = match task.state {
                TaskState::Pending => true,
                TaskState::Running => true,
                _ => false,
            };
            if live {
                let mut a: usize = 0;
                while a < i
                    invariant
                        a <= i < tasks.len(),
                        tasks@[i as int].live(),
                        forall|k: int|
                            0 <= k < a && (#[trigger] tasks@[k]).live() ==> tasks@[k].job.key()
                                != tasks@[i as int].job.key(),
                    decreases i - a,
                {
                    let earlier = &tasks[a];
                    let earlier_live = match earlier.state {
                        TaskState::Pending => true,
                        TaskState::Running => true,
                        _ => false,
                    };
                    if earlier_live && earlier.job.same_key(&tasks[i].job) {
                        assert(!well_formed(tasks@)) by {
                            assert(tasks@[a as int].live() && tasks@[i as int].live());
                        }
                        return None;
                    }
                    a = a + 1;
                }
            }
            i = i + 1;
        }
        Some(TaskStore { tasks })
    }

    /// The number of tasks that were ever enqueued.
    pub fn len(&self) -> (n: usize)
        ensures
            n == self@.len(),
    {
        self.tasks.len()
    }

    /// The task with the id `id`.
    pub fn get(&self, id: u64) -> (found: Option<&Task>)
        ensures
            match found {
                Some(task) => id < self@.len() && *task == self@[id as int],
                None => id >= self@.len(),
            },
    {
        if id < self.tasks.len() as u64 {
            let at = id as usize;
            Some(&self.tasks[at])
        } else {
            None
        }
    }

    /// Tells whether a live task has the uniqueness key of `job`.
    pub fn holds_live(&self, job: &Job) -> (yes: bool)
        ensures
            yes == has_live(self@, job.key()),
    {
        let mut i: usize = 0;
        while i < self.tasks.len()
            invariant
                i <= self.tasks.len(),
                forall|j: int| 0 <= j < i ==> !live_at(self@, job.key(), j),
            decreases self.tasks.len() - i,
        {
            let task = &self.tasks[i];
            let live = match task.state {
                TaskState::Pending => true,
                TaskState::Running => true,
                _ => false,
            };
            if live && task.job.same_key(job) {
                assert(live_at(self@, job.key(), i as int));
                return true;
            }
            i = i + 1;
        }
        false
    }

    /// Adds a pending task for `job`, due at once, unless a live task with
    /// the same uniqueness key exists: then nothing is added, which is no
    /// error. Afterwards exactly one live task has that key.
    pub fn enqueue(&mut self, job: Job, now: u64) -> (out: EnqueueOutcome)
        requires
            old(self).wf(),
        ensures
            final(self).wf(),
            (final(self)@, out) == enqueued(old(self)@, job, now),
            exactly_one_live(final(self)@, job.key()),
    {
        if self.holds_live(&job) {
            proof {
                lemma_live_is_unique(self@, job.key());
            }
            return EnqueueOutcome::DuplicateSkipped;
        }
        let id = self.tasks.len() as u64;
        let ghost before = self@;
        let ghost key = job.key();
        self.tasks.push(
            Task { id, job, attempts: 0, run_at: now, state: TaskState::Pending, error: None },
        );
        proof {
            let after = self@;
            assert(self.tasks.len() <= usize::MAX);
            assert(after =~= before.push(fresh_task(before, job, now)));
            assert forall|i: int, j: int|
                0 <= i < j < after.len() && (#[trigger] after[i]).live() && (
                #[trigger] after[j]).live() implies after[i].job.key() != after[j].job.key() by {
                if j == before.len() {
                    assert(!live_at(before, key, i));
                }
            }
            assert(live_at(after, key, before.len() as int));
            lemma_live_is_unique(after, key);
        }
        EnqueueOutcome::Enqueued(id)
    }

    /// Leases the task that is due first at the time `now`: the one with the
    /// earliest time from which it may run and, among those, the one that
    /// was inserted first. The task becomes running, so that no second lease
    /// can return it. `None`, and no change, where no task is due.
    pub fn lease_next(&mut self, now: u64) -> (out: Option<Task>)
        requires
            old(self).wf(),
        ensures
            final(self).wf(),
            match out {
                Some(task) => {
                    &&& first_due(old(self)@, now, task.id as int)
                    &&& task == old(self)@[task.id as int].leased()
                    &&& final(self)@ == old(self)@.update(task.id as int, task)
                },
                None => none_due(old(self)@, now) && final(self)@ == old(self)@,
            },
    {
        let mut best: Option<usize> = None;
        let mut i: usize = 0;
        while i < self.tasks.len()
            invariant
                i <= self.tasks.len(),
                match best {
                    Some(b) => {
                        &&& b < i
                        &&& self@[b as int].due(now)
                        &&& forall|j: int|
                            0 <= j < i && (#[trigger] self@[j]).due(now) ==> leased_before(
                                self@,
                                b as int,
                                j,
                            )
                    },
                    None => forall|j: int| 0 <= j < i ==> !(#[trigger] self@[j]).due(now),
                },
            decreases self.tasks.len() - i,
        {
            let task = &self.tasks[i];
            let pending = match task.state {
                TaskState::Pending => true,
                _ => false,
            };
            if pending && task.run_at <= now {
                let earlier = match best {
                    Some(b) => task.run_at < self.tasks[b].run_at,
                    None => true,
                };
                if earlier {
                    best = Some(i);
                }
            }
            i = i + 1;
        }
        match best {
            Some(b) => {
                let ghost before = self@;
                self.tasks[b].state = TaskState::Running;
                let found = &self.tasks[b];
                let task = Task {
                    id: found.id,
                    job: found.job.duplicate(),
                    attempts: found.attempts,
                    run_at: found.run_at,
                    state: TaskState::Running,
                    error: None,
                };
                proof {
                    assert(self@ =~= before.update(b as int, before[b as int].leased()));
                    lemma_update_keeps_well_formed(before, b as int, before[b as int].leased());
                }
                Some(task)
            },
            None => None,
        }
    }

    /// Marks a running task as done. Tells whether it did: a task that is
    /// not running, or does not exist, is left alone.
    pub fn complete(&mut self, id: u64) -> (applied: bool)
        requires
            old(self).wf(),
        ensures
            final(self).wf(),
            (final(self)@, applied) == completed(old(self)@, id),
    {
        let at = match self.running_at(id) {
            Some(at) => at,
            None => {
                return false;
            },
        };
        let ghost before = self@;
        self.tasks[at].state = TaskState::Done;
        proof {
            assert(self@ =~= before.update(id as int, before[id as int].completed()));
            lemma_update_keeps_well_formed(before, id as int, before[id as int].completed());
        }
        true
    }

    /// Schedules a running task again: it becomes pending and may run from
    /// `delay` seconds after `now`, with one more attempt counted. Tells
    /// whether it did: a task that is not running, has no retries left, or
    /// does not exist, is left alone.
    pub fn retry(&mut self, id: u64, delay: u32, now: u64) -> (applied: bool)
        requires
            old(self).wf(),
            now + delay <= u64::MAX,
        ensures
            final(self).wf(),
            (final(self)@, applied) == retried(old(self)@, id, delay, now),
    {
        let at = match self.running_at(id) {
            Some(at) => at,
            None => {
                return false;
            },
        };
        let limit = self.tasks[at].job.max_retries();
        if self.tasks[at].attempts >= limit {
            return false;
        }
        let ghost before = self@;
        let attempts = self.tasks[at].attempts + 1;
        self.tasks[at].state = TaskState::Pending;
        self.tasks[at].attempts = attempts;
        self.tasks[at].run_at = now + delay as u64;
        proof {
            assert(self@ =~= before.update(id as int, before[id as int].retried(delay, now)));
            lemma_update_keeps_well_formed(before, id as int, before[id as int].retried(delay, now));
        }
        true
    }

    /// Marks a running task as failed for good and keeps the error with it.
    /// Tells whether it did: a task that is not running, or does not exist,
    /// is left alone.
    pub fn fail(&mut self, id: u64, error: PipelineError) -> (applied: bool)
        requires
            old(self).wf(),
        ensures
            final(self).wf(),
            (final(self)@, applied) == failed(old(self)@, id, error),
    {
        let at = match self.running_at(id) {
            Some(at) => at,
            None => {
                return false;
            },
        };
        let ghost before = self@;
        self.tasks[at].state = TaskState::Failed;
        self.tasks[at].error = Some(error);
        proof {
            assert(self@ =~= before.update(id as int, before[id as int].failed(error)));
            lemma_update_keeps_well_formed(before, id as int, before[id as int].failed(error));
        }
        true
    }

    /// The place of the task with the id `id`, where it exists and is
    /// running.
    fn running_at(&self, id: u64) -> (place: Option<usize>)
        ensures
            match place {
                Some(at) => at == id && id < self@.len() && self@[id as int].state is Running,
                None => !(id < self@.len() && self@[id as int].state is Running),
            },
    {
        if id >= self.tasks.len() as u64 {
            return None;
        }
        let at = id as usize;
        match self.tasks[at].state {
            TaskState::Running => Some(at),
            _ => None,
        }
    }
}

/// In a well-formed store a live task is the only live one with its key.
pub proof fn lemma_live_is_unique(tasks: Seq<Task>, key: TaskKey)
    requires
        well_formed(tasks),
        has_live(tasks, key),
    ensures
        exactly_one_live(tasks, key),
{
    let i = choose|i: int| live_at(tasks, key, i);
    assert forall|j: int| live_at(tasks, key, j) implies #[trigger] same_place(i, j) by {
        if i < j {
            assert(tasks[i].live() && tasks[j].live());
        } else if j < i {
            assert(tasks[j].live() && tasks[i].live());
        }
    }
}

/// A store stays well formed when a live task is replaced by one with the
/// same id and payload, within its retry limit, that carries an error
/// exactly if it has failed.
pub proof fn lemma_update_keeps_well_formed(tasks: Seq<Task>, i: int, task: Task)
    requires
        well_formed(tasks),
        0 <= i < tasks.len(),
        tasks[i].live(),
        task.id == tasks[i].id,
        task.job == tasks[i].job,
        task.attempts <= task.job.retry_limit(),
        task.error is Some <==> task.state is Failed,
    ensures
        well_formed(tasks.update(i, task)),
{
    let after = tasks.update(i, task);
    assert forall|a: int, b: int|
        0 <= a < b < after.len() && (#[trigger] after[a]).live() && (#[trigger] after[b]).live()
        implies after[a].job.key() != after[b].job.key() by {
        assert(tasks[a].live() && tasks[b].live());
    }
}

/// Enqueuing twice under one uniqueness key, with nothing in between, adds
/// at most one task: the second request is skipped and changes nothing, and
/// exactly one live task has the key.
pub proof fn law_second_enqueue_is_skipped(
    tasks: Seq<Task>,
    first: Job,
    second: Job,
    now: u64,
    later: u64,
)
    requires
        well_formed(tasks),
        tasks.len() < u64::MAX,
        first.key() == second.key(),
    ensures
        enqueued(enqueued(tasks, first, now).0, second, later) == (
            enqueued(tasks, first, now).0,
            EnqueueOutcome::DuplicateSkipped,
        ),
        exactly_one_live(enqueued(tasks, first, now).0, first.key()),
{
    let after = enqueued(tasks, first, now).0;
    if !has_live(tasks, first.key()) {
        assert(live_at(after, first.key(), tasks.len() as int));
        assert forall|i: int, j: int|
            0 <= i < j < after.len() && (#[trigger] after[i]).live() && (
            #[trigger] after[j]).live() implies after[i].job.key() != after[j].job.key() by {
            if j == tasks.len() {
                assert(!live_at(tasks, first.key(), i));
            }
        }
    }
    lemma_live_is_unique(after, first.key());
}

/// Whether a task in the state `from` may be in the state `to` after one
/// operation of the store: a pending task may start to run; a running task
/// may end as done or failed, or become pending again; every task may stay
/// as it is.
pub open spec fn may_become(from: TaskState, to: TaskState) -> bool {
    from == to || match (from, to) {
        (TaskState::Pending, TaskState::Running) => true,
        (TaskState::Running, TaskState::Done) => true,
        (TaskState::Running, TaskState::Pending) => true,
        (TaskState::Running, TaskState::Failed) => true,
        _ => false,
    }
}

/// Every operation of the store takes each task along the life of a task:
/// from pending to running, and from running to done, to pending or to
/// failed. Enqueuing only adds a pending task.
pub proof fn law_tasks_follow_their_life(
    tasks: Seq<Task>,
    i: int,
    job: Job,
    id: u64,
    delay: u32,
    now: u64,
    error: PipelineError,
)
    requires
        0 <= i < tasks.len(),
    ensures
        may_become(tasks[i].state, enqueued(tasks, job, now).0[i].state),
        enqueued(tasks, job, now).1 is Enqueued ==> enqueued(tasks, job, now).0.last().state
            is Pending,
        may_become(tasks[i].state, completed(tasks, id).0[i].state),
        may_become(tasks[i].state, retried(tasks, id, delay, now).0[i].state),
        may_become(tasks[i].state, failed(tasks, id, error).0[i].state),
        forall|k: int|
            first_due(tasks, now, k) ==> may_become(
                tasks[i].state,
                #[trigger] tasks.update(k, tasks[k].leased())[i].state,
            ),
{
}

/// A task that is done or failed is never leased, whatever the time.
pub proof fn law_final_task_is_never_leased(tasks: Seq<Task>, now: u64, i: int)
    requires
        0 <= i < tasks.len(),
        !tasks[i].live(),
    ensures
        !first_due(tasks, now, i),
{
}

/// A task that is done or failed stays as it is under every operation of
/// the store.
pub proof fn law_final_task_stays(
    tasks: Seq<Task>,
    i: int,
    job: Job,
    id: u64,
    delay: u32,
    now: u64,
    error: PipelineError,
)
    requires
        0 <= i < tasks.len(),
        !tasks[i].live(),
    ensures
        enqueued(tasks, job, now).0[i] == tasks[i],
        completed(tasks, id).0[i] == tasks[i],
        retried(tasks, id, delay, now).0[i] == tasks[i],
        failed(tasks, id, error).0[i] == tasks[i],
        forall|k: int| first_due(tasks, now, k) ==> tasks.update(k, tasks[k].leased())[i] == tasks[i],
{
}

/// At any time at most one task is the one to lease: the order of leasing
/// leaves no choice.
pub proof fn law_lease_is_determined(tasks: Seq<Task>, now: u64, i: int, j: int)
    requires
        first_due(tasks, now, i),
        first_due(tasks, now, j),
    ensures
        i == j,
{
    assert(tasks[i].due(now) && tasks[j].due(now));
    assert(leased_before(tasks, i, j) && leased_before(tasks, j, i));
}

/// A leased task is not due any more: a second lease returns another task.
pub proof fn law_no_task_is_leased_twice(tasks: Seq<Task>, now: u64, later: u64, i: int, j: int)
    requires
        first_due(tasks, now, i),
        first_due(tasks.update(i, tasks[i].leased()), later, j),
    ensures
        i != j,
{
}

} // verus!
