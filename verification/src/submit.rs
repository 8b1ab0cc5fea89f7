//! Submissions: how a link to a video enters the pipeline.
//!
//! A link of another shape than expected is refused at once. A link that is
//! accepted becomes a fetch task, unless a fetch task for the same video is
//! still pending or running.

use crate::error::PipelineError;
use crate::fetch::{first_group, FetchReelJob, REEL_URL_PATTERN};
use crate::job::{Job, TaskKey};
use crate::store::{
    enqueued, exactly_one_live, law_second_enqueue_is_skipped, well_formed, EnqueueOutcome, Task,
    TaskStore,
};
use vstd::prelude::*;

verus! {

/// Whether `job` is the fetch task for the link `reel_url` in which the
/// external id `reel_id` was found.
pub open spec fn fetch_of(
    job: FetchReelJob,
    reel_url: Seq<char>,
    reel_id: Seq<char>,
    auto_llm: bool,
) -> bool {
    job.reel_url@ == reel_url && job.reel_id@ == reel_id && job.auto_llm == auto_llm
}

/// Whether a submission of the link `reel_url` at the time `now` takes the
/// store from `before` to `after` with the result `out`: a link without an
/// external id is refused and changes nothing; any other is enqueued as a
/// fetch task.
pub open spec fn submitted(
    before: Seq<Task>,
    reel_url: Seq<char>,
    auto_llm: bool,
    now: u64,
    after: Seq<Task>,
    out: Result<EnqueueOutcome, PipelineError>,
) -> bool {
    match first_group(REEL_URL_PATTERN@, reel_url) {
        Some(reel_id) => exists|job: FetchReelJob|
            {
                &&& #[trigger] fetch_of(job, reel_url, reel_id, auto_llm)
                &&& out is Ok
                &&& (after, out->Ok_0) == enqueued(before, Job::Fetch(job), now)
            },
        None => {
            &&& after == before
            &&& out matches Err(PipelineError::InvalidInput { url })
            &&& url@ == reel_url
        },
    }
}

/// Takes a link to a video into the pipeline. A link of another shape than
/// expected is refused. For any other, a fetch task is enqueued, unless one
/// for the same video is live: afterwards exactly one live fetch task exists
/// for the external id of the link.
pub fn submit(store: &mut TaskStore, reel_url: String, auto_llm: bool, now: u64) -> (out: Result<
    EnqueueOutcome,
    PipelineError,
>)
    requires
        old(store).wf(),
    ensures
        final(store).wf(),
        submitted(old(store)@, reel_url@, auto_llm, now, final(store)@, out),
        out is Ok ==> exactly_one_live(
            final(store)@,
            TaskKey::Fetch { reel_id: first_group(REEL_URL_PATTERN@, reel_url@)->Some_0 },
        ),
{
    match FetchReelJob::new(reel_url, auto_llm) {
        Ok(job) => {
            let ghost made = job;
            let outcome = store.enqueue(Job::Fetch(job), now);
            assert(fetch_of(
                made,
                reel_url@,
                first_group(REEL_URL_PATTERN@, reel_url@)->Some_0,
                auto_llm,
            ));
            Ok(outcome)
        },
        Err(error) => Err(error),
    }
}

/// Of two submissions for one video, with nothing in between, the second is
/// skipped and changes nothing: exactly one live fetch task exists for the
/// video, whatever the two links look like otherwise.
pub proof fn law_resubmission_is_skipped(
    start: Seq<Task>,
    first_url: Seq<char>,
    second_url: Seq<char>,
    first_flag: bool,
    second_flag: bool,
    now: u64,
    later: u64,
    between: Seq<Task>,
    first_out: Result<EnqueueOutcome, PipelineError>,
    end: Seq<Task>,
    second_out: Result<EnqueueOutcome, PipelineError>,
)
    requires
        well_formed(start),
        start.len() < u64::MAX,
        first_group(REEL_URL_PATTERN@, first_url) is Some,
        first_group(REEL_URL_PATTERN@, first_url) == first_group(REEL_URL_PATTERN@, second_url),
        submitted(start, first_url, first_flag, now, between, first_out),
        submitted(between, second_url, second_flag, later, end, second_out),
    ensures
        second_out == Ok::<EnqueueOutcome, PipelineError>(EnqueueOutcome::DuplicateSkipped),
        end == between,
        exactly_one_live(
            end,
            TaskKey::Fetch { reel_id: first_group(REEL_URL_PATTERN@, first_url)->Some_0 },
        ),
{
    let reel_id = first_group(REEL_URL_PATTERN@, first_url)->Some_0;
    let first = choose|job: FetchReelJob|
        {
            &&& #[trigger] fetch_of(job, first_url, reel_id, first_flag)
            &&& first_out is Ok
            &&& (between, first_out->Ok_0) == enqueued(start, Job::Fetch(job), now)
        };
    let second = choose|job: FetchReelJob|
        {
            &&& #[trigger] fetch_of(job, second_url, reel_id, second_flag)
            &&& second_out is Ok
            &&& (end, second_out->Ok_0) == enqueued(between, Job::Fetch(job), later)
        };
    law_second_enqueue_is_skipped(start, Job::Fetch(first), Job::Fetch(second), now, later);
}

} // verus!
