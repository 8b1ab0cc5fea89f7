//! The kinds of task and what each carries.

use crate::extract::LLmExtractDetailsJob;
use crate::fetch::FetchReelJob;
use crate::transcribe::ExtractTranscriptJob;
use vstd::prelude::*;

verus! {

/// How often a failed fetch or transcribe task is tried again.
pub const STAGE_MAX_RETRIES: u32 = 3;

/// The stage that a task belongs to.
#[derive(Clone, Copy, Debug, PartialEq, Eq, Structural)]
pub enum TaskKind {
    Fetch,
    Transcribe,
    Extract,
}

/// The payload of a task, one variant for each stage.
#[derive(Clone, Debug, PartialEq, Eq)]
pub enum Job {
    Fetch(FetchReelJob),
    Transcribe(ExtractTranscriptJob),
    Extract(LLmExtractDetailsJob),
}

/// The uniqueness key of a task: its stage together with the external id of
/// the video to fetch, or with the stored id of the video to work on.
pub enum TaskKey {
    Fetch { reel_id: Seq<char> },
    Transcribe { video_id: i32 },
    Extract { video_id: i32 },
}

impl Job {
    /// The stage of the payload.
    pub open spec fn kind(self) -> TaskKind {
        match self {
            Job::Fetch(_) => TaskKind::Fetch,
            Job::Transcribe(_) => TaskKind::Transcribe,
            Job::Extract(_) => TaskKind::Extract,
        }
    }

    /// The uniqueness key of the payload.
    pub open spec fn key(self) -> TaskKey {
        match self {
            Job::Fetch(job) => TaskKey::Fetch { reel_id: job.reel_id@ },
            Job::Transcribe(job) => TaskKey::Transcribe { video_id: job.video_id },
            Job::Extract(job) => TaskKey::Extract { video_id: job.video_id },
        }
    }

    /// How many times a task with this payload is tried again after a
    /// failure. A failed extraction is never tried again by itself.
    pub open spec fn retry_limit(self) -> u32 {
        match self {
            Job::Fetch(_) => STAGE_MAX_RETRIES,
            Job::Transcribe(_) => STAGE_MAX_RETRIES,
            Job::Extract(_) => 0,
        }
    }

    /// Tells the stage of the payload.
    pub fn task_kind(&self) -> (kind: TaskKind)
        ensures
            kind == self.kind(),
    {
        match self {
            Job::Fetch(_) => TaskKind::Fetch,
            Job::Transcribe(_) => TaskKind::Transcribe,
            Job::Extract(_) => TaskKind::Extract,
        }
    }

    /// Tells whether two payloads have the same uniqueness key.
    pub fn same_key(&self, other: &Job) -> (same: bool)
        ensures
            same == (self.key() == other.key()),
    {
        match (self, other) {
            (Job::Fetch(a), Job::Fetch(b)) => a.reel_id == b.reel_id,
            (Job::Transcribe(a), Job::Transcribe(b)) => a.video_id == b.video_id,
            (Job::Extract(a), Job::Extract(b)) => a.video_id == b.video_id,
            _ => false,
        }
    }

    /// Tells how many times a task with this payload is tried again after a
    /// failure.
    pub fn max_retries(&self) -> (limit: u32)
        ensures
            limit == self.retry_limit(),
    {
        match self {
            Job::Fetch(_) => STAGE_MAX_RETRIES,
            Job::Transcribe(_) => STAGE_MAX_RETRIES,
            Job::Extract(_) => 0,
        }
    }

    /// A copy of the payload.
    pub fn duplicate(&self) -> (copy: Job)
        ensures
            copy == *self,
    {
        match self {
            Job::Fetch(job) => Job::Fetch(job.duplicate()),
            Job::Transcribe(job) => Job::Transcribe(job.duplicate()),
            Job::Extract(job) => Job::Extract(job.duplicate()),
        }
    }
}

} // verus!
