//! The fetch stage: from a source URL to a stored video.
//!
//! The stage does nothing for a video that the store holds already. It
//! downloads the video and its metadata unless both are there from an earlier
//! attempt, stores the video and asks for its transcription.

use crate::backoff::{backoff, backoff_seconds, MAX_BACKOFF_ATTEMPT};
use crate::error::{check_exit, PipelineError};
use crate::job::{Job, STAGE_MAX_RETRIES};
use crate::json::{
    members_view, members_without, parse_json, parsed_json, without_keys, Json, JsonValue, Member,
    MemberValue,
};
use crate::transcribe::ExtractTranscriptJob;
use vstd::prelude::*;
use vstd::string::StringExecFns;

verus! {

/// The shape of a source URL. Its first group is the external id of the video.
pub const REEL_URL_PATTERN: &'static str = "https://[^/]+/reel/([a-zA-Z0-9_-]+)(?:/.+)?";

/// What the first capture group of a pattern holds in the leftmost match that
/// the `regex` crate finds in a haystack; `None` where the pattern does not
/// compile, nothing matches, or the group took no part in the match.
pub uninterp spec fn first_group(pattern: Seq<char>, haystack: Seq<char>) -> Option<Seq<char>>;

/// Compiles the pattern with `regex::Regex::new`, searches the haystack with
/// `Regex::captures` and reads group 1 with `Captures::get`. The result is the
/// text of that group, and `None` where any of the three gives nothing.
#[verifier::external_body]
fn capture_first_group(pattern: &str, haystack: &str) -> (found: Option<String>)
    ensures
        match found {
            Some(text) => first_group(pattern@, haystack@) == Some(text@),
            None => first_group(pattern@, haystack@).is_none(),
        },
{
    let regex = regex::Regex::new(pattern).ok()?;
    let captures = regex.captures(haystack)?;
    captures.get(1).map(|group| group.as_str().to_string())
}

/// What the source says of a video: its caption, and whatever else the
/// metadata sidecar holds.
#[derive(Debug, PartialEq, Eq)]
pub struct ReelInfo {
    pub description: String,
    pub rest: Vec<Member>,
}

/// The mathematical model of the metadata of a video.
pub struct ReelInfoView {
    pub description: Seq<char>,
    pub rest: Seq<MemberValue>,
}

impl View for ReelInfo {
    type V = ReelInfoView;

    open spec fn view(&self) -> ReelInfoView {
        ReelInfoView { description: self.description@, rest: members_view(self.rest@) }
    }
}

/// The member that makes the metadata of a video.
pub open spec fn reel_info_keys() -> Seq<Seq<char>> {
    seq!["description"@]
}

/// The metadata that a document describes: an object whose member
/// `description` is a string. Its other members are kept as they are.
pub open spec fn reel_info(v: JsonValue) -> Option<ReelInfoView> {
    match (v, v.member("description"@)) {
        (JsonValue::Object(members), Some(JsonValue::Str(description))) => Some(
            ReelInfoView { description, rest: without_keys(members, reel_info_keys()) },
        ),
        _ => None,
    }
}

/// The metadata in the text of a sidecar.
pub open spec fn sidecar_info(text: Seq<char>) -> Option<ReelInfoView> {
    match parsed_json(text) {
        Some(v) => reel_info(v),
        None => None,
    }
}

impl ReelInfo {
    /// Reads the metadata of a video from the document of its sidecar.
    pub fn from_json(json: &Json) -> (out: Option<ReelInfo>)
        ensures
            match out {
                Some(found) => reel_info(json@) == Some(found@),
                None => reel_info(json@).is_none(),
            },
    {
        let members = match json.as_object() {
            Some(members) => members,
            None => {
                return None;
            },
        };
        let description = match json.get("description") {
            Some(value) => match value.as_str() {
                Some(text) => text.clone(),
                None => {
                    return None;
                },
            },
            None => {
                return None;
            },
        };
        let keys = vec![String::from_str("description")];
        assert(keys.deep_view() =~= reel_info_keys());
        let rest = members_without(members, &keys);
        Some(ReelInfo { description, rest })
    }

    /// Reads the metadata of a video from its sidecar, given the document
    /// `parsed` that the sidecar holds, or `None` where it is no JSON. A
    /// sidecar that does not hold the metadata is a shape error that carries
    /// its text.
    pub fn from_parsed(text: String, parsed: Option<Json>) -> (out: Result<ReelInfo, PipelineError>)
        ensures
            match (
                match parsed {
                    Some(json) => reel_info(json@),
                    None => None,
                }
            ) {
                Some(info) => out matches Ok(found) && found@ == info,
                None => out matches Err(PipelineError::ResponseShapeError { detail }) && detail@
                    == text@,
            },
    {
        let found = match parsed {
            Some(json) => ReelInfo::from_json(&json),
            None => None,
        };
        match found {
            Some(info) => Ok(info),
            None => Err(PipelineError::ResponseShapeError { detail: text }),
        }
    }

    /// Reads the metadata of a video from the text of its sidecar.
    pub fn from_sidecar(text: String) -> (out: Result<ReelInfo, PipelineError>)
        ensures
            match sidecar_info(text@) {
                Some(info) => out matches Ok(found) && found@ == info,
                None => out matches Err(PipelineError::ResponseShapeError { detail }) && detail@
                    == text@,
            },
    {
        let parsed = parse_json(text.as_str());
        Self::from_parsed(text, parsed)
    }
}

/// Whether the video has to be downloaded.
#[derive(Clone, Copy, Debug, PartialEq, Eq, Structural)]
pub enum DownloadPlan {
    /// The media file and its sidecar are there: they are used as they are.
    Reuse,
    /// The downloader fetches both.
    Download,
}

/// Where the fetch stage stands.
#[derive(Clone, Debug, PartialEq, Eq)]
pub enum FetchState {
    Start,
    CheckingStore,
    CheckingArtifacts,
    Downloading,
    Moving,
    ReadingSidecar,
    Storing,
    Finished,
}

/// What the outside reports to the fetch stage.
#[derive(Clone, Debug, PartialEq, Eq)]
pub enum FetchEvent {
    /// The task was leased.
    Started,
    /// Whether the store holds a video with the external id.
    VideoLooked { known: bool },
    /// Whether the media file and the sidecar of the video exist.
    ArtifactsProbed { media: bool, sidecar: bool },
    /// The downloader ended.
    Downloaded { exit_code: i32, stderr: String },
    /// The downloaded files are in their place.
    Moved,
    /// The text of the sidecar.
    SidecarRead { text: String },
    /// The video was stored, under this id.
    Stored { video_id: i32 },
    /// The outside work failed.
    Faulted(PipelineError),
}

/// What the fetch stage asks the outside to do next.
#[derive(Debug, PartialEq, Eq)]
pub enum FetchAction {
    /// Look whether the store holds a video with the external id.
    FindVideo { reel_id: String },
    /// Look whether the media file and the sidecar of the video exist.
    ProbeArtifacts { reel_id: String },
    /// Run the downloader on the source URL.
    Download { reel_url: String },
    /// Move the downloaded files to their place.
    MoveArtifacts { reel_id: String },
    /// Read the sidecar of the video.
    ReadSidecar { reel_id: String },
    /// Store the video.
    StoreVideo { reel_id: String, reel_url: String, info: ReelInfo },
    /// End the stage with this result.
    Finish(Result<Option<Job>, PipelineError>),
}

/// The payload of a fetch task: a video to download and store.
#[derive(Clone, Debug, PartialEq, Eq)]
pub struct FetchReelJob {
    pub reel_url: String,
    pub reel_id: String,
    /// Whether the submitter asked for the recipes along with the download.
    /// The flag is kept with the task and plays no part in the stage: the
    /// transcription follows every stored video, and the extraction every
    /// stored transcript.
    pub auto_llm: bool,
}

impl FetchReelJob {
    /// What `new` makes of a URL, given the external id that was found in it.
    pub open spec fn built(
        reel_url: Seq<char>,
        found: Option<Seq<char>>,
        auto_llm: bool,
        made: Result<FetchReelJob, PipelineError>,
    ) -> bool {
        match found {
            Some(id) => made matches Ok(job) && job.reel_url@ == reel_url && job.reel_id@ == id
                && job.auto_llm == auto_llm,
            None => made matches Err(PipelineError::InvalidInput { url }) && url@ == reel_url,
        }
    }

    /// Builds the job for a URL in which the external id `found` was found,
    /// and rejects the URL where none was.
    pub fn from_capture(reel_url: String, found: Option<String>, auto_llm: bool) -> (made: Result<
        FetchReelJob,
        PipelineError,
    >)
        ensures
            Self::built(
                reel_url@,
                match found {
                    Some(id) => Some(id@),
                    None => None,
                },
                auto_llm,
                made,
            ),
    {
        match found {
            Some(reel_id) => Ok(FetchReelJob { reel_url, reel_id, auto_llm }),
            None => Err(PipelineError::InvalidInput { url: reel_url }),
        }
    }

    /// A copy of the payload.
    pub fn duplicate(&self) -> (copy: FetchReelJob)
        ensures
            copy == *self,
    {
        FetchReelJob {
            reel_url: self.reel_url.clone(),
            reel_id: self.reel_id.clone(),
            auto_llm: self.auto_llm,
        }
    }

    /// Whether a second task for the same video is skipped while one is live.
    pub fn uniq(&self) -> (yes: bool)
        ensures
            yes,
    {
        true
    }

    /// How often a failed fetch is tried again.
    pub fn max_retries(&self) -> (limit: i32)
        ensures
            limit == STAGE_MAX_RETRIES,
    {
        3
    }

    /// The delay, in seconds, before a failed attempt is tried again.
    pub fn backoff(&self, attempt: u32) -> (seconds: u32)
        requires
            attempt <= MAX_BACKOFF_ATTEMPT,
        ensures
            seconds == backoff_seconds(attempt as nat),
    {
        backoff(attempt)
    }

    /// Decides how to get at the video: a media file and a sidecar that both
    /// exist are used again, and the downloader runs in every other case.
    pub fn download_reel(media_cached: bool, sidecar_cached: bool) -> (plan: DownloadPlan)
        ensures
            plan == if media_cached && sidecar_cached {
                DownloadPlan::Reuse
            } else {
                DownloadPlan::Download
            },
    {
        if media_cached && sidecar_cached {
            DownloadPlan::Reuse
        } else {
            DownloadPlan::Download
        }
    }

    /// The task that follows a stored video: its transcription.
    pub open spec fn follow_up(self, video_id: i32) -> Job {
        Job::Transcribe(ExtractTranscriptJob { video_id, reel_id: self.reel_id })
    }

    /// Whether the stage, in `state`, answers `event` with `action` and goes
    /// on in `next`.
    pub open spec fn stepped(
        self,
        state: FetchState,
        event: FetchEvent,
        next: FetchState,
        action: FetchAction,
    ) -> bool {
        match (state, event) {
            (_, FetchEvent::Faulted(error)) => next is Finished && action == FetchAction::Finish(
                Err(error),
            ),
            (FetchState::Start, FetchEvent::Started) => next is CheckingStore && action == (
            FetchAction::FindVideo { reel_id: self.reel_id }),
            (FetchState::CheckingStore, FetchEvent::VideoLooked { known }) => if known {
                next is Finished && action == FetchAction::Finish(Ok(None))
            } else {
                next is CheckingArtifacts && action == (FetchAction::ProbeArtifacts {
                    reel_id: self.reel_id,
                })
            },
            (FetchState::CheckingArtifacts, FetchEvent::ArtifactsProbed { media, sidecar }) => if media
                && sidecar {
                next is ReadingSidecar && action == (FetchAction::ReadSidecar {
                    reel_id: self.reel_id,
                })
            } else {
                next is Downloading && action == (FetchAction::Download { reel_url: self.reel_url })
            },
            (FetchState::Downloading, FetchEvent::Downloaded { exit_code, stderr }) => if exit_code
                == 0 {
                next is Moving && action == (FetchAction::MoveArtifacts { reel_id: self.reel_id })
            } else {
                next is Finished && action == FetchAction::Finish(
                    Err(PipelineError::ExternalToolFailure { exit_code, stderr }),
                )
            },
            (FetchState::Moving, FetchEvent::Moved) => next is ReadingSidecar && action == (
            FetchAction::ReadSidecar { reel_id: self.reel_id }),
            (FetchState::ReadingSidecar, FetchEvent::SidecarRead { text }) => match sidecar_info(
                text@,
            ) {
                Some(found) => {
                    &&& next is Storing
                    &&& action matches FetchAction::StoreVideo { reel_id, reel_url, info }
                    &&& reel_id == self.reel_id
                    &&& reel_url == self.reel_url
                    &&& info@ == found
                },
                None => {
                    &&& next is Finished
                    &&& action matches FetchAction::Finish(
                        Err(PipelineError::ResponseShapeError { detail }),
                    )
                    &&& detail@ == text@
                },
            },
            (FetchState::Storing, FetchEvent::Stored { video_id }) => next is Finished && action
                == FetchAction::Finish(Ok(Some(self.follow_up(video_id)))),
            _ => {
                &&& next is Finished
                &&& action matches FetchAction::Finish(
                    Err(PipelineError::UnexpectedFault { detail }),
                )
                &&& detail@ == Seq::<char>::empty()
            },
        }
    }

    /// Takes the stage one step further: answers what the outside reports
    /// with what it is to do next. The stage ends at once, with success, for
    /// a video that the store holds. Otherwise it uses the media file and the
    /// sidecar of an earlier attempt, or has both downloaded, reads the
    /// sidecar, has the video stored and ends with the request to transcribe
    /// it. A failing downloader ends the stage with a failure that may pass,
    /// an unreadable sidecar with one that is final, and a report that does
    /// not fit the state with an unexpected fault.
    pub fn exec(&self, state: FetchState, event: FetchEvent) -> (out: (FetchState, FetchAction))
        ensures
            self.stepped(state, event, out.0, out.1),
    {
        match (state, event) {
            (_, FetchEvent::Faulted(error)) => (
                FetchState::Finished,
                FetchAction::Finish(Err(error)),
            ),
            (FetchState::Start, FetchEvent::Started) => (
                FetchState::CheckingStore,
                FetchAction::FindVideo { reel_id: self.reel_id.clone() },
            ),
            (FetchState::CheckingStore, FetchEvent::VideoLooked { known }) => {
                if known {
                    (FetchState::Finished, FetchAction::Finish(Ok(None)))
                } else {
                    (
                        FetchState::CheckingArtifacts,
                        FetchAction::ProbeArtifacts { reel_id: self.reel_id.clone() },
                    )
                }
            },
            (FetchState::CheckingArtifacts, FetchEvent::ArtifactsProbed { media, sidecar }) => {
                match Self::download_reel(media, sidecar) {
                    DownloadPlan::Reuse => (
                        FetchState::ReadingSidecar,
                        FetchAction::ReadSidecar { reel_id: self.reel_id.clone() },
                    ),
                    DownloadPlan::Download => (
                        FetchState::Downloading,
                        FetchAction::Download { reel_url: self.reel_url.clone() },
                    ),
                }
            },
            (FetchState::Downloading, FetchEvent::Downloaded { exit_code, stderr }) => {
                match check_exit(exit_code, stderr) {
                    Ok(()) => (
                        FetchState::Moving,
                        FetchAction::MoveArtifacts { reel_id: self.reel_id.clone() },
                    ),
                    Err(error) => (FetchState::Finished, FetchAction::Finish(Err(error))),
                }
            },
            (FetchState::Moving, FetchEvent::Moved) => (
                FetchState::ReadingSidecar,
                FetchAction::ReadSidecar { reel_id: self.reel_id.clone() },
            ),
            (FetchState::ReadingSidecar, FetchEvent::SidecarRead { text }) => {
                match ReelInfo::from_sidecar(text) {
                    Ok(info) => (
                        FetchState::Storing,
                        FetchAction::StoreVideo {
                            reel_id: self.reel_id.clone(),
                            reel_url: self.reel_url.clone(),
                            info,
                        },
                    ),
                    Err(error) => (FetchState::Finished, FetchAction::Finish(Err(error))),
                }
            },
            (FetchState::Storing, FetchEvent::Stored { video_id }) => (
                FetchState::Finished,
                FetchAction::Finish(
                    Ok(
                        Some(
                            Job::Transcribe(
                                ExtractTranscriptJob { video_id, reel_id: self.reel_id.clone() },
                            ),
                        ),
                    ),
                ),
            ),
            _ => (
                FetchState::Finished,
                FetchAction::Finish(Err(PipelineError::UnexpectedFault { detail: String::new() })),
            ),
        }
    }

    /// Builds the job for a source URL. The URL is accepted exactly when it
    /// matches [`REEL_URL_PATTERN`], and the external id is what the
    /// pattern's group captures.
    pub fn new(reel_url: String, auto_llm: bool) -> (made: Result<FetchReelJob, PipelineError>)
        ensures
            Self::built(reel_url@, first_group(REEL_URL_PATTERN@, reel_url@), auto_llm, made),
    {
        let found = capture_first_group(REEL_URL_PATTERN, reel_url.as_str());
        Self::from_capture(reel_url, found, auto_llm)
    }
}

/// The downloader runs only where the media file or the sidecar of the video
/// is missing.
pub proof fn law_cached_artifacts_are_reused(
    job: FetchReelJob,
    state: FetchState,
    event: FetchEvent,
    next: FetchState,
    action: FetchAction,
)
    requires
        job.stepped(state, event, next, action),
        action is Download,
    ensures
        state is CheckingArtifacts,
        event matches FetchEvent::ArtifactsProbed { media, sidecar } && !(media && sidecar),
{
}

/// The stage asks for the transcription only once the video is stored.
pub proof fn law_transcription_follows_the_stored_video(
    job: FetchReelJob,
    state: FetchState,
    event: FetchEvent,
    next: FetchState,
    action: FetchAction,
)
    requires
        job.stepped(state, event, next, action),
        action matches FetchAction::Finish(Ok(Some(_))),
    ensures
        state is Storing,
        event matches FetchEvent::Stored { video_id } && action == FetchAction::Finish(
            Ok(Some(job.follow_up(video_id))),
        ),
{
}

/// With the media file and the sidecar of an earlier attempt in place, the
/// stage goes on without the downloader: it reads the sidecar, has the video
/// stored and ends with the request to transcribe the stored video.
pub proof fn law_cached_fetch_reaches_transcription(
    job: FetchReelJob,
    text: String,
    video_id: i32,
    reading: FetchState,
    read: FetchAction,
    storing: FetchState,
    store: FetchAction,
    finished: FetchState,
    finish: FetchAction,
)
    requires
        sidecar_info(text@) is Some,
        job.stepped(
            FetchState::CheckingArtifacts,
            FetchEvent::ArtifactsProbed { media: true, sidecar: true },
            reading,
            read,
        ),
        job.stepped(reading, FetchEvent::SidecarRead { text }, storing, store),
        job.stepped(storing, FetchEvent::Stored { video_id }, finished, finish),
    ensures
        read == (FetchAction::ReadSidecar { reel_id: job.reel_id }),
        store matches FetchAction::StoreVideo { reel_id, reel_url, info } && reel_id == job.reel_id
            && reel_url == job.reel_url && Some(info@) == sidecar_info(text@),
        finish == FetchAction::Finish(
            Ok(Some(Job::Transcribe(ExtractTranscriptJob { video_id, reel_id: job.reel_id }))),
        ),
{
}

} // verus!
