//! The transcribe stage: from a stored video to its transcript.
//!
//! The stage derives the audio of the video unless it is there already, has
//! the speech-to-text service transcribe it, stores the transcript with the
//! video and asks for the extraction of recipes.

use crate::backoff::{backoff, backoff_seconds, MAX_BACKOFF_ATTEMPT};
use crate::error::{check_exit, is_success, success_status, PipelineError, ServiceFault};
use crate::extract::LLmExtractDetailsJob;
use crate::job::{Job, STAGE_MAX_RETRIES};
use crate::json::{
    items_view, members_view, members_without, parse_json, parsed_json, without_keys, Json,
    JsonValue, Member, MemberValue,
};
use crate::number::{i32_of, parse_i32};
use vstd::prelude::*;
use vstd::string::StringExecFns;

verus! {

/// One timed piece of a transcript.
#[derive(Debug, PartialEq, Eq)]
pub struct Segment {
    pub id: i32,
    /// Where the segment starts, in seconds, as the service wrote the number.
    pub start: String,
    /// Where the segment ends, in seconds, as the service wrote the number.
    pub end: String,
    pub text: String,
    /// What else the service said of the segment.
    pub other: Vec<Member>,
}

/// The mathematical model of a segment.
pub struct SegmentView {
    pub id: i32,
    pub start: Seq<char>,
    pub end: Seq<char>,
    pub text: Seq<char>,
    pub other: Seq<MemberValue>,
}

impl View for Segment {
    type V = SegmentView;

    open spec fn view(&self) -> SegmentView {
        SegmentView {
            id: self.id,
            start: self.start@,
            end: self.end@,
            text: self.text@,
            other: members_view(self.other@),
        }
    }
}

impl DeepView for Segment {
    type V = SegmentView;

    open spec fn deep_view(&self) -> SegmentView {
        self@
    }
}

/// What the speech-to-text service made of the audio of a video.
#[derive(Debug, PartialEq, Eq)]
pub struct Transcript {
    pub text: String,
    pub segments: Vec<Segment>,
    /// What else the service said.
    pub other: Vec<Member>,
}

/// The mathematical model of a transcript.
pub struct TranscriptView {
    pub text: Seq<char>,
    pub segments: Seq<SegmentView>,
    pub other: Seq<MemberValue>,
}

impl View for Transcript {
    type V = TranscriptView;

    open spec fn view(&self) -> TranscriptView {
        TranscriptView {
            text: self.text@,
            segments: self.segments.deep_view(),
            other: members_view(self.other@),
        }
    }
}

/// The members that make a segment.
pub open spec fn segment_keys() -> Seq<Seq<char>> {
    seq!["id"@, "start"@, "end"@, "text"@]
}

/// The members that make a transcript.
pub open spec fn transcript_keys() -> Seq<Seq<char>> {
    seq!["text"@, "segments"@]
}

/// The segment that a document describes: an object whose member `id` is a
/// whole number that fits in an `i32`, whose members `start` and `end` are
/// numbers and whose member `text` is a string. Its other members are kept
/// as they are.
pub open spec fn segment(v: JsonValue) -> Option<SegmentView> {
    match (v, v.member("id"@), v.member("start"@), v.member("end"@), v.member("text"@)) {
        (
            JsonValue::Object(members),
            Some(JsonValue::Number(id)),
            Some(JsonValue::Number(start)),
            Some(JsonValue::Number(end)),
            Some(JsonValue::Str(text)),
        ) => match i32_of(id) {
            Some(id) => Some(
                SegmentView { id, start, end, text, other: without_keys(members, segment_keys()) },
            ),
            None => None,
        },
        _ => None,
    }
}

/// The segments of a document that is an array of segments.
pub open spec fn segment_list(v: JsonValue) -> Option<Seq<SegmentView>> {
    match v {
        JsonValue::Array(items) => if forall|i: int|
            0 <= i < items.len() ==> segment(#[trigger] items[i]) is Some {
            Some(Seq::new(items.len(), |i: int| segment(items[i])->Some_0))
        } else {
            None
        },
        _ => None,
    }
}

/// The transcript that a document describes: an object whose member `text`
/// is a string and whose member `segments` is an array of segments. Its
/// other members are kept as they are.
pub open spec fn transcript(v: JsonValue) -> Option<TranscriptView> {
    match (v, v.member("text"@), v.member("segments"@)) {
        (JsonValue::Object(members), Some(JsonValue::Str(text)), Some(list)) => match segment_list(
            list,
        ) {
            Some(segments) => Some(
                TranscriptView { text, segments, other: without_keys(members, transcript_keys()) },
            ),
            None => None,
        },
        _ => None,
    }
}

/// Whether `out` is what the answer of the speech-to-text service comes to,
/// given the document `parsed` that its body holds: the transcript, or a
/// failure that carries the status and the body and says what was wrong.
pub open spec fn transcribed(
    status: u16,
    body: Seq<char>,
    parsed: Option<JsonValue>,
    out: Result<Transcript, PipelineError>,
) -> bool {
    let fault = if !success_status(status) {
        Some(ServiceFault::Status)
    } else {
        match parsed {
            None => Some(ServiceFault::MalformedJson),
            Some(v) => if transcript(v) is None {
                Some(ServiceFault::UnexpectedShape)
            } else {
                None
            },
        }
    };
    match fault {
        Some(fault) => out matches Err(
            PipelineError::UpstreamServiceFailure { status: s, body: b, fault: f },
        ) && s == status && b@ == body && f == fault,
        None => out matches Ok(found) && found@ == transcript(parsed->Some_0)->Some_0,
    }
}

/// Reads one segment.
pub fn segment_of(json: &Json) -> (out: Option<Segment>)
    ensures
        match out {
            Some(found) => segment(json@) == Some(found@),
            None => segment(json@).is_none(),
        },
{
    let members = match json.as_object() {
        Some(members) => members,
        None => {
            return None;
        },
    };
    let id = match json.get("id") {
        Some(value) => match value.as_number() {
            Some(number) => match parse_i32(number.as_str()) {
                Some(id) => id,
                None => {
                    return None;
                },
            },
            None => {
                return None;
            },
        },
        None => {
            return None;
        },
    };
    let start = match json.get("start") {
        Some(value) => match value.as_number() {
            Some(number) => number.clone(),
            None => {
                return None;
            },
        },
        None => {
            return None;
        },
    };
    let end = match json.get("end") {
        Some(value) => match value.as_number() {
            Some(number) => number.clone(),
            None => {
                return None;
            },
        },
        None => {
            return None;
        },
    };
    let text = match json.get("text") {
        Some(value) => match value.as_str() {
            Some(text) => text.clone(),
            None => {
                return None;
            },
        },
        None => {
            return None;
        },
    };
    let keys = vec![
        String::from_str("id"),
        String::from_str("start"),
        String::from_str("end"),
        String::from_str("text"),
    ];
    assert(keys.deep_view() =~= segment_keys());
    let other = members_without(members, &keys);
    Some(Segment { id, start, end, text, other })
}

/// Reads an array of segments.
pub fn segment_list_of(json: &Json) -> (out: Option<Vec<Segment>>)
    ensures
        match out {
            Some(list) => segment_list(json@) == Some(list.deep_view()),
            None => segment_list(json@).is_none(),
        },
{
    let items = match json.as_array() {
        Some(items) => items,
        None => {
            return None;
        },
    };
    let ghost model = items_view(items@);
    let mut out: Vec<Segment> = Vec::new();
    let mut i: usize = 0;
    while i < items.len()
        invariant
            i <= items.len(),
            model == items_view(items@),
            json@ == JsonValue::Array(model),
            out@.len() == i,
            forall|j: int|
                0 <= j < i ==> segment(#[trigger] model[j]) is Some && out@[j]@ == segment(
                    model[j],
                )->Some_0,
        decreases items.len() - i,
    {
        match segment_of(&items[i]) {
            Some(found) => {
                out.push(found);
            },
            None => {
                assert(!(segment(model[i as int]) is Some));
                return None;
            },
        }
        i = i + 1;
    }
    assert(out.deep_view() =~= Seq::new(model.len(), |i: int| segment(model[i])->Some_0));
    Some(out)
}

impl Transcript {
    /// Reads a transcript from the document that the service answered with.
    pub fn from_json(json: &Json) -> (out: Option<Transcript>)
        ensures
            match out {
                Some(found) => transcript(json@) == Some(found@),
                None => transcript(json@).is_none(),
            },
    {
        let members = match json.as_object() {
            Some(members) => members,
            None => {
                return None;
            },
        };
        let text = match json.get("text") {
            Some(value) => match value.as_str() {
                Some(text) => text.clone(),
                None => {
                    return None;
                },
            },
            None => {
                return None;
            },
        };
        let segments = match json.get("segments") {
            Some(value) => match segment_list_of(value) {
                Some(segments) => segments,
                None => {
                    return None;
                },
            },
            None => {
                return None;
            },
        };
        let keys = vec![String::from_str("text"), String::from_str("segments")];
        assert(keys.deep_view() =~= transcript_keys());
        let other = members_without(members, &keys);
        Some(Transcript { text, segments, other })
    }
}

/// Whether the audio of a video has to be derived.
#[derive(Clone, Copy, Debug, PartialEq, Eq, Structural)]
pub enum AudioPlan {
    /// The audio is there: it is used as it is.
    Reuse,
    /// The audio is derived from the video by the transcoder.
    Transcode,
}

/// The operations of the transcribe stage.
#[derive(Clone, Copy, Debug, PartialEq, Eq)]
pub struct ExtractTranscript;

impl ExtractTranscript {
    /// Decides how to get at the audio of a video: an audio artifact that
    /// exists is used again, and only a missing one is derived.
    pub fn extract_audio(audio_cached: bool) -> (plan: AudioPlan)
        ensures
            plan == if audio_cached {
                AudioPlan::Reuse
            } else {
                AudioPlan::Transcode
            },
    {
        if audio_cached {
            AudioPlan::Reuse
        } else {
            AudioPlan::Transcode
        }
    }

    /// Judges the answer of the speech-to-text service, given the document
    /// `parsed` that its body holds, or `None` where the body is no JSON.
    /// Every failure may pass with another attempt, and says whether the
    /// status, the JSON or its shape was wrong.
    pub fn read_transcript(status: u16, raw_output: String, parsed: Option<Json>) -> (out: Result<
        Transcript,
        PipelineError,
    >)
        ensures
            transcribed(
                status,
                raw_output@,
                match parsed {
                    Some(json) => Some(json@),
                    None => None,
                },
                out,
            ),
    {
        if !is_success(status) {
            return Err(
                PipelineError::UpstreamServiceFailure {
                    status,
                    body: raw_output,
                    fault: ServiceFault::Status,
                },
            );
        }
        let json = match parsed {
            Some(json) => json,
            None => {
                return Err(
                    PipelineError::UpstreamServiceFailure {
                        status,
                        body: raw_output,
                        fault: ServiceFault::MalformedJson,
                    },
                );
            },
        };
        match Transcript::from_json(&json) {
            Some(found) => Ok(found),
            None => Err(
                PipelineError::UpstreamServiceFailure {
                    status,
                    body: raw_output,
                    fault: ServiceFault::UnexpectedShape,
                },
            ),
        }
    }

    /// Reads the transcript from the answer of the speech-to-text service.
    pub fn extract_transcript(status: u16, raw_output: String) -> (out: Result<
        Transcript,
        PipelineError,
    >)
        ensures
            transcribed(status, raw_output@, parsed_json(raw_output@), out),
    {
        let parsed = parse_json(raw_output.as_str());
        Self::read_transcript(status, raw_output, parsed)
    }
}

/// The payload of a transcribe task: a stored video and its external id.
#[derive(Clone, Debug, PartialEq, Eq)]
pub struct ExtractTranscriptJob {
    pub video_id: i32,
    pub reel_id: String,
}

/// Where the transcribe stage stands.
#[derive(Clone, Debug, PartialEq, Eq)]
pub enum TranscribeState {
    Start,
    CheckingAudio,
    Transcoding,
    Uploading,
    Saving,
    Finished,
}

/// What the outside reports to the transcribe stage.
#[derive(Clone, Debug, PartialEq, Eq)]
pub enum TranscribeEvent {
    /// The task was leased.
    Started,
    /// Whether the audio artifact of the video exists.
    AudioProbed { cached: bool },
    /// The transcoder ended.
    Transcoded { exit_code: i32, stderr: String },
    /// The speech-to-text service answered.
    Transcribed { status: u16, body: String },
    /// The transcript was stored with the video.
    Saved,
    /// The outside work failed.
    Faulted(PipelineError),
}

/// What the transcribe stage asks the outside to do next.
#[derive(Debug, PartialEq, Eq)]
pub enum TranscribeAction {
    /// Look whether the audio artifact of the video exists.
    ProbeAudio { reel_id: String },
    /// Derive the audio artifact from the stored video.
    Transcode { reel_id: String },
    /// Send the audio artifact to the speech-to-text service.
    Upload { reel_id: String },
    /// Store the transcript with the video, in place of any earlier one.
    SaveTranscript { video_id: i32, transcript: Transcript },
    /// End the stage with this result.
    Finish(Result<Option<Job>, PipelineError>),
}

impl ExtractTranscriptJob {
    /// A copy of the payload.
    pub fn duplicate(&self) -> (copy: ExtractTranscriptJob)
        ensures
            copy == *self,
    {
        ExtractTranscriptJob { video_id: self.video_id, reel_id: self.reel_id.clone() }
    }

    /// Builds the payload for a stored video, given the external id that the
    /// store holds for it; a video that the store does not hold is an error.
    pub fn new(video_id: i32, reel_id: Option<String>) -> (made: Result<
        ExtractTranscriptJob,
        PipelineError,
    >)
        ensures
            made == match reel_id {
                Some(reel_id) => Ok(ExtractTranscriptJob { video_id, reel_id }),
                None => Err(PipelineError::RecordNotFound { video_id }),
            },
    {
        match reel_id {
            Some(reel_id) => Ok(ExtractTranscriptJob { video_id, reel_id }),
            None => Err(PipelineError::RecordNotFound { video_id }),
        }
    }

    /// Whether a second task for the same video is skipped while one is live.
    pub fn uniq(&self) -> (yes: bool)
        ensures
            yes,
    {
        true
    }

    /// How often a failed transcription is tried again.
    pub fn max_retries(&self) -> (limit: i32)
        ensures
            limit == STAGE_MAX_RETRIES,
    {
        3
    }

    /// The delay, in seconds, before a failed attempt is tried again.
    pub fn backoff(&self, attempt: u32) -> (seconds: u32)
        requires
            attempt <= MAX_BACKOFF_ATTEMPT,
        ensures
            seconds == backoff_seconds(attempt as nat),
    {
        backoff(attempt)
    }

    /// The task that follows a stored transcript: the extraction of recipes
    /// from the same video.
    pub open spec fn follow_up(self) -> Job {
        Job::Extract(LLmExtractDetailsJob { video_id: self.video_id })
    }

    /// Whether the stage, in `state`, answers `event` with `action` and goes
    /// on in `next`.
    pub open spec fn stepped(
        self,
        state: TranscribeState,
        event: TranscribeEvent,
        next: TranscribeState,
        action: TranscribeAction,
    ) -> bool {
        match (state, event) {
            (_, TranscribeEvent::Faulted(error)) => next is Finished && action
                == TranscribeAction::Finish(Err(error)),
            (TranscribeState::Start, TranscribeEvent::Started) => next is CheckingAudio && action
                == (TranscribeAction::ProbeAudio { reel_id: self.reel_id }),
            (TranscribeState::CheckingAudio, TranscribeEvent::AudioProbed { cached }) => if cached {
                next is Uploading && action == (TranscribeAction::Upload { reel_id: self.reel_id })
            } else {
                next is Transcoding && action == (TranscribeAction::Transcode {
                    reel_id: self.reel_id,
                })
            },
            (TranscribeState::Transcoding, TranscribeEvent::Transcoded { exit_code, stderr }) => if exit_code
                == 0 {
                next is Uploading && action == (TranscribeAction::Upload { reel_id: self.reel_id })
            } else {
                next is Finished && action == TranscribeAction::Finish(
                    Err(PipelineError::ExternalToolFailure { exit_code, stderr }),
                )
            },
            (TranscribeState::Uploading, TranscribeEvent::Transcribed { status, body }) => {
                if success_status(status) && parsed_json(body@) is Some && transcript(
                    parsed_json(body@)->Some_0,
                ) is Some {
                    &&& next is Saving
                    &&& action matches TranscribeAction::SaveTranscript {
                        video_id,
                        transcript: found,
                    }
                    &&& video_id == self.video_id
                    &&& found@ == transcript(parsed_json(body@)->Some_0)->Some_0
                } else {
                    &&& next is Finished
                    &&& action matches TranscribeAction::Finish(Err(error))
                    &&& transcribed(status, body@, parsed_json(body@), Err(error))
                }
            },
            (TranscribeState::Saving, TranscribeEvent::Saved) => next is Finished && action
                == TranscribeAction::Finish(Ok(Some(self.follow_up()))),
            _ => {
                &&& next is Finished
                &&& action matches TranscribeAction::Finish(
                    Err(PipelineError::UnexpectedFault { detail }),
                )
                &&& detail@ == Seq::<char>::empty()
            },
        }
    }

    /// Takes the stage one step further: answers what the outside reports
    /// with what it is to do next. The stage looks for the audio, derives it
    /// only if it is missing, has it transcribed, stores the transcript and
    /// ends with the request to extract recipes. A failing transcoder and a
    /// failing service end the stage with a failure that may pass; a report
    /// that does not fit the state ends it with an unexpected fault.
    pub fn exec(&self, state: TranscribeState, event: TranscribeEvent) -> (out: (
        TranscribeState,
        TranscribeAction,
    ))
        ensures
            self.stepped(state, event, out.0, out.1),
    {
        match (state, event) {
            (_, TranscribeEvent::Faulted(error)) => (
                TranscribeState::Finished,
                TranscribeAction::Finish(Err(error)),
            ),
            (TranscribeState::Start, TranscribeEvent::Started) => (
                TranscribeState::CheckingAudio,
                TranscribeAction::ProbeAudio { reel_id: self.reel_id.clone() },
            ),
            (TranscribeState::CheckingAudio, TranscribeEvent::AudioProbed { cached }) => {
                match ExtractTranscript::extract_audio(cached) {
                    AudioPlan::Reuse => (
                        TranscribeState::Uploading,
                        TranscribeAction::Upload { reel_id: self.reel_id.clone() },
                    ),
                    AudioPlan::Transcode => (
                        TranscribeState::Transcoding,
                        TranscribeAction::Transcode { reel_id: self.reel_id.clone() },
                    ),
                }
            },
            (TranscribeState::Transcoding, TranscribeEvent::Transcoded { exit_code, stderr }) => {
                match check_exit(exit_code, stderr) {
                    Ok(()) => (
                        TranscribeState::Uploading,
                        TranscribeAction::Upload { reel_id: self.reel_id.clone() },
                    ),
                    Err(error) => (TranscribeState::Finished, TranscribeAction::Finish(Err(error))),
                }
            },
            (TranscribeState::Uploading, TranscribeEvent::Transcribed { status, body }) => {
                match ExtractTranscript::extract_transcript(status, body) {
                    Ok(transcript) => (
                        TranscribeState::Saving,
                        TranscribeAction::SaveTranscript { video_id: self.video_id, transcript },
                    ),
                    Err(error) => (TranscribeState::Finished, TranscribeAction::Finish(Err(error))),
                }
            },
            (TranscribeState::Saving, TranscribeEvent::Saved) => (
                TranscribeState::Finished,
                TranscribeAction::Finish(
                    Ok(Some(Job::Extract(LLmExtractDetailsJob { video_id: self.video_id }))),
                ),
            ),
            _ => (
                TranscribeState::Finished,
                TranscribeAction::Finish(
                    Err(PipelineError::UnexpectedFault { detail: String::new() }),
                ),
            ),
        }
    }
}

/// The stage asks for the extraction only once the transcript is stored.
pub proof fn law_extraction_follows_the_stored_transcript(
    job: ExtractTranscriptJob,
    state: TranscribeState,
    event: TranscribeEvent,
    next: TranscribeState,
    action: TranscribeAction,
)
    requires
        job.stepped(state, event, next, action),
        action matches TranscribeAction::Finish(Ok(_)),
    ensures
        state is Saving,
        event is Saved,
        action == TranscribeAction::Finish(Ok(Some(job.follow_up()))),
{
}

/// The transcoder runs only for a video whose audio artifact is missing.
pub proof fn law_cached_audio_is_reused(
    job: ExtractTranscriptJob,
    state: TranscribeState,
    event: TranscribeEvent,
    next: TranscribeState,
    action: TranscribeAction,
)
    requires
        job.stepped(state, event, next, action),
        action is Transcode,
    ensures
        state is CheckingAudio,
        event == (TranscribeEvent::AudioProbed { cached: false }),
{
}

} // verus!
