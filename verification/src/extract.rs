//! The extract stage: from a stored video to its recipes.
//!
//! The stage loads the video, renders the prompt from its caption and its
//! transcript, asks the completion service under the configured protocol,
//! normalizes the answer and has the recipes stored. It is the last stage:
//! nothing follows it.

use crate::context::JobContext;
use crate::entities::instagram_video::Model;
use crate::entities::recipes::{recipe_rows, save_newly_recipes, NewRecipe};
use crate::error::{is_success, success_status, PipelineError, ServiceFault};
use crate::job::Job;
use crate::json::{parse_json, parsed_json, Json};
use crate::llm::{build_request, completion_content, read_content, request_body, LlmMethod};
use crate::prompt::{assemble_prompt, rendered};
use crate::recipe::{normalization, normalize_completion, ExtractedRecipe};
use crate::text::payload_text;
use vstd::prelude::*;

verus! {

/// The text of the model in the body of an answer of the completion service;
/// `None` where the body is no JSON or does not hold the text.
pub open spec fn response_content(method: LlmMethod, body: Seq<char>) -> Option<Seq<char>> {
    match parsed_json(body) {
        Some(v) => completion_content(method, v),
        None => None,
    }
}

/// Whether `out` is what an answer of the completion service comes to, given
/// the text `content` of the model that its body holds: a protocol without
/// an adapter is not supported; a status outside the 2xx range is a failure
/// of the service, which carries the status and the body; a body without the
/// text of the model is a shape error that carries the body; otherwise the
/// text is handed on.
pub open spec fn answered(
    method: LlmMethod,
    status: u16,
    body: Seq<char>,
    content: Option<Seq<char>>,
    out: Result<String, PipelineError>,
) -> bool {
    if !method.supported() {
        out matches Err(PipelineError::NotSupported { method: m }) && m == method
    } else if !success_status(status) {
        out matches Err(PipelineError::UpstreamServiceFailure { status: s, body: b, fault })
            && s == status && b@ == body && fault is Status
    } else {
        match content {
            Some(text) => out matches Ok(found) && found@ == text,
            None => out matches Err(PipelineError::ResponseShapeError { detail }) && detail@ == body,
        }
    }
}

/// Whether `out` is what the extraction makes of an answer of the completion
/// service: the failure of the answer, or what normalizing the text of the
/// model gives.
pub open spec fn extracted(
    method: LlmMethod,
    status: u16,
    body: Seq<char>,
    out: Result<Vec<ExtractedRecipe>, PipelineError>,
) -> bool {
    if method.supported() && success_status(status) && response_content(method, body) is Some {
        let content = response_content(method, body)->Some_0;
        match normalization(content) {
            Some(list) => out matches Ok(found) && found.deep_view() == list,
            None => out matches Err(PipelineError::ResponseShapeError { detail }) && detail@
                == payload_text(content),
        }
    } else {
        out matches Err(error) && answered(
            method,
            status,
            body,
            response_content(method, body),
            Err(error),
        )
    }
}

/// The payload of an extract task: the stored video to read recipes from.
#[derive(Clone, Debug, PartialEq, Eq)]
pub struct LLmExtractDetailsJob {
    pub video_id: i32,
}

/// Where the extract stage stands.
#[derive(Debug, PartialEq, Eq)]
pub enum ExtractState {
    Start,
    LoadingVideo,
    LoadingPrompt { video: Model },
    Completing { video_id: i32 },
    Saving,
    Finished,
}

/// What the outside reports to the extract stage.
#[derive(Debug, PartialEq, Eq)]
pub enum ExtractEvent {
    /// The task was leased.
    Started,
    /// The video as the store holds it, or `None` where it holds none.
    VideoLoaded { video: Option<Model> },
    /// The template of the prompt.
    PromptLoaded { template: String },
    /// The completion service answered, at the time `now`.
    Completed { status: u16, body: String, now: i64 },
    /// The recipes were stored.
    Saved,
    /// The outside work failed.
    Faulted(PipelineError),
}

/// What the extract stage asks the outside to do next.
#[derive(Debug, PartialEq, Eq)]
pub enum ExtractAction {
    /// Load the video from the store.
    LoadVideo { video_id: i32 },
    /// Load the template of the prompt.
    LoadPrompt,
    /// Send the request to the completion service.
    Complete { request: Json },
    /// Store the recipes as new rows.
    SaveRecipes { rows: Vec<NewRecipe> },
    /// End the stage with this result.
    Finish(Result<Option<Job>, PipelineError>),
}

impl LLmExtractDetailsJob {
    /// A copy of the payload.
    pub fn duplicate(&self) -> (copy: LLmExtractDetailsJob)
        ensures
            copy == *self,
    {
        LLmExtractDetailsJob { video_id: self.video_id }
    }

    /// Whether a second task for the same video is skipped while one is live.
    pub fn uniq(&self) -> (yes: bool)
        ensures
            yes,
    {
        true
    }

    /// How often a failed extraction is tried again: never. Its failure is
    /// reported once.
    pub fn max_retries(&self) -> (limit: i32)
        ensures
            limit == 0,
    {
        0
    }

    /// Judges an answer of the completion service, given the document
    /// `parsed` that its body holds, or `None` where the body is no JSON,
    /// and hands on the text of the model.
    pub fn read_response(method: LlmMethod, status: u16, body: String, parsed: Option<Json>) -> (out:
        Result<String, PipelineError>)
        ensures
            answered(
                method,
                status,
                body@,
                match parsed {
                    Some(json) => completion_content(method, json@),
                    None => None,
                },
                out,
            ),
    {
        if !method.is_supported() {
            return Err(PipelineError::NotSupported { method });
        }
        if !is_success(status) {
            return Err(
                PipelineError::UpstreamServiceFailure { status, body, fault: ServiceFault::Status },
            );
        }
        let content = match parsed {
            Some(json) => read_content(method, &json),
            None => None,
        };
        match content {
            Some(text) => Ok(text),
            None => Err(PipelineError::ResponseShapeError { detail: body }),
        }
    }

    /// Judges an answer of the completion service and hands on the text of
    /// the model.
    pub fn handle_response(method: LlmMethod, status: u16, body: String) -> (out: Result<
        String,
        PipelineError,
    >)
        ensures
            answered(method, status, body@, response_content(method, body@), out),
    {
        let parsed = parse_json(body.as_str());
        Self::read_response(method, status, body, parsed)
    }

    /// Reads the recipes from an answer of the completion service: takes the
    /// text of the model out of the body, under the protocol, and normalizes
    /// it. A status outside the 2xx range is a failure that may pass; a body
    /// or a text of another shape than expected is final.
    pub fn extract_recipes(method: LlmMethod, status: u16, body: String) -> (out: Result<
        Vec<ExtractedRecipe>,
        PipelineError,
    >)
        ensures
            extracted(method, status, body@, out),
    {
        match Self::handle_response(method, status, body) {
            Ok(content) => normalize_completion(content.as_str()),
            Err(error) => Err(error),
        }
    }

    /// Whether the stage, in `state`, answers `event` with `action` and goes
    /// on in `next`.
    pub open spec fn stepped(
        self,
        context: JobContext,
        state: ExtractState,
        event: ExtractEvent,
        next: ExtractState,
        action: ExtractAction,
    ) -> bool {
        let method = context.completion_mode;
        match (state, event) {
            (_, ExtractEvent::Faulted(error)) => next is Finished && action
                == ExtractAction::Finish(Err(error)),
            (ExtractState::Start, ExtractEvent::Started) => if method.supported() {
                next is LoadingVideo && action == (ExtractAction::LoadVideo {
                    video_id: self.video_id,
                })
            } else {
                next is Finished && action == ExtractAction::Finish(
                    Err(PipelineError::NotSupported { method }),
                )
            },
            (ExtractState::LoadingVideo, ExtractEvent::VideoLoaded { video }) => match video {
                Some(video) => next == (ExtractState::LoadingPrompt { video }) && action
                    == ExtractAction::LoadPrompt,
                None => next is Finished && action == ExtractAction::Finish(
                    Err(PipelineError::RecordNotFound { video_id: self.video_id }),
                ),
            },
            (ExtractState::LoadingPrompt { video }, ExtractEvent::PromptLoaded { template }) => {
                let prompt = rendered(template@, video.caption(), video.spoken());
                if prompt is Some && request_body(
                    method,
                    context.completion_model@,
                    prompt->Some_0,
                ) is Some {
                    &&& next == (ExtractState::Completing { video_id: video.id })
                    &&& action matches ExtractAction::Complete { request }
                    &&& Some(request@) == request_body(
                        method,
                        context.completion_model@,
                        prompt->Some_0,
                    )
                } else if prompt is Some {
                    next is Finished && action == ExtractAction::Finish(
                        Err(PipelineError::NotSupported { method }),
                    )
                } else {
                    next is Finished && action == ExtractAction::Finish(
                        Err(PipelineError::UnexpectedFault { detail: template }),
                    )
                }
            },
            (
                ExtractState::Completing { video_id },
                ExtractEvent::Completed { status, body, now },
            ) => {
                if method.supported() && success_status(status) && response_content(
                    method,
                    body@,
                ) is Some && normalization(response_content(method, body@)->Some_0) is Some {
                    &&& next is Saving
                    &&& action matches ExtractAction::SaveRecipes { rows }
                    &&& rows.deep_view() == recipe_rows(
                        normalization(response_content(method, body@)->Some_0)->Some_0,
                        video_id,
                        now,
                    )
                } else {
                    &&& next is Finished
                    &&& action matches ExtractAction::Finish(Err(error))
                    &&& extracted(method, status, body@, Err(error))
                }
            },
            (ExtractState::Saving, ExtractEvent::Saved) => next is Finished && action
                == ExtractAction::Finish(Ok(None)),
            _ => {
                &&& next is Finished
                &&& action matches ExtractAction::Finish(
                    Err(PipelineError::UnexpectedFault { detail }),
                )
                &&& detail@ == Seq::<char>::empty()
            },
        }
    }

    /// Takes the stage one step further: answers what the outside reports
    /// with what it is to do next. The stage fails at once under a protocol
    /// without an adapter, and for a video that the store does not hold. It
    /// renders the prompt from the caption and, where there is one, the
    /// transcript of the video, sends it under the configured protocol,
    /// reads the recipes from the answer and has them stored, each with the
    /// time of the answer. It ends without asking for another task. A report
    /// that does not fit the state ends it with an unexpected fault.
    pub fn exec(&self, context: &JobContext, state: ExtractState, event: ExtractEvent) -> (out: (
        ExtractState,
        ExtractAction,
    ))
        ensures
            self.stepped(*context, state, event, out.0, out.1),
    {
        let method = context.completion_mode;
        match (state, event) {
            (_, ExtractEvent::Faulted(error)) => (
                ExtractState::Finished,
                ExtractAction::Finish(Err(error)),
            ),
            (ExtractState::Start, ExtractEvent::Started) => {
                if method.is_supported() {
                    (
                        ExtractState::LoadingVideo,
                        ExtractAction::LoadVideo { video_id: self.video_id },
                    )
                } else {
                    (
                        ExtractState::Finished,
                        ExtractAction::Finish(Err(PipelineError::NotSupported { method })),
                    )
                }
            },
            (ExtractState::LoadingVideo, ExtractEvent::VideoLoaded { video }) => match video {
                Some(video) => (ExtractState::LoadingPrompt { video }, ExtractAction::LoadPrompt),
                None => (
                    ExtractState::Finished,
                    ExtractAction::Finish(
                        Err(PipelineError::RecordNotFound { video_id: self.video_id }),
                    ),
                ),
            },
            (ExtractState::LoadingPrompt { video }, ExtractEvent::PromptLoaded { template }) => {
                let prompt = assemble_prompt(
                    template.as_str(),
                    video.info.description.as_str(),
                    video.transcript_text(),
                );
                match prompt {
                    Some(prompt) => match build_request(
                        method,
                        context.completion_model.as_str(),
                        prompt,
                    ) {
                        Some(request) => (
                            ExtractState::Completing { video_id: video.id },
                            ExtractAction::Complete { request },
                        ),
                        None => (
                            ExtractState::Finished,
                            ExtractAction::Finish(Err(PipelineError::NotSupported { method })),
                        ),
                    },
                    None => (
                        ExtractState::Finished,
                        ExtractAction::Finish(
                            Err(PipelineError::UnexpectedFault { detail: template }),
                        ),
                    ),
                }
            },
            (
                ExtractState::Completing { video_id },
                ExtractEvent::Completed { status, body, now },
            ) => {
                match Self::extract_recipes(method, status, body) {
                    Ok(recipes) => (
                        ExtractState::Saving,
                        ExtractAction::SaveRecipes {
                            rows: save_newly_recipes(&recipes, video_id, now),
                        },
                    ),
                    Err(error) => (ExtractState::Finished, ExtractAction::Finish(Err(error))),
                }
            },
            (ExtractState::Saving, ExtractEvent::Saved) => (
                ExtractState::Finished,
                ExtractAction::Finish(Ok(None)),
            ),
            _ => (
                ExtractState::Finished,
                ExtractAction::Finish(
                    Err(PipelineError::UnexpectedFault { detail: String::new() }),
                ),
            ),
        }
    }
}

/// A video without a transcript is extracted from its caption alone: the
/// prompt is rendered with an empty transcript, and the stage goes on to the
/// completion service as it does for any other video.
pub proof fn law_extraction_needs_no_transcript(
    job: LLmExtractDetailsJob,
    context: JobContext,
    video: Model,
    template: String,
    next: ExtractState,
    action: ExtractAction,
)
    requires
        video.transcript is None,
        context.completion_mode.supported(),
        rendered(template@, video.caption(), Seq::<char>::empty()) is Some,
        job.stepped(
            context,
            ExtractState::LoadingPrompt { video },
            ExtractEvent::PromptLoaded { template },
            next,
            action,
        ),
    ensures
        next == (ExtractState::Completing { video_id: video.id }),
        action matches ExtractAction::Complete { request } && Some(request@) == request_body(
            context.completion_mode,
            context.completion_model@,
            rendered(template@, video.caption(), Seq::<char>::empty())->Some_0,
        ),
{
}

/// The extract stage is the last one: whenever it ends with success, it asks
/// for no further task.
pub proof fn law_extraction_is_terminal(
    job: LLmExtractDetailsJob,
    context: JobContext,
    state: ExtractState,
    event: ExtractEvent,
    next: ExtractState,
    action: ExtractAction,
)
    requires
        job.stepped(context, state, event, next, action),
        action matches ExtractAction::Finish(Ok(_)),
    ensures
        action == ExtractAction::Finish(Ok(None)),
{
}

} // verus!
