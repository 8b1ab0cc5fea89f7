use recipe_pipeline::context::JobContext;
use recipe_pipeline::entities::instagram_video::Model;
use recipe_pipeline::entities::recipes::{copy_strings, save_newly_recipes, NewRecipe};
use recipe_pipeline::error::{PipelineError, ServiceFault};
use recipe_pipeline::extract::{ExtractAction, ExtractEvent, ExtractState, LLmExtractDetailsJob};
use recipe_pipeline::fetch::ReelInfo;
use recipe_pipeline::json::{Json, Member};
use recipe_pipeline::llm::LlmMethod;
use recipe_pipeline::recipe::ExtractedRecipe;
use recipe_pipeline::transcribe::Transcript;

fn document(value: &serde_json::Value) -> Json {
    match value {
        serde_json::Value::Null => Json::Null,
        serde_json::Value::Bool(b) => Json::Bool(*b),
        serde_json::Value::Number(n) => Json::Number(n.to_string()),
        serde_json::Value::String(s) => Json::Str(s.clone()),
        serde_json::Value::Array(items) => Json::Array(items.iter().map(document).collect()),
        serde_json::Value::Object(map) => Json::Object(
            map.iter()
                .map(|(key, value)| Member { key: key.clone(), value: document(value) })
                .collect(),
        ),
    }
}

fn parse(text: &str) -> Option<Json> {
    serde_json::from_str::<serde_json::Value>(text).ok().map(|value| document(&value))
}

const TEMPLATE: &str = "Caption: {{ description }}\nTranscript: {{ transcript }}";
const FENCED: &str = "```json\n[{\"title\":\"Soup\",\"ingredients\":[\"water\"],\"instructions\":[\"boil\"]}]\n```";

fn context(mode: LlmMethod) -> JobContext {
    JobContext::new(
        None,
        "./reels".to_string(),
        "http://whisper".to_string(),
        "key".to_string(),
        "http://llm".to_string(),
        "key".to_string(),
        "gemma".to_string(),
        mode,
    )
}

fn video(transcript: Option<&str>) -> Model {
    Model {
        id: 8,
        instagram_id: "ABC123".to_string(),
        video_url: "https://example.com/reel/ABC123/".to_string(),
        info: ReelInfo { description: "Soup: boil water".to_string(), rest: vec![] },
        transcript: transcript.map(|text| Transcript {
            text: text.to_string(),
            segments: vec![],
            other: vec![],
        }),
    }
}

fn soup() -> ExtractedRecipe {
    ExtractedRecipe {
        title: "Soup".to_string(),
        ingredients: vec!["water".to_string()],
        instructions: vec!["boil".to_string()],
    }
}

fn soup_row(video_id: i32, generated_at: i64) -> NewRecipe {
    NewRecipe {
        title: Some("Soup".to_string()),
        ingredients: Some(vec!["water".to_string()]),
        instructions: Some(vec!["boil".to_string()]),
        instagram_video_id: Some(video_id),
        generated_at: Some(generated_at),
    }
}

fn chat_body(content: &str) -> String {
    format!(
        "{{\"choices\": [{{\"message\": {{\"role\": \"assistant\", \"content\": {:?}}}}}]}}",
        content
    )
}

fn generate_body(content: &str) -> String {
    format!("{{\"response\": {:?}, \"done\": true}}", content)
}

fn job() -> LLmExtractDetailsJob {
    LLmExtractDetailsJob { video_id: 8 }
}

#[test]
fn a_fenced_chat_answer_gives_its_recipe() {
    assert_eq!(
        LLmExtractDetailsJob::extract_recipes(LlmMethod::GenericOpenAI, 200, chat_body(FENCED)),
        Ok(vec![soup()])
    );
}

#[test]
fn an_unfenced_answer_keeps_the_backticks_in_a_title() {
    let content = "[{\"title\":\"a```b\",\"ingredients\":[],\"instructions\":[]}]";
    let expected = vec![ExtractedRecipe {
        title: "a```b".to_string(),
        ingredients: vec![],
        instructions: vec![],
    }];
    assert_eq!(
        LLmExtractDetailsJob::extract_recipes(LlmMethod::GenericOpenAI, 200, chat_body(content)),
        Ok(expected.clone())
    );
    assert_eq!(
        LLmExtractDetailsJob::extract_recipes(LlmMethod::OllamaJson, 200, generate_body(content)),
        Ok(expected)
    );
}

#[test]
fn a_generate_answer_gives_its_recipe() {
    let wrapped = "{\"recipes\": [{\"title\":\"Soup\",\"ingredients\":[\"water\"],\"instructions\":[\"boil\"]}]}";
    assert_eq!(
        LLmExtractDetailsJob::extract_recipes(LlmMethod::OllamaJson, 200, generate_body(wrapped)),
        Ok(vec![soup()])
    );
    assert_eq!(
        LLmExtractDetailsJob::extract_recipes(LlmMethod::OllamaJson, 200, generate_body(FENCED)),
        Ok(vec![soup()])
    );
}

#[test]
fn handle_response_hands_on_the_text_of_the_model() {
    assert_eq!(
        LLmExtractDetailsJob::handle_response(LlmMethod::GenericOpenAI, 200, chat_body("hello")),
        Ok("hello".to_string())
    );
    assert_eq!(
        LLmExtractDetailsJob::handle_response(LlmMethod::OllamaJson, 299, generate_body("hello")),
        Ok("hello".to_string())
    );
    assert_eq!(
        LLmExtractDetailsJob::read_response(
            LlmMethod::OllamaJson,
            200,
            "raw".to_string(),
            parse(&generate_body("hello"))
        ),
        Ok("hello".to_string())
    );
}

#[test]
fn a_status_outside_2xx_is_a_failure_with_the_body() {
    let expected = PipelineError::UpstreamServiceFailure {
        status: 429,
        body: "slow down".to_string(),
        fault: ServiceFault::Status,
    };
    assert_eq!(
        LLmExtractDetailsJob::extract_recipes(LlmMethod::OllamaJson, 429, "slow down".to_string()),
        Err(expected.clone())
    );
    assert_eq!(
        LLmExtractDetailsJob::handle_response(LlmMethod::GenericOpenAI, 429, "slow down".to_string()),
        Err(expected.clone())
    );
    assert!(expected.is_retryable());
}

#[test]
fn a_body_without_the_text_of_the_model_is_a_shape_error() {
    for body in ["", "not json", "{}", "{\"choices\": []}", "{\"response\": 3}"] {
        for method in [LlmMethod::GenericOpenAI, LlmMethod::OllamaJson] {
            assert_eq!(
                LLmExtractDetailsJob::extract_recipes(method, 200, body.to_string()),
                Err(PipelineError::ResponseShapeError { detail: body.to_string() })
            );
        }
    }
    assert_eq!(
        LLmExtractDetailsJob::read_response(LlmMethod::OllamaJson, 200, "raw".to_string(), None),
        Err(PipelineError::ResponseShapeError { detail: "raw".to_string() })
    );
}

#[test]
fn a_text_that_holds_no_recipes_is_a_shape_error_with_the_payload() {
    assert_eq!(
        LLmExtractDetailsJob::extract_recipes(
            LlmMethod::OllamaJson,
            200,
            generate_body("```json\nI cannot help with that\n```")
        ),
        Err(PipelineError::ResponseShapeError { detail: "I cannot help with that".to_string() })
    );
}

#[test]
fn the_tool_protocols_are_not_supported() {
    for method in [LlmMethod::OpenAITools, LlmMethod::AnthropicTools] {
        assert_eq!(
            LLmExtractDetailsJob::extract_recipes(method, 200, chat_body(FENCED)),
            Err(PipelineError::NotSupported { method })
        );
        let (state, action) =
            job().exec(&context(method), ExtractState::Start, ExtractEvent::Started);
        assert_eq!(state, ExtractState::Finished);
        assert_eq!(action, ExtractAction::Finish(Err(PipelineError::NotSupported { method })));
    }
}

#[test]
fn an_extraction_is_unique_and_never_retried() {
    assert!(job().uniq());
    assert_eq!(job().max_retries(), 0);
    assert_eq!(job().duplicate(), job());
}

#[test]
fn a_video_without_transcript_is_extracted_from_its_caption() {
    let context = context(LlmMethod::OllamaJson);
    let job = job();
    let (state, action) = job.exec(&context, ExtractState::Start, ExtractEvent::Started);
    assert_eq!(state, ExtractState::LoadingVideo);
    assert_eq!(action, ExtractAction::LoadVideo { video_id: 8 });
    let (state, action) =
        job.exec(&context, state, ExtractEvent::VideoLoaded { video: Some(video(None)) });
    assert_eq!(state, ExtractState::LoadingPrompt { video: video(None) });
    assert_eq!(action, ExtractAction::LoadPrompt);
    let (state, action) =
        job.exec(&context, state, ExtractEvent::PromptLoaded { template: TEMPLATE.to_string() });
    assert_eq!(state, ExtractState::Completing { video_id: 8 });
    let request = match action {
        ExtractAction::Complete { request } => request,
        _ => panic!("the request is to be sent"),
    };
    assert_eq!(
        request.get("prompt"),
        Some(&Json::Str("Caption: Soup: boil water\nTranscript: ".to_string()))
    );
    assert_eq!(request.get("model"), Some(&Json::Str("gemma".to_string())));
    let (state, action) = job.exec(
        &context,
        state,
        ExtractEvent::Completed { status: 200, body: generate_body(FENCED), now: 1_700_000_000 },
    );
    assert_eq!(state, ExtractState::Saving);
    assert_eq!(action, ExtractAction::SaveRecipes { rows: vec![soup_row(8, 1_700_000_000)] });
    let (state, action) = job.exec(&context, state, ExtractEvent::Saved);
    assert_eq!(state, ExtractState::Finished);
    assert_eq!(action, ExtractAction::Finish(Ok(None)));
}

#[test]
fn the_transcript_goes_into_the_prompt_where_there_is_one() {
    let context = context(LlmMethod::GenericOpenAI);
    let (state, action) = job().exec(
        &context,
        ExtractState::LoadingPrompt { video: video(Some("Now boil it.")) },
        ExtractEvent::PromptLoaded { template: TEMPLATE.to_string() },
    );
    assert_eq!(state, ExtractState::Completing { video_id: 8 });
    let request = match action {
        ExtractAction::Complete { request } => request,
        _ => panic!("the request is to be sent"),
    };
    let messages = request.get("messages").and_then(|m| m.as_array()).expect("messages");
    assert_eq!(messages.len(), 1);
    assert_eq!(messages[0].get("role"), Some(&Json::Str("user".to_string())));
    assert_eq!(
        messages[0].get("content"),
        Some(&Json::Str("Caption: Soup: boil water\nTranscript: Now boil it.".to_string()))
    );
}

#[test]
fn a_missing_video_ends_the_stage() {
    let (state, action) = job().exec(
        &context(LlmMethod::OllamaJson),
        ExtractState::LoadingVideo,
        ExtractEvent::VideoLoaded { video: None },
    );
    assert_eq!(state, ExtractState::Finished);
    let error = PipelineError::RecordNotFound { video_id: 8 };
    assert!(!error.is_retryable());
    assert_eq!(action, ExtractAction::Finish(Err(error)));
}

#[test]
fn a_broken_template_ends_the_stage() {
    let (state, action) = job().exec(
        &context(LlmMethod::OllamaJson),
        ExtractState::LoadingPrompt { video: video(None) },
        ExtractEvent::PromptLoaded { template: "{{ description".to_string() },
    );
    assert_eq!(state, ExtractState::Finished);
    assert_eq!(
        action,
        ExtractAction::Finish(Err(PipelineError::UnexpectedFault {
            detail: "{{ description".to_string(),
        }))
    );
}

#[test]
fn a_failing_completion_ends_the_stage_with_its_error() {
    let (state, action) = job().exec(
        &context(LlmMethod::OllamaJson),
        ExtractState::Completing { video_id: 8 },
        ExtractEvent::Completed { status: 500, body: "oops".to_string(), now: 0 },
    );
    assert_eq!(state, ExtractState::Finished);
    assert_eq!(
        action,
        ExtractAction::Finish(Err(PipelineError::UpstreamServiceFailure {
            status: 500,
            body: "oops".to_string(),
            fault: ServiceFault::Status,
        }))
    );
}

#[test]
fn faults_and_misfits_end_the_extraction() {
    let context = context(LlmMethod::OllamaJson);
    let fault = PipelineError::StoreFailure { detail: "down".to_string() };
    let (state, action) =
        job().exec(&context, ExtractState::Saving, ExtractEvent::Faulted(fault.clone()));
    assert_eq!(state, ExtractState::Finished);
    assert_eq!(action, ExtractAction::Finish(Err(fault)));
    let (state, action) = job().exec(&context, ExtractState::Start, ExtractEvent::Saved);
    assert_eq!(state, ExtractState::Finished);
    assert_eq!(
        action,
        ExtractAction::Finish(Err(PipelineError::UnexpectedFault { detail: String::new() }))
    );
}

#[test]
fn every_recipe_becomes_a_new_row_of_its_video() {
    let other = ExtractedRecipe { title: "Tea".to_string(), ingredients: vec![], instructions: vec![] };
    let rows = save_newly_recipes(&vec![soup(), other], 8, 99);
    assert_eq!(
        rows,
        vec![
            soup_row(8, 99),
            NewRecipe {
                title: Some("Tea".to_string()),
                ingredients: Some(vec![]),
                instructions: Some(vec![]),
                instagram_video_id: Some(8),
                generated_at: Some(99),
            },
        ]
    );
    assert_eq!(save_newly_recipes(&vec![], 8, 99), vec![]);
    assert_eq!(copy_strings(&vec!["a".to_string(), "b".to_string()]), vec!["a", "b"]);
}

#[test]
fn the_video_tells_the_text_of_its_transcript() {
    assert_eq!(video(None).transcript_text(), None);
    assert_eq!(video(Some("words")).transcript_text(), Some(&"words".to_string()));
}
