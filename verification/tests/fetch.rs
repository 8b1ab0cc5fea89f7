use recipe_pipeline::error::PipelineError;
use recipe_pipeline::fetch::{
    DownloadPlan, FetchAction, FetchEvent, FetchReelJob, FetchState, ReelInfo,
};
use recipe_pipeline::job::Job;
use recipe_pipeline::json::{Json, Member};
use recipe_pipeline::transcribe::ExtractTranscriptJob;

fn document(value: &serde_json::Value) -> Json {
    match value {
        serde_json::Value::Null => Json::Null,
        serde_json::Value::Bool(b) => Json::Bool(*b),
        serde_json::Value::Number(n) => Json::Number(n.to_string()),
        serde_json::Value::String(s) => Json::Str(s.clone()),
        serde_json::Value::Array(items) => Json::Array(items.iter().map(document).collect()),
        serde_json::Value::Object(map) => Json::Object(
            map.iter()
                .map(|(key, value)| Member { key: key.clone(), value: document(value) })
                .collect(),
        ),
    }
}

fn parse(text: &str) -> Option<Json> {
    serde_json::from_str::<serde_json::Value>(text).ok().map(|value| document(&value))
}

fn job() -> FetchReelJob {
    FetchReelJob::new("https://example.com/reel/ABC123/".to_string(), false).expect("a source URL")
}

const SIDECAR: &str = "{\"description\": \"Soup for two\", \"uploader\": \"cook\"}";

fn info() -> ReelInfo {
    ReelInfo {
        description: "Soup for two".to_string(),
        rest: vec![Member { key: "uploader".to_string(), value: Json::Str("cook".to_string()) }],
    }
}

#[test]
fn new_reads_the_external_id() {
    let job = FetchReelJob::new("https://example.com/reel/ABC123/".to_string(), true)
        .expect("a source URL");
    assert_eq!(job.reel_id, "ABC123");
    assert_eq!(job.reel_url, "https://example.com/reel/ABC123/");
    assert!(job.auto_llm);
}

#[test]
fn new_takes_the_whole_run_of_id_characters() {
    for (url, id) in [
        ("https://www.instagram.com/reel/Cx_9-aZ/?igshid=abc", "Cx_9-aZ"),
        ("https://example.com/reel/ABC123", "ABC123"),
        ("https://example.com/reel/ABC123/more/path", "ABC123"),
        ("https://example.com/reel/a.b", "a"),
    ] {
        let job = FetchReelJob::new(url.to_string(), false).expect("a source URL");
        assert_eq!(job.reel_id, id);
        assert_eq!(job.reel_url, url);
        assert!(!job.auto_llm);
    }
}

#[test]
fn new_refuses_a_url_of_another_shape() {
    for url in [
        "",
        "https://example.com/",
        "https://example.com/reel/",
        "https://example.com/video/ABC123",
        "http://example.com/reel/ABC123",
        "https:///reel/ABC123",
        "https://example.com/reel/!",
    ] {
        assert_eq!(
            FetchReelJob::new(url.to_string(), true),
            Err(PipelineError::InvalidInput { url: url.to_string() })
        );
    }
}

#[test]
fn from_capture_goes_by_what_was_found() {
    assert_eq!(
        FetchReelJob::from_capture("u".to_string(), Some("id".to_string()), true),
        Ok(FetchReelJob { reel_url: "u".to_string(), reel_id: "id".to_string(), auto_llm: true })
    );
    assert_eq!(
        FetchReelJob::from_capture("u".to_string(), None, true),
        Err(PipelineError::InvalidInput { url: "u".to_string() })
    );
}

#[test]
fn a_fetch_is_unique_and_retried_three_times() {
    let job = job();
    assert!(job.uniq());
    assert_eq!(job.max_retries(), 3);
    assert_eq!(job.backoff(0), 60);
    assert_eq!(job.backoff(3), 480);
    assert_eq!(job.duplicate(), job);
}

#[test]
fn the_downloader_runs_unless_both_artifacts_are_there() {
    assert_eq!(FetchReelJob::download_reel(true, true), DownloadPlan::Reuse);
    assert_eq!(FetchReelJob::download_reel(true, false), DownloadPlan::Download);
    assert_eq!(FetchReelJob::download_reel(false, true), DownloadPlan::Download);
    assert_eq!(FetchReelJob::download_reel(false, false), DownloadPlan::Download);
}

#[test]
fn the_sidecar_gives_the_caption_and_the_rest() {
    assert_eq!(ReelInfo::from_sidecar(SIDECAR.to_string()), Ok(info()));
    assert_eq!(ReelInfo::from_json(&parse(SIDECAR).expect("json")), Some(info()));
    assert_eq!(
        ReelInfo::from_parsed(SIDECAR.to_string(), parse(SIDECAR)),
        Ok(info())
    );
}

#[test]
fn the_sidecar_is_read_as_json() {
    let text = " {\"description\": \"a\\nb\", \"n\": 1.5, \"i\": -3, \"list\": [1, \"x\", null, true, []], \"o\": {\"k\": {}}} \n";
    let info = ReelInfo::from_sidecar(text.to_string()).expect("metadata");
    assert_eq!(info.description, "a\nb");
    let rest = Json::Object(info.rest);
    assert_eq!(rest.as_object().map(|members| members.len()), Some(4));
    assert_eq!(rest.get("n"), Some(&Json::Number("1.5".to_string())));
    assert_eq!(rest.get("i"), Some(&Json::Number("-3".to_string())));
    assert_eq!(
        rest.get("list"),
        Some(&Json::Array(vec![
            Json::Number("1".to_string()),
            Json::Str("x".to_string()),
            Json::Null,
            Json::Bool(true),
            Json::Array(vec![]),
        ]))
    );
    assert_eq!(
        rest.get("o"),
        Some(&Json::Object(vec![Member { key: "k".to_string(), value: Json::Object(vec![]) }]))
    );
    assert_eq!(rest.get("description"), None);
}

#[test]
fn a_sidecar_that_is_no_json_is_refused() {
    for text in ["", "[1,", "{'description': 'x'}", "{\"description\": \"x\"} x", "```json\n{}\n```"] {
        assert_eq!(
            ReelInfo::from_sidecar(text.to_string()),
            Err(PipelineError::ResponseShapeError { detail: text.to_string() })
        );
    }
}

#[test]
fn a_sidecar_without_caption_is_a_shape_error() {
    for text in ["", "not json", "[]", "{}", "{\"description\": 1}", "{\"title\": \"x\"}"] {
        assert_eq!(
            ReelInfo::from_sidecar(text.to_string()),
            Err(PipelineError::ResponseShapeError { detail: text.to_string() })
        );
    }
    assert_eq!(
        ReelInfo::from_parsed("t".to_string(), None),
        Err(PipelineError::ResponseShapeError { detail: "t".to_string() })
    );
}

#[test]
fn a_known_video_is_not_fetched_again() {
    let job = job();
    let (state, action) = job.exec(FetchState::Start, FetchEvent::Started);
    assert_eq!(state, FetchState::CheckingStore);
    assert_eq!(action, FetchAction::FindVideo { reel_id: "ABC123".to_string() });
    let (state, action) = job.exec(state, FetchEvent::VideoLooked { known: true });
    assert_eq!(state, FetchState::Finished);
    assert_eq!(action, FetchAction::Finish(Ok(None)));
}

#[test]
fn a_new_video_is_downloaded_stored_and_handed_to_transcription() {
    let job = job();
    let (state, _) = job.exec(FetchState::Start, FetchEvent::Started);
    let (state, action) = job.exec(state, FetchEvent::VideoLooked { known: false });
    assert_eq!(state, FetchState::CheckingArtifacts);
    assert_eq!(action, FetchAction::ProbeArtifacts { reel_id: "ABC123".to_string() });
    let (state, action) =
        job.exec(state, FetchEvent::ArtifactsProbed { media: false, sidecar: false });
    assert_eq!(state, FetchState::Downloading);
    assert_eq!(
        action,
        FetchAction::Download { reel_url: "https://example.com/reel/ABC123/".to_string() }
    );
    let (state, action) =
        job.exec(state, FetchEvent::Downloaded { exit_code: 0, stderr: String::new() });
    assert_eq!(state, FetchState::Moving);
    assert_eq!(action, FetchAction::MoveArtifacts { reel_id: "ABC123".to_string() });
    let (state, action) = job.exec(state, FetchEvent::Moved);
    assert_eq!(state, FetchState::ReadingSidecar);
    assert_eq!(action, FetchAction::ReadSidecar { reel_id: "ABC123".to_string() });
    let (state, action) = job.exec(state, FetchEvent::SidecarRead { text: SIDECAR.to_string() });
    assert_eq!(state, FetchState::Storing);
    assert_eq!(
        action,
        FetchAction::StoreVideo {
            reel_id: "ABC123".to_string(),
            reel_url: "https://example.com/reel/ABC123/".to_string(),
            info: info(),
        }
    );
    let (state, action) = job.exec(state, FetchEvent::Stored { video_id: 12 });
    assert_eq!(state, FetchState::Finished);
    assert_eq!(
        action,
        FetchAction::Finish(Ok(Some(Job::Transcribe(ExtractTranscriptJob {
            video_id: 12,
            reel_id: "ABC123".to_string(),
        }))))
    );
}

#[test]
fn artifacts_of_an_earlier_attempt_are_used_again() {
    let job = job();
    let (state, action) = job.exec(
        FetchState::CheckingArtifacts,
        FetchEvent::ArtifactsProbed { media: true, sidecar: true },
    );
    assert_eq!(state, FetchState::ReadingSidecar);
    assert_eq!(action, FetchAction::ReadSidecar { reel_id: "ABC123".to_string() });
    let (state, action) = job.exec(state, FetchEvent::SidecarRead { text: SIDECAR.to_string() });
    assert!(matches!(action, FetchAction::StoreVideo { .. }));
    let (_, action) = job.exec(state, FetchEvent::Stored { video_id: 3 });
    assert_eq!(
        action,
        FetchAction::Finish(Ok(Some(Job::Transcribe(ExtractTranscriptJob {
            video_id: 3,
            reel_id: "ABC123".to_string(),
        }))))
    );
}

#[test]
fn half_of_the_artifacts_is_not_enough() {
    let job = job();
    for (media, sidecar) in [(true, false), (false, true)] {
        let (state, action) = job.exec(
            FetchState::CheckingArtifacts,
            FetchEvent::ArtifactsProbed { media, sidecar },
        );
        assert_eq!(state, FetchState::Downloading);
        assert!(matches!(action, FetchAction::Download { .. }));
    }
}

#[test]
fn a_failing_downloader_ends_the_stage_with_its_error() {
    let (state, action) = job().exec(
        FetchState::Downloading,
        FetchEvent::Downloaded { exit_code: 1, stderr: "HTTP Error 404".to_string() },
    );
    assert_eq!(state, FetchState::Finished);
    assert_eq!(
        action,
        FetchAction::Finish(Err(PipelineError::ExternalToolFailure {
            exit_code: 1,
            stderr: "HTTP Error 404".to_string(),
        }))
    );
}

#[test]
fn an_unreadable_sidecar_ends_the_stage() {
    let (state, action) =
        job().exec(FetchState::ReadingSidecar, FetchEvent::SidecarRead { text: "{}".to_string() });
    assert_eq!(state, FetchState::Finished);
    assert_eq!(
        action,
        FetchAction::Finish(Err(PipelineError::ResponseShapeError { detail: "{}".to_string() }))
    );
}

#[test]
fn a_fault_of_the_outside_ends_the_stage_in_any_state() {
    let fault = PipelineError::StoreFailure { detail: "down".to_string() };
    for state in [FetchState::Start, FetchState::CheckingStore, FetchState::Storing] {
        let (state, action) = job().exec(state, FetchEvent::Faulted(fault.clone()));
        assert_eq!(state, FetchState::Finished);
        assert_eq!(action, FetchAction::Finish(Err(fault.clone())));
    }
}

#[test]
fn a_report_that_does_not_fit_the_state_is_an_unexpected_fault() {
    let (state, action) = job().exec(FetchState::Start, FetchEvent::Moved);
    assert_eq!(state, FetchState::Finished);
    assert_eq!(
        action,
        FetchAction::Finish(Err(PipelineError::UnexpectedFault { detail: String::new() }))
    );
    let (state, _) = job().exec(FetchState::Finished, FetchEvent::Started);
    assert_eq!(state, FetchState::Finished);
}
