use recipe_pipeline::context::{append_chars, Artifact, JobContext};
use recipe_pipeline::llm::LlmMethod;

fn context(yt_dlp_path: Option<String>) -> JobContext {
    JobContext::new(
        yt_dlp_path,
        "./reels".to_string(),
        "http://127.0.0.1:8080/inference".to_string(),
        "local".to_string(),
        "http://localhost:11434/api/generate".to_string(),
        "ollama".to_string(),
        "gemma".to_string(),
        LlmMethod::OllamaJson,
    )
}

#[test]
fn the_downloader_has_a_usual_name() {
    assert_eq!(context(None).yt_dlp_command_string, "yt-dlp");
}

#[test]
fn a_configured_downloader_is_kept() {
    assert_eq!(
        context(Some("/opt/bin/yt-dlp".to_string())).yt_dlp_command_string,
        "/opt/bin/yt-dlp"
    );
}

#[test]
fn the_rest_of_the_configuration_is_kept() {
    let context = context(None);
    assert_eq!(context.reel_dir, "./reels");
    assert_eq!(context.whisper_url, "http://127.0.0.1:8080/inference");
    assert_eq!(context.whisper_key, "local");
    assert_eq!(context.completion_url, "http://localhost:11434/api/generate");
    assert_eq!(context.completion_key, "ollama");
    assert_eq!(context.completion_model, "gemma");
    assert_eq!(context.completion_mode, LlmMethod::OllamaJson);
}

fn in_directory(reel_dir: &str) -> JobContext {
    JobContext::new(
        None,
        reel_dir.to_string(),
        String::new(),
        String::new(),
        String::new(),
        String::new(),
        String::new(),
        LlmMethod::OllamaJson,
    )
}

#[test]
fn the_artifacts_of_a_video_lie_under_its_external_id() {
    let context = in_directory("./reels");
    assert_eq!(context.video_path("ABC123"), "./reels/ABC123.mp4");
    assert_eq!(context.artifact_path("ABC123", Artifact::Media), "./reels/ABC123.mp4");
    assert_eq!(context.artifact_path("ABC123", Artifact::Sidecar), "./reels/ABC123.json");
    assert_eq!(context.artifact_path("ABC123", Artifact::Audio), "./reels/ABC123.audio.wav");
}

#[test]
fn the_directory_gets_one_slash() {
    assert_eq!(in_directory("/data/reels/").video_path("a_-9"), "/data/reels/a_-9.mp4");
    assert_eq!(in_directory("/data/reels").video_path("a_-9"), "/data/reels/a_-9.mp4");
    assert_eq!(in_directory("/").video_path("x"), "/x.mp4");
    assert_eq!(in_directory("").video_path("x"), "x.mp4");
}

#[test]
fn different_videos_and_artifacts_have_different_paths() {
    let context = in_directory("reels");
    let kinds = [Artifact::Media, Artifact::Sidecar, Artifact::Audio];
    let mut paths = Vec::new();
    for id in ["a", "b", "ab", "a-b", "A"] {
        for kind in kinds {
            paths.push(context.artifact_path(id, kind));
        }
    }
    for (i, path) in paths.iter().enumerate() {
        for other in &paths[i + 1..] {
            assert_ne!(path, other);
        }
    }
    assert_eq!(Artifact::Audio.extension_chars(), ".audio.wav".chars().collect::<Vec<char>>());
}

#[test]
fn append_adds_at_the_end() {
    let mut out = vec!['a'];
    append_chars(&mut out, &vec!['b', 'c']);
    append_chars(&mut out, &vec![]);
    assert_eq!(out, vec!['a', 'b', 'c']);
}
