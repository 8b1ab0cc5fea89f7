use recipe_pipeline::error::PipelineError;
use recipe_pipeline::job::Job;
use recipe_pipeline::store::{EnqueueOutcome, TaskState, TaskStore};
use recipe_pipeline::submit::submit;

#[test]
fn a_link_becomes_a_fetch_task() {
    let mut store = TaskStore::new();
    let out = submit(&mut store, "https://example.com/reel/ABC123/".to_string(), true, 42);
    assert_eq!(out, Ok(EnqueueOutcome::Enqueued(0)));
    let task = store.get(0).expect("the task");
    assert_eq!(task.state, TaskState::Pending);
    assert_eq!(task.run_at, 42);
    assert_eq!(task.attempts, 0);
    match &task.job {
        Job::Fetch(job) => {
            assert_eq!(job.reel_id, "ABC123");
            assert_eq!(job.reel_url, "https://example.com/reel/ABC123/");
            assert!(job.auto_llm);
        }
        _ => panic!("a fetch task"),
    }
}

#[test]
fn a_second_submission_before_the_first_ends_adds_nothing() {
    let mut store = TaskStore::new();
    let url = "https://example.com/reel/ABC123/";
    assert_eq!(submit(&mut store, url.to_string(), true, 1), Ok(EnqueueOutcome::Enqueued(0)));
    assert_eq!(submit(&mut store, url.to_string(), true, 2), Ok(EnqueueOutcome::DuplicateSkipped));
    assert_eq!(store.len(), 1);
    store.lease_next(2);
    assert_eq!(submit(&mut store, url.to_string(), false, 3), Ok(EnqueueOutcome::DuplicateSkipped));
    assert_eq!(store.len(), 1);
}

#[test]
fn two_links_to_one_video_are_one_task() {
    let mut store = TaskStore::new();
    assert_eq!(
        submit(&mut store, "https://example.com/reel/ABC123/".to_string(), true, 1),
        Ok(EnqueueOutcome::Enqueued(0))
    );
    assert_eq!(
        submit(&mut store, "https://www.example.com/reel/ABC123?utm=x".to_string(), true, 1),
        Ok(EnqueueOutcome::DuplicateSkipped)
    );
    assert_eq!(
        submit(&mut store, "https://example.com/reel/ABC124/".to_string(), true, 1),
        Ok(EnqueueOutcome::Enqueued(1))
    );
}

#[test]
fn a_video_can_be_submitted_again_once_its_fetch_has_ended() {
    let mut store = TaskStore::new();
    let url = "https://example.com/reel/ABC123/";
    submit(&mut store, url.to_string(), true, 1).expect("a task");
    store.lease_next(1);
    assert!(store.complete(0));
    assert_eq!(submit(&mut store, url.to_string(), true, 2), Ok(EnqueueOutcome::Enqueued(1)));
}

#[test]
fn a_link_of_another_shape_is_refused_and_changes_nothing() {
    let mut store = TaskStore::new();
    assert_eq!(
        submit(&mut store, "https://example.com/watch?v=ABC123".to_string(), true, 1),
        Err(PipelineError::InvalidInput { url: "https://example.com/watch?v=ABC123".to_string() })
    );
    assert_eq!(store.len(), 0);
    assert!(!PipelineError::InvalidInput { url: String::new() }.is_retryable());
}
