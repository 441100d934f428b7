use knowledge_vault::adapters::nats::{delivery_action, unreadable_delivery_action, AckAction};
use knowledge_vault::app::worker::{decode_payload, invalid_message_json, start_job, step_job, DiscoveryRequest, JobAction, JobEvent, JobState};
use knowledge_vault::domain::insight::GeminiResponse;
use knowledge_vault::domain::work::WorkStatus;
use knowledge_vault::ports::external::{BookMetadata, ExternalError, OpenLibraryBook};
use knowledge_vault::ports::messaging::WorkerError;
use knowledge_vault::ports::repository::RepoError;
use std::time::Duration;

fn request(identifier: &str, kind: &str) -> DiscoveryRequest {
    DiscoveryRequest { work_id: "w1".into(), identifier: identifier.into(), identifier_type: kind.into() }
}

fn metadata() -> BookMetadata {
    BookMetadata { title: "Book".into(), author: "Author".into(), description: String::new(), subjects: vec![] }
}

#[test]
fn title_submission_routes_to_fetch_by_work_id() {
    let (state, action) = start_job(request("Clean Code", "title"));
    assert!(matches!(action, JobAction::UpdateStatus { status: WorkStatus::Processing, .. }));
    let (state, action) = step_job(state, JobEvent::StatusUpdated { result: Ok(()) });
    match action {
        JobAction::SearchByTitle { title } => assert_eq!(title, "Clean Code"),
        _ => panic!("expected a title search"),
    }
    let book = OpenLibraryBook { open_library_id: "/works/OL123W".into(), title: "Clean Code".into(), author: "A".into() };
    let (_, action) = step_job(state, JobEvent::TitleSearched { result: Ok(Some(book)) });
    match action {
        JobAction::FetchByWorkId { open_library_id } => assert_eq!(open_library_id, "/works/OL123W"),
        _ => panic!("expected fetch_by_work_id"),
    }
}

#[test]
fn isbn_submission_routes_to_fetch_by_isbn() {
    let (state, _) = start_job(request("9780132350884", "isbn"));
    let (_, action) = step_job(state, JobEvent::StatusUpdated { result: Ok(()) });
    match action {
        JobAction::FetchByIsbn { isbn } => assert_eq!(isbn, "9780132350884"),
        _ => panic!("expected fetch_by_isbn"),
    }
}

#[test]
fn a_full_job_writes_the_graph_and_finishes() {
    let (state, _) = start_job(request("9780132350884", "isbn"));
    let (state, _) = step_job(state, JobEvent::StatusUpdated { result: Ok(()) });
    let (state, action) = step_job(state, JobEvent::MetadataFetched { result: Ok(metadata()) });
    assert!(matches!(action, JobAction::ExtractConcepts { .. }));
    let response = GeminiResponse { summary: "s".into(), key_points: vec![], concepts: vec![] };
    let (state, action) = step_job(state, JobEvent::ConceptsExtracted { result: Ok(response) });
    match &action {
        JobAction::WriteGraph { work_id, .. } => assert_eq!(work_id, "w1"),
        _ => panic!("expected the graph write"),
    }
    let (state, action) = step_job(state, JobEvent::GraphWritten { result: Ok(()) });
    assert!(matches!(state, JobState::Finished));
    assert!(matches!(action, JobAction::Finish { outcome: Ok(()) }));
}

#[test]
fn a_title_without_results_fails_the_work_permanently() {
    let (state, _) = start_job(request("Nothing", "title"));
    let (state, _) = step_job(state, JobEvent::StatusUpdated { result: Ok(()) });
    let (state, action) = step_job(state, JobEvent::TitleSearched { result: Ok(None) });
    match action {
        JobAction::UpdateStatus { work_id, status: WorkStatus::Failed, error_msg: Some(m) } => {
            assert_eq!(work_id, "w1");
            assert_eq!(m, "title 'Nothing' not found in Open Library");
        }
        _ => panic!("expected the failure to be recorded"),
    }
    let (_, action) = step_job(state, JobEvent::StatusUpdated { result: Ok(()) });
    match action {
        JobAction::Finish { outcome: Err(WorkerError::Permanent(m)) } => {
            assert_eq!(m, "title 'Nothing' not found in Open Library")
        }
        _ => panic!("expected a permanent failure"),
    }
}

#[test]
fn a_transient_fetch_failure_ends_the_job_for_redelivery() {
    let (state, _) = start_job(request("9780132350884", "isbn"));
    let (state, _) = step_job(state, JobEvent::StatusUpdated { result: Ok(()) });
    let (state, action) = step_job(state, JobEvent::MetadataFetched { result: Err(ExternalError::Transient("timeout".into())) });
    assert!(matches!(state, JobState::Finished));
    assert!(matches!(action, JobAction::Finish { outcome: Err(WorkerError::Transient(_)) }));
}

#[test]
fn a_failed_graph_write_is_retried() {
    let (state, _) = start_job(request("9780132350884", "isbn"));
    let (state, _) = step_job(state, JobEvent::StatusUpdated { result: Ok(()) });
    let (state, _) = step_job(state, JobEvent::MetadataFetched { result: Ok(metadata()) });
    let response = GeminiResponse { summary: "s".into(), key_points: vec![], concepts: vec![] };
    let (state, _) = step_job(state, JobEvent::ConceptsExtracted { result: Ok(response) });
    let (_, action) = step_job(state, JobEvent::GraphWritten { result: Err(RepoError::Internal("locked".into())) });
    match action {
        JobAction::Finish { outcome: Err(WorkerError::Transient(m)) } => assert_eq!(m, "Internal error: locked"),
        _ => panic!("expected a transient failure"),
    }
}

#[test]
fn payloads_must_be_utf8() {
    assert_eq!(decode_payload(b"{}").ok(), Some("{}".to_string()));
    match decode_payload(&[0xff, 0xfe]) {
        Err(WorkerError::Permanent(m)) => assert!(m.starts_with("invalid UTF-8 in message: ")),
        _ => panic!("expected a permanent error"),
    }
    assert_eq!(
        invalid_message_json("eof"),
        WorkerError::Permanent("invalid message JSON: eof".into())
    );
}

#[test]
fn deliveries_are_acknowledged_by_outcome() {
    assert!(matches!(delivery_action(1, &Ok(())), AckAction::Ack));
    match delivery_action(3, &Err(WorkerError::Transient("t".into()))) {
        AckAction::RetryAfter(d) => assert_eq!(d, Duration::from_secs(4)),
        _ => panic!("expected a retry"),
    }
    assert!(matches!(delivery_action(5, &Err(WorkerError::Transient("t".into()))), AckAction::Terminate));
    assert!(matches!(delivery_action(1, &Err(WorkerError::Permanent("p".into()))), AckAction::Terminate));
    assert!(matches!(unreadable_delivery_action(), AckAction::RetryNow));
}
