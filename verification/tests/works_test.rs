use knowledge_vault::domain::work::Work;
use knowledge_vault::ports::external::OpenLibraryBook;
use knowledge_vault::ports::repository::RepoError;
use knowledge_vault::web::handlers::works::{
    get_work_by_id, get_works, list_window, post_works, post_works_retry, step_works, ListWorksParams, SubmitWorkInput,
    WorksAction, WorksEvent, WorksReply, WorksState,
};

fn work(id: &str, status: &str, isbn: Option<&str>) -> Work {
    Work {
        id: id.into(),
        title: String::new(),
        author: String::new(),
        isbn: isbn.map(|s| s.to_string()),
        open_library_id: None,
        status: status.into(),
        error_msg: None,
        created_at: String::new(),
        updated_at: String::new(),
        progress_pct: 0,
        last_action: String::new(),
        reading_status: None,
        cover_image_url: None,
        page_count: None,
        publisher: None,
        average_rating_bits: None,
        preview_link: None,
    }
}

fn submit(identifier: &str, kind: &str) -> (WorksState, WorksAction) {
    post_works(SubmitWorkInput { identifier: identifier.into(), identifier_type: kind.into() }, true, true)
}

fn error_of(action: &WorksAction) -> (u16, String, Option<String>) {
    match action {
        WorksAction::Respond { reply: WorksReply::Error { body } } => (body.status, body.error.clone(), body.message.clone()),
        _ => panic!("expected an error reply"),
    }
}

#[test]
fn an_isbn_submission_is_normalised_looked_up_created_and_announced() {
    let (state, action) = submit("978-0-13-235088-4", "isbn");
    match &action {
        WorksAction::FindByIsbn { isbn } => assert_eq!(isbn, "9780132350884"),
        _ => panic!("expected a lookup"),
    }
    let (state, action) = step_works(state, WorksEvent::WorkFound { result: Ok(None) });
    match &action {
        WorksAction::CreateWork { isbn } => assert_eq!(isbn, "9780132350884"),
        _ => panic!("expected the work to be created"),
    }
    let (state, action) = step_works(state, WorksEvent::WorkStored { result: Ok(work("w1", "pending", Some("9780132350884"))) });
    match &action {
        WorksAction::Publish { subject, event } => {
            assert_eq!(subject, "discovery.requested");
            assert_eq!(event.work_id, "w1");
            assert_eq!(event.identifier, Some("9780132350884".to_string()));
            assert_eq!(event.identifier_type, "isbn");
        }
        _ => panic!("expected a publication"),
    }
    let (state, action) = step_works(state, WorksEvent::Published { result: Ok(()) });
    assert!(matches!(state, WorksState::Finished));
    match action {
        WorksAction::Respond { reply: WorksReply::Accepted { body } } => {
            assert_eq!((body.work_id.as_str(), body.status.as_str()), ("w1", "pending"))
        }
        _ => panic!("expected 202"),
    }
}

#[test]
fn an_invalid_isbn_is_refused_with_its_reason() {
    let (_, action) = submit("9780132350885", "isbn");
    let (status, error, message) = error_of(&action);
    assert_eq!((status, error.as_str()), (422, "invalid_isbn"));
    assert!(message.unwrap().contains("check digit mismatch"));
}

#[test]
fn an_unknown_identifier_type_is_refused() {
    let (_, action) = submit("x", "doi");
    assert_eq!(
        error_of(&action),
        (422, "invalid_identifier_type".to_string(), Some("identifier_type must be \"isbn\" or \"title\"".to_string()))
    );
}

#[test]
fn a_known_isbn_is_a_duplicate() {
    let (state, _) = submit("9780132350884", "isbn");
    let (_, action) = step_works(state, WorksEvent::WorkFound { result: Ok(Some(work("old", "done", None))) });
    match action {
        WorksAction::Respond { reply: WorksReply::Duplicate { work_id } } => assert_eq!(work_id, "old"),
        _ => panic!("expected 409"),
    }
}

#[test]
fn without_a_publisher_nothing_is_created() {
    let (state, _) = post_works(
        SubmitWorkInput { identifier: "9780132350884".into(), identifier_type: "isbn".into() },
        true,
        false,
    );
    let (_, action) = step_works(state, WorksEvent::WorkFound { result: Ok(None) });
    assert_eq!(
        error_of(&action),
        (500, "messaging_unavailable".to_string(), Some("NATS publisher is not initialised".to_string()))
    );
}

#[test]
fn a_creation_race_is_answered_with_the_winner() {
    let (state, _) = submit("9780132350884", "isbn");
    let (state, _) = step_works(state, WorksEvent::WorkFound { result: Ok(None) });
    let (state, action) = step_works(state, WorksEvent::WorkStored { result: Err(RepoError::Internal("unique".into())) });
    assert!(matches!(action, WorksAction::FindByIsbn { .. }));
    let (_, action) = step_works(state, WorksEvent::WorkFound { result: Ok(Some(work("winner", "pending", None))) });
    assert!(matches!(action, WorksAction::Respond { reply: WorksReply::Duplicate { .. } }));
}

#[test]
fn a_title_submission_searches_open_library() {
    let (_, action) = submit("   ", "title");
    assert_eq!(error_of(&action), (422, "invalid_title".to_string(), Some("title must not be empty".to_string())));
    let (state, action) = submit("Clean Code", "title");
    assert!(matches!(action, WorksAction::SearchTitle { .. }));
    let book = OpenLibraryBook { open_library_id: "/works/OL1W".into(), title: "Clean Code".into(), author: "Bob".into() };
    let (state, action) = step_works(state, WorksEvent::TitleSearched { result: Ok(Some(book)) });
    match &action {
        WorksAction::FindByOpenLibraryId { open_library_id } => assert_eq!(open_library_id, "/works/OL1W"),
        _ => panic!("expected a lookup by Open Library id"),
    }
    let (state, action) = step_works(state, WorksEvent::WorkFound { result: Ok(None) });
    match &action {
        WorksAction::CreateWorkByTitle { title, author, open_library_id } => {
            assert_eq!((title.as_str(), author.as_str(), open_library_id.as_str()), ("Clean Code", "Bob", "/works/OL1W"))
        }
        _ => panic!("expected the work to be created"),
    }
    let (_, action) = step_works(state, WorksEvent::WorkStored { result: Ok(work("w2", "pending", None)) });
    match action {
        WorksAction::Publish { event, .. } => {
            assert_eq!(event.identifier, Some("Clean Code".to_string()));
            assert_eq!(event.identifier_type, "title");
        }
        _ => panic!("expected a publication"),
    }
}

#[test]
fn a_title_without_results_is_refused() {
    let (state, _) = submit("Nothing at all", "title");
    let (_, action) = step_works(state, WorksEvent::TitleSearched { result: Ok(None) });
    assert_eq!(
        error_of(&action),
        (422, "title_not_found".to_string(), Some("no results found for the given title".to_string()))
    );
}

#[test]
fn only_failed_works_are_retried() {
    let (state, action) = post_works_retry("w1".into(), true);
    assert!(matches!(action, WorksAction::FindById { .. }));
    let (_, action) = step_works(state, WorksEvent::WorkFound { result: Ok(Some(work("w1", "done", None))) });
    assert_eq!(error_of(&action), (400, "not_failed".to_string(), None));

    let (state, _) = post_works_retry("w1".into(), true);
    let (_, action) = step_works(state, WorksEvent::WorkFound { result: Ok(None) });
    assert_eq!(error_of(&action), (404, "not_found".to_string(), None));

    let (state, _) = post_works_retry("w1".into(), true);
    let (state, action) = step_works(state, WorksEvent::WorkFound { result: Ok(Some(work("w1", "failed", Some("123")))) });
    assert!(matches!(action, WorksAction::ResetToPending { .. }));
    let (_, action) = step_works(state, WorksEvent::WorkStored { result: Ok(work("w1", "pending", Some("123"))) });
    match action {
        WorksAction::Publish { event, .. } => assert_eq!(event.identifier, Some("123".to_string())),
        _ => panic!("expected a publication"),
    }
}

#[test]
fn a_retry_that_lost_a_race_is_a_conflict() {
    let (state, _) = post_works_retry("w1".into(), true);
    let (state, _) = step_works(state, WorksEvent::WorkFound { result: Ok(Some(work("w1", "failed", None))) });
    let (_, action) = step_works(state, WorksEvent::WorkStored { result: Err(RepoError::NotFound) });
    assert_eq!(error_of(&action), (409, "status_changed".to_string(), None));
}

#[test]
fn a_failed_publication_is_a_messaging_error() {
    let (state, _) = submit("9780132350884", "isbn");
    let (state, _) = step_works(state, WorksEvent::WorkFound { result: Ok(None) });
    let (state, _) = step_works(state, WorksEvent::WorkStored { result: Ok(work("w1", "pending", None)) });
    let (_, action) = step_works(state, WorksEvent::Published { result: Err("no route".into()) });
    assert_eq!(error_of(&action), (500, "messaging_error".to_string(), Some("no route".to_string())));
}

#[test]
fn listings_are_paged_with_defaults_and_a_cap() {
    assert_eq!(list_window(ListWorksParams { limit: None, offset: None }), (50, 0));
    assert_eq!(list_window(ListWorksParams { limit: Some(500), offset: Some(7) }), (200, 7));
    assert_eq!(list_window(ListWorksParams { limit: Some(10), offset: None }), (10, 0));
    assert_eq!(get_works(Ok(vec![])).ok().unwrap().len(), 0);
    assert_eq!(get_works(Err(RepoError::NotFound)).err().unwrap().status, 500);
}

#[test]
fn one_work_or_404() {
    assert_eq!(get_work_by_id(Ok(Some(work("w", "done", None)))).ok().unwrap().id, "w");
    let e = get_work_by_id(Ok(None)).err().unwrap();
    assert_eq!((e.status, e.error.as_str(), e.message), (404, "not_found", Some("Work not found".to_string())));
}
