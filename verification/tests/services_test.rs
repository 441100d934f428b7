use knowledge_vault::adapters::gemini::{build_prompt, extract_concepts, response_schema, step_extract, ExtractAction, ExtractEvent, ExtractState};
use knowledge_vault::adapters::google_books::{fetch_by_isbn as volume_lookup, step_volume, volume_metadata, ImageLinks, VolumeAction, VolumeEvent, VolumeInfo};
use knowledge_vault::adapters::http::status_failure;
use knowledge_vault::adapters::openlib::{
    fetch_by_isbn, fetch_by_work_id, pick_search_result, search_by_title, step_fetch, step_search, FetchAction, FetchEvent, OlAuthorRef,
    OlBookResponse, OlDescription, SearchAction, SearchDoc, SearchEvent, SearchResponse,
};
use knowledge_vault::domain::insight::GeminiResponse;
use knowledge_vault::ports::external::{BookMetadata, ExternalError};

fn metadata() -> BookMetadata {
    BookMetadata {
        title: "Clean Code".into(),
        author: "Robert C. Martin".into(),
        description: "On craft.".into(),
        subjects: vec!["Software".into(), "Programming".into()],
    }
}

#[test]
fn the_prompt_lists_the_book() {
    assert_eq!(
        build_prompt(&metadata()),
        "Analyze the following book and extract structured knowledge:\nTitle: Clean Code\nAuthor: Robert C. Martin\nDescription: On craft.\nSubjects: Software, Programming\n\nExtract a summary, key points, and concepts with their relationships."
    );
}

#[test]
fn the_schema_is_json_with_the_three_fields() {
    let s = response_schema();
    assert!(s.starts_with("{\"type\":\"OBJECT\""));
    assert!(s.contains("\"summary\"") && s.contains("\"key_points\"") && s.contains("\"related_concepts\""));
}

#[test]
fn an_extraction_request_goes_to_the_model() {
    let (_, action) = extract_concepts(&metadata(), "gemini-2.0-flash");
    match action {
        ExtractAction::Send { call } => {
            assert_eq!(call.url, "https://generativelanguage.googleapis.com/v1beta/models/gemini-2.0-flash:generateContent");
            assert!(call.prompt.contains("Title: Clean Code"));
        }
        _ => panic!("expected a request"),
    }
}

#[test]
fn client_errors_other_than_429_are_permanent() {
    assert!(matches!(status_failure("X ", 404, "404 Not Found", "b"), ExternalError::Permanent(_)));
    assert!(matches!(status_failure("X ", 429, "429 Too Many Requests", "b"), ExternalError::Transient(_)));
    match status_failure("Gemini API error ", 500, "500 Internal Server Error", "oops") {
        ExternalError::Transient(m) => assert_eq!(m, "Gemini API error 500 Internal Server Error: oops"),
        _ => panic!("expected a transient error"),
    }
}

#[test]
fn an_extraction_runs_through_its_steps() {
    let (state, _) = extract_concepts(&metadata(), "m");
    let (state, action) = step_extract(state, ExtractEvent::Sent { result: Ok((200, "200 OK".into())) });
    assert!(matches!(action, ExtractAction::ReadCandidates));
    let (state, action) = step_extract(state, ExtractEvent::CandidatesRead { result: Ok(vec![vec!["{json}".into()]]) });
    match &action {
        ExtractAction::Decode { text } => assert_eq!(text, "{json}"),
        _ => panic!("expected the text to be decoded"),
    }
    let reply = GeminiResponse { summary: "s".into(), key_points: vec![], concepts: vec![] };
    let (state, action) = step_extract(state, ExtractEvent::Decoded { result: Ok(reply) });
    assert!(matches!(state, ExtractState::Finished));
    assert!(matches!(action, ExtractAction::Done { result: Ok(_) }));
}

#[test]
fn extraction_failures_are_classified() {
    let (state, _) = extract_concepts(&metadata(), "m");
    let (_, action) = step_extract(state, ExtractEvent::Sent { result: Err((true, "deadline".into())) });
    match action {
        ExtractAction::Done { result: Err(ExternalError::Transient(m)) } => assert_eq!(m, "Gemini timeout: deadline"),
        _ => panic!("expected a transient error"),
    }
    let (state, _) = extract_concepts(&metadata(), "m");
    let (state, action) = step_extract(state, ExtractEvent::Sent { result: Ok((400, "400 Bad Request".into())) });
    assert!(matches!(action, ExtractAction::ReadErrorBody));
    let (_, action) = step_extract(state, ExtractEvent::ErrorBodyRead { body: "bad".into() });
    match action {
        ExtractAction::Done { result: Err(ExternalError::Permanent(m)) } => assert_eq!(m, "Gemini API error 400 Bad Request: bad"),
        _ => panic!("expected a permanent error"),
    }
    let (state, _) = extract_concepts(&metadata(), "m");
    let (state, _) = step_extract(state, ExtractEvent::Sent { result: Ok((200, "200 OK".into())) });
    let (_, action) = step_extract(state, ExtractEvent::CandidatesRead { result: Ok(vec![]) });
    match action {
        ExtractAction::Done { result: Err(ExternalError::Permanent(m)) } => assert_eq!(m, "Gemini returned empty candidates"),
        _ => panic!("expected a permanent error"),
    }
    let (state, _) = extract_concepts(&metadata(), "m");
    let (state, _) = step_extract(state, ExtractEvent::Sent { result: Ok((200, "200 OK".into())) });
    let (state, _) = step_extract(state, ExtractEvent::CandidatesRead { result: Ok(vec![vec!["t".into()]]) });
    let empty = GeminiResponse { summary: String::new(), key_points: vec![], concepts: vec![] };
    let (_, action) = step_extract(state, ExtractEvent::Decoded { result: Ok(empty) });
    match action {
        ExtractAction::Done { result: Err(ExternalError::Permanent(m)) } => {
            assert_eq!(m, "Gemini response missing required field: summary")
        }
        _ => panic!("expected a permanent error"),
    }
}

#[test]
fn a_title_search_takes_the_first_hit_and_its_first_author() {
    let docs = vec![
        SearchDoc { key: "/works/OL1W".into(), title: "Clean Code".into(), author_name: Some(vec!["Bob".into(), "Al".into()]) },
        SearchDoc { key: "/works/OL2W".into(), title: "Other".into(), author_name: None },
    ];
    let b = pick_search_result(SearchResponse { num_found: 2, docs }).unwrap();
    assert_eq!((b.open_library_id.as_str(), b.title.as_str(), b.author.as_str()), ("/works/OL1W", "Clean Code", "Bob"));
    let docs = vec![SearchDoc { key: "k".into(), title: "t".into(), author_name: None }];
    assert_eq!(pick_search_result(SearchResponse { num_found: 1, docs }).unwrap().author, "");
    assert!(pick_search_result(SearchResponse { num_found: 0, docs: vec![] }).is_none());
    let docs = vec![SearchDoc { key: "k".into(), title: "t".into(), author_name: None }];
    assert!(pick_search_result(SearchResponse { num_found: 0, docs }).is_none());
}

#[test]
fn a_title_search_url_encodes_the_title() {
    let (state, action) = search_by_title("Clean Code & more");
    match &action {
        SearchAction::Get { url } => {
            assert!(url.starts_with("http://openlibrary.org/search.json?title=Clean+Code+%26+more"));
            assert!(url.ends_with("&limit=1&fields=key%2Ctitle%2Cauthor_name"));
        }
        _ => panic!("expected a request"),
    }
    let (_, action) = step_search(state, SearchEvent::Sent { result: Ok((503, "503 Service Unavailable".into())) });
    match action {
        SearchAction::Done { result: Err(m) } => assert_eq!(m, "Open Library returned status 503 Service Unavailable"),
        _ => panic!("expected an error"),
    }
}

#[test]
fn descriptions_come_in_two_forms() {
    assert_eq!(OlDescription::Simple("a".into()).text(), "a");
    assert_eq!(OlDescription::Object { value: "b".into() }.text(), "b");
}

#[test]
fn a_fetch_by_isbn_fills_in_defaults_and_the_author() {
    let (state, action) = fetch_by_isbn("9780132350884");
    match &action {
        FetchAction::Get { url } => assert_eq!(url, "https://openlibrary.org/isbn/9780132350884.json"),
        _ => panic!("expected a request"),
    }
    let (state, _) = step_fetch(state, FetchEvent::Sent { result: Ok((200, "200 OK".into())) });
    let book = OlBookResponse {
        title: None,
        authors: vec![OlAuthorRef { key: Some("/authors/OL1A".into()) }],
        description: Some(OlDescription::Object { value: "d".into() }),
        subjects: vec!["s".into()],
    };
    let (state, action) = step_fetch(state, FetchEvent::BookRead { result: Ok(book) });
    match &action {
        FetchAction::GetAuthor { url } => assert_eq!(url, "https://openlibrary.org/authors/OL1A.json"),
        _ => panic!("expected the author request"),
    }
    let (state, action) = step_fetch(state, FetchEvent::AuthorSent { succeeded: true });
    assert!(matches!(action, FetchAction::ReadAuthor));
    let (_, action) = step_fetch(state, FetchEvent::AuthorRead { name: None });
    match action {
        FetchAction::Done { result: Ok(m) } => {
            assert_eq!((m.title.as_str(), m.author.as_str(), m.description.as_str()), ("Unknown title", "Unknown author", "d"));
            assert_eq!(m.subjects, vec!["s".to_string()]);
        }
        _ => panic!("expected the metadata"),
    }
}

#[test]
fn a_missing_isbn_is_permanent() {
    let (state, _) = fetch_by_isbn("123");
    let (_, action) = step_fetch(state, FetchEvent::Sent { result: Ok((404, "404 Not Found".into())) });
    match action {
        FetchAction::Done { result: Err(ExternalError::Permanent(m)) } => assert_eq!(m, "ISBN 123 not found in OpenLibrary"),
        _ => panic!("expected a permanent error"),
    }
    let (state, _) = fetch_by_isbn("123");
    let (_, action) = step_fetch(state, FetchEvent::Sent { result: Ok((502, "502 Bad Gateway".into())) });
    match action {
        FetchAction::Done { result: Err(ExternalError::Transient(m)) } => assert_eq!(m, "OpenLibrary returned HTTP 502 Bad Gateway"),
        _ => panic!("expected a transient error"),
    }
}

#[test]
fn a_work_found_by_title_is_fetched_by_its_key() {
    let (state, action) = fetch_by_work_id("/works/OL45804W");
    match &action {
        FetchAction::Get { url } => assert_eq!(url, "https://openlibrary.org/works/OL45804W.json"),
        _ => panic!("expected a request"),
    }
    let (_, action) = step_fetch(state, FetchEvent::Sent { result: Ok((404, "404 Not Found".into())) });
    match action {
        FetchAction::Done { result: Err(ExternalError::Permanent(m)) } => {
            assert_eq!(m, "Work /works/OL45804W not found in OpenLibrary")
        }
        _ => panic!("expected a permanent error"),
    }
    let (state, _) = fetch_by_work_id("/works/OL45804W");
    let (_, action) = step_fetch(state, FetchEvent::Sent { result: Ok((503, "503 Service Unavailable".into())) });
    assert!(matches!(action, FetchAction::Done { result: Err(ExternalError::Transient(_)) }));
    let (state, _) = fetch_by_work_id("/works/OL45804W");
    let (_, action) = step_fetch(state, FetchEvent::Sent { result: Ok((200, "200 OK".into())) });
    assert!(matches!(action, FetchAction::ReadBook));
}

#[test]
fn google_books_is_skipped_without_a_key() {
    let (_, action) = volume_lookup(None, "123");
    match action {
        VolumeAction::Done { result: Err(ExternalError::SkippedOptional(m)) } => assert_eq!(m, "KV_GOOGLE_BOOKS_API_KEY not set"),
        _ => panic!("expected the lookup to be skipped"),
    }
}

#[test]
fn google_books_covers_fall_back_to_open_library() {
    let info = VolumeInfo { page_count: Some(464), publisher: None, average_rating_bits: None, preview_link: None, image_links: None };
    let m = volume_metadata(info, "9780132350884");
    assert_eq!(m.cover_image_url, Some("https://covers.openlibrary.org/b/isbn/9780132350884-M.jpg".to_string()));
    assert_eq!(m.page_count, Some(464));
    let info = VolumeInfo {
        page_count: None,
        publisher: None,
        average_rating_bits: None,
        preview_link: None,
        image_links: Some(ImageLinks { thumbnail: None, small_thumbnail: Some("small".into()) }),
    };
    assert_eq!(volume_metadata(info, "1").cover_image_url, Some("small".to_string()));
}

#[test]
fn google_books_lookups_run_through_their_steps() {
    let (state, action) = volume_lookup(Some("key".into()), "123");
    match &action {
        VolumeAction::Get { query } => assert_eq!((query.q.as_str(), query.api_key.as_str()), ("isbn:123", "key")),
        _ => panic!("expected a request"),
    }
    let (state, _) = step_volume(state, VolumeEvent::Sent { result: Ok((200, "200 OK".into())) });
    let (_, action) = step_volume(state, VolumeEvent::VolumesRead { result: Ok(None) });
    assert!(matches!(action, VolumeAction::Done { result: Ok(None) }));
    let (state, _) = volume_lookup(Some("key".into()), "123");
    let (_, action) = step_volume(state, VolumeEvent::Sent { result: Err((false, "dns".into())) });
    match action {
        VolumeAction::Done { result: Err(ExternalError::Transient(m)) } => assert_eq!(m, "Google Books request error: dns"),
        _ => panic!("expected a transient error"),
    }
}
