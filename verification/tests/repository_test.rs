use knowledge_vault::adapters::surreal::concepts::{record_to_concept, step_upsert, upsert, ConceptRecord, UpsertAction, UpsertEvent, UpsertState};
use knowledge_vault::adapters::surreal::insights::{create_insight, step_insight, InsightAction, InsightContent, InsightEvent};
use knowledge_vault::adapters::surreal::login_attempts::{count_recent_failures_query, new_attempt, oldest_failure_ts, oldest_recent_failure_query};
use knowledge_vault::adapters::surreal::records::{
    account_creation_error, count_or_zero, created_token, created_user, created_work, first_work, record_to_user,
    record_to_work, reset_outcome, PatRecord, UserRecord, WorkRecord,
};
use knowledge_vault::domain::concept::normalize_concept_name;
use knowledge_vault::ports::repository::RepoError;

fn work_record(id: Option<&str>) -> WorkRecord {
    WorkRecord {
        id: id.map(|s| s.to_string()),
        title: "T".into(),
        author: "A".into(),
        isbn: Some("123".into()),
        open_library_id: None,
        status: "pending".into(),
        error_msg: None,
        created_at: "c".into(),
        updated_at: "u".into(),
        progress_pct: None,
        last_action: None,
        reading_status: None,
        cover_image_url: None,
        page_count: Some(10),
        publisher: None,
        average_rating_bits: Some(4.5f64.to_bits()),
        preview_link: None,
    }
}

fn content() -> InsightContent {
    InsightContent { summary: "s".into(), key_points: vec![], raw_gemini_response: "{}".into() }
}

#[test]
fn work_records_become_works() {
    let w = record_to_work(work_record(Some("`w1`")), None);
    assert_eq!(w.id, "w1");
    assert_eq!(w.progress_pct, 0);
    assert_eq!(w.last_action, "");
    assert_eq!(w.page_count, Some(10));
    assert_eq!(f64::from_bits(w.average_rating_bits.unwrap()), 4.5);
    let w = record_to_work(work_record(Some("w1")), Some("override".into()));
    assert_eq!(w.id, "override");
    assert_eq!(record_to_work(work_record(None), None).id, "");
    let mut rec = work_record(None);
    rec.progress_pct = Some(40);
    rec.last_action = Some("Extracting".into());
    let w = record_to_work(rec, None);
    assert_eq!((w.progress_pct, w.last_action.as_str()), (40, "Extracting"));
}

#[test]
fn store_outcomes_of_works() {
    assert!(first_work(vec![]).is_none());
    assert_eq!(first_work(vec![work_record(Some("a")), work_record(Some("b"))]).unwrap().id, "a");
    assert_eq!(created_work(Some(work_record(None)), "new".into()).ok().unwrap().id, "new");
    assert!(matches!(created_work(None, "new".into()), Err(RepoError::Internal(m)) if m == "no record returned"));
    assert!(matches!(reset_outcome(vec![], "w".into()), Err(RepoError::NotFound)));
    assert_eq!(reset_outcome(vec![work_record(None)], "w".into()).ok().unwrap().id, "w");
}

#[test]
fn account_records_and_errors() {
    let u = record_to_user(UserRecord { id: Some("`u1`".into()), email: "a@b.c".into(), password_hash: "h".into(), role: "admin".into() });
    assert_eq!((u.id.as_str(), u.role.as_str()), ("u1", "admin"));
    assert!(matches!(account_creation_error("Database record `users:x` already exists".into()), RepoError::EmailAlreadyExists));
    assert!(matches!(account_creation_error("index UNIQUE violated".into()), RepoError::EmailAlreadyExists));
    assert!(matches!(account_creation_error("disk full".into()), RepoError::Internal(m) if m == "disk full"));
    let rec = UserRecord { id: None, email: "a@b.c".into(), password_hash: "h".into(), role: "admin".into() };
    assert_eq!(created_user(Some(rec), "u9".into()).ok().unwrap().id, "u9");
    assert!(created_user(None, "u9".into()).is_err());
}

#[test]
fn token_records_keep_their_rendered_ids() {
    let rec = PatRecord { id: Some("`t1`".into()), user_id: "u".into(), name: "n".into(), token_hash: "h".into(), created_at: None, revoked_at: None };
    let t = rec.into_domain().ok().unwrap();
    assert_eq!((t.id.as_str(), t.created_at.as_str()), ("`t1`", ""));
    let rec = PatRecord { id: None, user_id: "u".into(), name: "n".into(), token_hash: "h".into(), created_at: None, revoked_at: None };
    assert!(matches!(rec.into_domain(), Err(RepoError::Internal(m)) if m == "record returned without an ID"));
    assert!(matches!(created_token(true, "t".into()), Ok(t) if t == "t"));
    assert!(created_token(false, "t".into()).is_err());
    assert_eq!(count_or_zero(None), 0);
    assert_eq!(count_or_zero(Some(3)), 3);
}

#[test]
fn an_insight_is_stored_once_per_work() {
    let (_, action) = create_insight("not-a-uuid", content());
    assert!(matches!(action, InsightAction::Done { result: Err(RepoError::Internal(m)) } if m == "invalid work_id format: not-a-uuid"));

    let work = "67e55044-10b1-426f-9247-bb680e5fe0c8";
    let (state, action) = create_insight(work, content());
    assert!(matches!(action, InsightAction::FindExisting { .. }));
    let (_, action) = step_insight(state, InsightEvent::ExistingFound { result: Ok(Some("`old`".into())) });
    assert!(matches!(action, InsightAction::Done { result: Ok(id) } if id == "old"));

    let (state, _) = create_insight(work, content());
    let (state, action) = step_insight(state, InsightEvent::ExistingFound { result: Ok(None) });
    let id = match action {
        InsightAction::Create { insight_id, .. } => insight_id,
        _ => panic!("expected the insight to be created"),
    };
    let (state, action) = step_insight(state, InsightEvent::Created { result: Ok(()) });
    match action {
        InsightAction::Run { statement } => assert_eq!(statement, format!("RELATE work:`{work}`->interpreta->insight:`{id}`")),
        _ => panic!("expected the relation"),
    }
    let (_, action) = step_insight(state, InsightEvent::Related { result: Ok(()) });
    assert!(matches!(action, InsightAction::Done { result: Ok(done) } if done == id));
}

#[test]
fn concepts_are_upserted_by_key() {
    assert_eq!(normalize_concept_name("  Stoicism "), "stoicism");
    let (state, action) = upsert("  Stoicism ", "A school", "philosophy");
    assert!(matches!(&action, UpsertAction::FindByName { name } if name == "stoicism"));
    let (state, action) = step_upsert(state, UpsertEvent::Found { result: Ok(None) });
    match &action {
        UpsertAction::Create { new_concept, .. } => {
            assert_eq!((new_concept.name.as_str(), new_concept.display_name.as_str()), ("stoicism", "Stoicism"))
        }
        _ => panic!("expected the concept to be created"),
    }
    let (state, action) = step_upsert(state, UpsertEvent::Created { result: Err("Database index `unique_name` already contains".into()) });
    assert!(matches!(state, UpsertState::Refinding));
    assert!(matches!(action, UpsertAction::FindByName { .. }));
    let (_, action) = step_upsert(state, UpsertEvent::Found { result: Ok(None) });
    assert!(matches!(action, UpsertAction::Done { result: Err(RepoError::Internal(m)) } if m == "concept not found after unique conflict"));
    let c = record_to_concept(ConceptRecord { id: Some("`c`".into()), name: "n".into(), display_name: "N".into(), description: String::new(), domain: "d".into() });
    assert_eq!(c.id, "c");
}

#[test]
fn login_attempt_queries_name_the_window() {
    assert_eq!(
        count_recent_failures_query(300),
        "SELECT count() FROM login_attempts WHERE email = $email AND succeeded = false AND attempted_at > time::now() - 300s GROUP ALL"
    );
    assert_eq!(
        oldest_recent_failure_query(60),
        "SELECT attempted_at FROM login_attempts WHERE email = $email AND succeeded = false AND attempted_at > time::now() - 60s ORDER BY attempted_at ASC LIMIT 1"
    );
    assert_eq!(oldest_failure_ts(Some("1970-01-01T00:01:40Z".into())), Some(100));
    assert_eq!(oldest_failure_ts(Some("yesterday".into())), None);
    assert_eq!(oldest_failure_ts(None), None);
    let (id, rec) = new_attempt("a@b.c", false);
    assert_eq!(id.len(), 36);
    assert_eq!((rec.email.as_str(), rec.succeeded), ("a@b.c", false));
}
