use knowledge_vault::adapters::surreal::records::{find_by_hash, revocation_check, PatRecord};
use knowledge_vault::domain::user::{hash_pat, PersonalAccessToken};
use knowledge_vault::ports::repository::RepoError;
use knowledge_vault::web::handlers::tokens::{
    delete_token, get_tokens, post_token, token_created, CreateTokenInput, PendingToken,
};
use knowledge_vault::web::middleware::auth::{identify_credential, pat_lookup_outcome, AuthenticatedUser, Credential};

fn user(id: &str) -> AuthenticatedUser {
    AuthenticatedUser { user_id: id.to_string() }
}

#[test]
fn an_empty_token_name_is_refused() {
    let body = post_token(user("u1"), CreateTokenInput { name: "   ".into() }).err().unwrap();
    assert_eq!(body.status, 422);
    assert_eq!(body.error, "invalid_input");
    assert_eq!(body.message, "Token name must not be empty");
}

#[test]
fn an_issued_token_is_stored_by_its_hash_only() {
    let (pending, record) = post_token(user("u1"), CreateTokenInput { name: "  laptop ".into() }).ok().unwrap();
    assert_eq!(pending.name, "laptop");
    assert!(pending.token.starts_with("ens_"));
    assert_eq!(record.user_id, "u1");
    assert_eq!(record.name, "laptop");
    assert_eq!(record.token_hash, hash_pat(&pending.token));
    assert_ne!(record.token_hash, pending.token);
}

#[test]
fn an_issued_token_authenticates_its_owner() {
    let (pending, record) = post_token(user("u9"), CreateTokenInput { name: "cli".into() }).ok().unwrap();
    let stored = vec![
        PatRecord {
            id: Some("other".into()),
            user_id: "someone".into(),
            name: "x".into(),
            token_hash: hash_pat("ens_else"),
            created_at: None,
            revoked_at: None,
        },
        PatRecord {
            id: Some("t9".into()),
            user_id: record.user_id.clone(),
            name: record.name.clone(),
            token_hash: record.token_hash.clone(),
            created_at: Some("2026-01-01T00:00:00+00:00".into()),
            revoked_at: None,
        },
    ];
    let header = format!("Bearer {}", pending.token);
    let hash = match identify_credential(Some(&header), None) {
        Ok(Credential::PersonalAccessToken { token_hash }) => token_hash,
        _ => panic!("expected a PAT"),
    };
    let found = find_by_hash(stored, &hash);
    assert_eq!(pat_lookup_outcome(found).ok().unwrap().user_id, "u9");
}

#[test]
fn the_created_token_is_shown_once_with_its_id() {
    let pending = PendingToken { name: "cli".into(), token: "ens_x".into() };
    let body = token_created(pending, Ok("t1".into())).ok().unwrap();
    assert_eq!((body.token_id.as_str(), body.token.as_str(), body.name.as_str()), ("t1", "ens_x", "cli"));
    let pending = PendingToken { name: "cli".into(), token: "ens_x".into() };
    let e = token_created(pending, Err(RepoError::Internal("x".into()))).err().unwrap();
    assert_eq!((e.status, e.error.as_str()), (500, "internal_error"));
}

#[test]
fn listed_tokens_keep_their_order_and_fields() {
    let tokens = vec![
        PersonalAccessToken { id: "a".into(), user_id: "u".into(), name: "one".into(), created_at: "c1".into(), revoked_at: None },
        PersonalAccessToken { id: "b".into(), user_id: "u".into(), name: "two".into(), created_at: "c2".into(), revoked_at: Some("r".into()) },
    ];
    let items = get_tokens(Ok(tokens)).ok().unwrap();
    assert_eq!(items.len(), 2);
    assert_eq!((items[0].token_id.as_str(), items[0].name.as_str(), items[0].created_at.as_str()), ("a", "one", "c1"));
    assert_eq!(items[1].revoked_at, Some("r".to_string()));
    assert_eq!(get_tokens(Err(RepoError::NotFound)).err().unwrap().status, 500);
}

#[test]
fn revocation_replies() {
    assert!(delete_token(Ok(())).is_ok());
    let e = delete_token(Err(RepoError::NotFound)).err().unwrap();
    assert_eq!((e.status, e.error.as_str(), e.message.as_str()), (404, "not_found", "Token not found"));
    let e = delete_token(Err(RepoError::Internal("x".into()))).err().unwrap();
    assert_eq!((e.status, e.message.as_str()), (500, "Internal error: x"));
}

#[test]
fn only_the_owner_may_revoke_a_token() {
    let rec = |owner: &str| PatRecord {
        id: Some("t".into()),
        user_id: owner.into(),
        name: "n".into(),
        token_hash: "h".into(),
        created_at: None,
        revoked_at: None,
    };
    assert!(revocation_check(Some(rec("u1")), "u1").is_ok());
    assert!(matches!(revocation_check(Some(rec("u2")), "u1"), Err(RepoError::NotFound)));
    assert!(matches!(revocation_check(None, "u1"), Err(RepoError::NotFound)));
}

#[test]
fn a_hash_that_matches_no_record_finds_nothing() {
    assert!(matches!(find_by_hash(vec![], "h"), Ok(None)));
    let broken = PatRecord { id: None, user_id: "u".into(), name: "n".into(), token_hash: "h".into(), created_at: None, revoked_at: None };
    assert!(matches!(find_by_hash(vec![broken], "h"), Err(RepoError::Internal(_))));
}

#[test]
fn a_revoked_token_is_not_found() {
    let hash = hash_pat("ens_revoked");
    let revoked = PatRecord {
        id: Some("t".into()),
        user_id: "u".into(),
        name: "n".into(),
        token_hash: hash.clone(),
        created_at: None,
        revoked_at: Some("2026-01-01T00:00:00+00:00".into()),
    };
    assert!(matches!(find_by_hash(vec![revoked], &hash), Ok(None)));
}
