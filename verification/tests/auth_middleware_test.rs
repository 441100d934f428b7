use knowledge_vault::domain::user::{hash_pat, PersonalAccessToken};
use knowledge_vault::ports::repository::RepoError;
use knowledge_vault::web::middleware::auth::{
    extract_bearer, extract_session_cookie, identify_credential, pat_lookup_outcome, session_outcome, Credential,
};
use knowledge_vault::web::middleware::security_headers::security_headers;

#[test]
fn bearer_tokens_are_read_from_the_authorization_header() {
    assert_eq!(extract_bearer("Bearer abc"), Some("abc".to_string()));
    assert_eq!(extract_bearer("Basic abc"), None);
    assert_eq!(extract_bearer("Bearer "), Some(String::new()));
}

#[test]
fn the_session_cookie_is_found_among_other_cookies() {
    assert_eq!(extract_session_cookie("theme=dark; session=xyz; other=1"), Some("xyz".to_string()));
    assert_eq!(extract_session_cookie("session=first;session=second"), Some("first".to_string()));
    assert_eq!(extract_session_cookie("theme=dark"), None);
}

#[test]
fn an_ens_token_is_a_pat_looked_up_by_its_hash() {
    match identify_credential(Some("Bearer ens_abc"), None) {
        Ok(Credential::PersonalAccessToken { token_hash }) => assert_eq!(token_hash, hash_pat("ens_abc")),
        _ => panic!("expected a PAT"),
    }
    match identify_credential(Some("Bearer eyJ.x.y"), Some("session=other")) {
        Ok(Credential::SessionToken { token }) => assert_eq!(token, "eyJ.x.y"),
        _ => panic!("expected a session token"),
    }
    match identify_credential(None, Some("a=b; session=tok")) {
        Ok(Credential::SessionToken { token }) => assert_eq!(token, "tok"),
        _ => panic!("expected the cookie"),
    }
    let rej = identify_credential(None, None).err().unwrap();
    assert_eq!((rej.error.as_str(), rej.message.as_str()), ("missing_token", "Authentication required"));
}

#[test]
fn pat_and_session_outcomes() {
    let pat = PersonalAccessToken {
        id: "t1".into(),
        user_id: "u1".into(),
        name: "cli".into(),
        created_at: String::new(),
        revoked_at: None,
    };
    assert_eq!(pat_lookup_outcome(Ok(Some(pat))).ok().unwrap().user_id, "u1");
    let rej = pat_lookup_outcome(Ok(None)).err().unwrap();
    assert_eq!((rej.error.as_str(), rej.message.as_str()), ("invalid_token", "Invalid token"));
    assert!(pat_lookup_outcome(Err(RepoError::NotFound)).is_err());
    assert_eq!(session_outcome(Some("u2".into())).ok().unwrap().user_id, "u2");
    let rej = session_outcome(None).err().unwrap();
    assert_eq!(rej.message, "Invalid or expired token");
}

#[test]
fn every_response_carries_the_security_headers() {
    let h = security_headers();
    assert_eq!(h.len(), 4);
    assert_eq!(h[0], ("x-content-type-options", "nosniff"));
    assert_eq!(h[1], ("x-frame-options", "DENY"));
    assert_eq!(h[2], ("referrer-policy", "strict-origin-when-cross-origin"));
    assert_eq!(h[3].0, "content-security-policy");
}
