use jsonwebtoken::{decode, Algorithm, DecodingKey, Validation};
use knowledge_vault::domain::user::User;
use knowledge_vault::web::middleware::auth::validate_jwt;
use knowledge_vault::ports::repository::RepoError;
use knowledge_vault::web::handlers::auth::{
    normalize_login_email, retry_after, session_cookie_value, start_login, step_login, LoginAction, LoginEvent,
    LoginInput, LoginReply, LoginState, LOCKOUT_WINDOW_SECONDS,
};

fn login(email: &str, password: &str) -> (LoginState, LoginAction) {
    start_login(LoginInput { email: email.to_string(), password: password.to_string() }, "s3cret".to_string())
}

#[test]
fn login_emails_are_trimmed_and_lowercased() {
    assert_eq!(normalize_login_email("  Admin@Example.COM \n"), "admin@example.com");
    let (state, action) = login(" Admin@Example.com ", "pw");
    match action {
        LoginAction::CountRecentFailures { email, window_seconds } => {
            assert_eq!(email, "admin@example.com");
            assert_eq!(window_seconds, 300);
        }
        _ => panic!("expected the failures to be counted"),
    }
    assert!(matches!(state, LoginState::CheckingLockout { .. }));
}

#[test]
fn three_recent_failures_lock_the_email_out() {
    let (state, _) = login("a@b.c", "pw");
    let (state, action) = step_login(state, LoginEvent::FailuresCounted { result: Ok(3) });
    assert!(matches!(action, LoginAction::FindOldestRecentFailure { .. }));
    let (state, action) = step_login(state, LoginEvent::OldestFailureFound { result: Ok(Some(1000)), now: 1100 });
    assert!(matches!(state, LoginState::Finished));
    match action {
        LoginAction::Respond { reply: LoginReply::RateLimited { body } } => {
            assert_eq!(body.error, "rate_limited");
            assert_eq!(body.retry_after_seconds, 200);
        }
        _ => panic!("expected 429"),
    }
}

#[test]
fn two_recent_failures_still_allow_a_login() {
    let (state, _) = login("a@b.c", "pw");
    let (_, action) = step_login(state, LoginEvent::FailuresCounted { result: Ok(2) });
    assert!(matches!(action, LoginAction::FindUser { .. }));
}

#[test]
fn retry_after_counts_down_to_the_end_of_the_window() {
    assert_eq!(retry_after(Some(1000), 1000), LOCKOUT_WINDOW_SECONDS);
    assert_eq!(retry_after(Some(1000), 1299), 1);
    assert_eq!(retry_after(Some(1000), 1300), 0);
    assert_eq!(retry_after(Some(1000), 5000), 0);
    assert_eq!(retry_after(None, 5000), 300);
}

#[test]
fn an_unknown_email_is_recorded_and_answered_with_401() {
    let state = LoginState::FindingUser { email: "a@b.c".into(), password: "pw".into(), secret: "s3cret".into() };
    let (state, action) = step_login(state, LoginEvent::UserFound { result: Ok(None) });
    assert!(matches!(action, LoginAction::RecordAttempt { succeeded: false, .. }));
    let (_, action) = step_login(state, LoginEvent::AttemptRecorded { now: 0 });
    match action {
        LoginAction::Respond { reply: LoginReply::Failed { body } } => {
            assert_eq!((body.status, body.error.as_str()), (401, "invalid_credentials"));
            assert_eq!(body.message, "Invalid email or password");
        }
        _ => panic!("expected 401"),
    }
}

#[test]
fn a_corrupted_hash_is_an_internal_error() {
    let user = User { id: "u".into(), email: "a@b.c".into(), password_hash: "not a phc string".into(), role: "admin".into() };
    let state = LoginState::FindingUser { email: "a@b.c".into(), password: "pw".into(), secret: "s3cret".into() };
    let (_, action) = step_login(state, LoginEvent::UserFound { result: Ok(Some(user)) });
    match action {
        LoginAction::Respond { reply: LoginReply::Failed { body } } => {
            assert_eq!((body.status, body.message.as_str()), (500, "Password hash corrupted"))
        }
        _ => panic!("expected 500"),
    }
}

#[test]
fn a_recorded_success_issues_a_day_long_session() {
    let state = LoginState::RecordingSuccess { email: "a@b.c".into(), user_id: "u7".into(), secret: "s3cret".into() };
    let (state, action) = step_login(state, LoginEvent::AttemptRecorded { now: 1_000 });
    assert!(matches!(state, LoginState::Finished));
    let token = match action {
        LoginAction::Respond { reply: LoginReply::LoggedIn { body, cookie } } => {
            assert_eq!(cookie, format!("session={}; HttpOnly; Secure; SameSite=Strict; Path=/", body.token));
            assert_eq!(body.token.split('.').count(), 3);
            body.token
        }
        _ => panic!("expected 200"),
    };
    let claims = decode::<serde_json::Value>(&token, &DecodingKey::from_secret(b"s3cret"), &{
        let mut v = Validation::new(Algorithm::HS256);
        v.validate_exp = false;
        v
    })
    .unwrap()
    .claims;
    assert_eq!(claims["sub"], "u7");
    assert_eq!(claims["exp"], 1_000 + 86_400);
}

#[test]
fn a_login_token_authenticates_its_user_until_it_expires() {
    let state = LoginState::RecordingSuccess { email: "a@b.c".into(), user_id: "u7".into(), secret: "s3cret".into() };
    let (_, action) = step_login(state, LoginEvent::AttemptRecorded { now: 1_000 });
    let token = match action {
        LoginAction::Respond { reply: LoginReply::LoggedIn { body, .. } } => body.token,
        _ => panic!("expected 200"),
    };
    let exp: u64 = 1_000 + 86_400;
    assert_eq!(validate_jwt(&token, "s3cret", 2_000).ok().unwrap().user_id, "u7");
    assert_eq!(validate_jwt(&token, "s3cret", exp + 60).ok().unwrap().user_id, "u7");
    let rej = validate_jwt(&token, "s3cret", exp + 61).err().unwrap();
    assert_eq!((rej.error.as_str(), rej.message.as_str()), ("invalid_token", "Invalid or expired token"));
    assert!(validate_jwt(&token, "another secret", 2_000).is_err());
}

#[test]
fn lookup_failures_are_internal_errors() {
    let (state, _) = login("a@b.c", "pw");
    let (_, action) = step_login(state, LoginEvent::FailuresCounted { result: Err(RepoError::Internal("db".into())) });
    match action {
        LoginAction::Respond { reply: LoginReply::Failed { body } } => {
            assert_eq!((body.status, body.error.as_str(), body.message.as_str()), (500, "internal_error", "Internal error: db"))
        }
        _ => panic!("expected 500"),
    }
}

#[test]
fn the_session_cookie_is_http_only_and_strict() {
    assert_eq!(session_cookie_value("t"), "session=t; HttpOnly; Secure; SameSite=Strict; Path=/");
}
