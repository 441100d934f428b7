use knowledge_vault::domain::user::User;
use knowledge_vault::ports::repository::RepoError;
use knowledge_vault::web::handlers::auth::{step_login, LoginAction, LoginEvent, LoginState};
use knowledge_vault::web::handlers::setup::{
    get_setup, get_setup_json, html_escape, post_setup_form, post_setup_json, setup_html, step_setup,
    SetupAction, SetupEvent, SetupFormInput, SetupReply, SetupState,
};

fn input(email: &str, password: &str) -> SetupFormInput {
    SetupFormInput { email: email.to_string(), password: password.to_string() }
}

fn counted(state: SetupState, n: u64) -> (SetupState, SetupAction) {
    step_setup(state, SetupEvent::UsersCounted { result: Ok(n) })
}

fn json_error(action: &SetupAction) -> (u16, String, String) {
    match action {
        SetupAction::Respond { reply: SetupReply::Error { body } } => {
            (body.status, body.error.clone(), body.message.clone())
        }
        _ => panic!("expected a JSON error"),
    }
}

#[test]
fn html_escape_replaces_the_five_special_characters() {
    assert_eq!(html_escape(r#"<a href="x">Tom & 'Jerry'</a>"#), "&lt;a href=&quot;x&quot;&gt;Tom &amp; &#x27;Jerry&#x27;&lt;/a&gt;");
    assert_eq!(html_escape("plain text"), "plain text");
    assert_eq!(html_escape(""), "");
}

#[test]
fn the_setup_page_shows_an_escaped_error_and_email() {
    let page = setup_html("bad <input>", "a\"b@example.com");
    assert!(page.starts_with("<!DOCTYPE html>"));
    assert!(page.contains(r#"<p class="error" role="alert" aria-live="polite">bad &lt;input&gt;</p>"#));
    assert!(page.contains(r#"value="a&quot;b@example.com""#));
    assert!(page.ends_with("</html>"));
    assert!(page.contains("Knowledge Vault \u{2014} Setup"));
}

#[test]
fn the_setup_page_without_error_has_no_error_block() {
    let page = setup_html("", "");
    assert!(!page.contains(r#"<p class="error""#));
    assert!(page.contains(r#"value="""#));
}

#[test]
fn get_setup_serves_the_page_until_an_account_exists() {
    match get_setup(Ok(0)) {
        SetupReply::Page { html } => assert_eq!(html, setup_html("", "")),
        _ => panic!("expected the page"),
    }
    assert!(matches!(get_setup(Ok(1)), SetupReply::RedirectToLogin));
    match get_setup(Err(RepoError::Internal("down".into()))) {
        SetupReply::Error { body } => {
            assert_eq!(body.status, 500);
            assert_eq!(body.error, "internal_error");
            assert_eq!(body.message, "Internal error: down");
        }
        _ => panic!("expected an error"),
    }
}

#[test]
fn get_setup_json_reports_first_run() {
    assert!(get_setup_json(Ok(0)).unwrap().first_run);
    assert!(!get_setup_json(Ok(3)).unwrap().first_run);
    let e = get_setup_json(Err(RepoError::NotFound)).err().unwrap();
    assert_eq!((e.status, e.error.as_str(), e.message.as_str()), (500, "internal_error", "Not found"));
}

#[test]
fn a_second_setup_is_refused_with_409() {
    let (state, action) = post_setup_json(input("admin@example.com", "correct horse battery"));
    assert!(matches!(action, SetupAction::CountUsers));
    let (next, action) = counted(state, 1);
    assert!(matches!(next, SetupState::Finished));
    assert_eq!(
        json_error(&action),
        (409, "already_configured".to_string(), "An admin account already exists".to_string())
    );
}

#[test]
fn a_refused_form_setup_shows_the_page_with_the_message() {
    let (state, _) = post_setup_form(input("admin@example.com", "correct horse battery"));
    let (_, action) = counted(state, 1);
    match action {
        SetupAction::Respond { reply: SetupReply::Page { html } } => {
            assert_eq!(html, setup_html("An admin account already exists", ""))
        }
        _ => panic!("expected the page"),
    }
}

#[test]
fn an_invalid_email_is_refused_with_422() {
    let (state, _) = post_setup_json(input("not-an-email", "correct horse battery"));
    let (_, action) = counted(state, 0);
    let (status, error, message) = json_error(&action);
    assert_eq!((status, error.as_str()), (422, "invalid_email"));
    assert!(message.starts_with("Invalid email: "));
}

#[test]
fn a_short_password_is_refused_with_422() {
    let (state, _) = post_setup_json(input("admin@example.com", "short"));
    let (_, action) = counted(state, 0);
    assert_eq!(
        json_error(&action),
        (422, "invalid_password".to_string(), "Password must be at least 12 characters".to_string())
    );
}

#[test]
fn a_count_failure_is_a_500() {
    let (state, _) = post_setup_json(input("admin@example.com", "correct horse battery"));
    let (_, action) = step_setup(state, SetupEvent::UsersCounted { result: Err(RepoError::Internal("x".into())) });
    assert_eq!(json_error(&action), (500, "internal_error".to_string(), "Internal error: x".to_string()));
}

#[test]
fn the_setup_password_logs_in() {
    let (state, _) = post_setup_json(input("admin@example.com", "correct horse battery"));
    let (next, action) = counted(state, 0);
    assert!(matches!(next, SetupState::CreatingUser { is_json: true }));
    let (email, hash) = match action {
        SetupAction::CreateUser { email, password_hash } => (email, password_hash),
        _ => panic!("expected the account to be created"),
    };
    assert_eq!(email, "admin@example.com");
    assert!(hash.starts_with("$argon2id$v=19$m=65536,t=3,p=1$"));

    let user = User {
        id: "u1".into(),
        email: email.clone(),
        password_hash: hash.clone(),
        role: "admin".into(),
    };
    let login = LoginState::FindingUser { email: email.clone(), password: "correct horse battery".into(), secret: "s".into() };
    let (after, action) = step_login(login, LoginEvent::UserFound { result: Ok(Some(user.clone())) });
    assert!(matches!(after, LoginState::RecordingSuccess { .. }));
    assert!(matches!(action, LoginAction::RecordAttempt { succeeded: true, .. }));

    let wrong = LoginState::FindingUser { email, password: "wrong password!".into(), secret: "s".into() };
    let (after, _) = step_login(wrong, LoginEvent::UserFound { result: Ok(Some(user)) });
    assert!(matches!(after, LoginState::RecordingFailure { .. }));
}

#[test]
fn a_created_account_is_answered_by_kind_of_request() {
    let user = User { id: "u-42".into(), email: "a@b.c".into(), password_hash: "h".into(), role: "admin".into() };
    let (_, action) = step_setup(SetupState::CreatingUser { is_json: true }, SetupEvent::UserCreated { result: Ok(user.clone()) });
    match action {
        SetupAction::Respond { reply: SetupReply::Created { body } } => assert_eq!(body.user_id, "u-42"),
        _ => panic!("expected 201"),
    }
    let (_, action) = step_setup(SetupState::CreatingUser { is_json: false }, SetupEvent::UserCreated { result: Ok(user) });
    assert!(matches!(action, SetupAction::Respond { reply: SetupReply::RedirectToLogin }));
    let (_, action) = step_setup(
        SetupState::CreatingUser { is_json: true },
        SetupEvent::UserCreated { result: Err(RepoError::EmailAlreadyExists) },
    );
    assert_eq!(json_error(&action), (500, "internal_error".to_string(), "Email already exists".to_string()));
}
