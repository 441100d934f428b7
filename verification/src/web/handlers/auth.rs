//! Logging in: lockout after repeated failures, password verification and session issue.
use vstd::prelude::*;
use argon2::{Argon2, PasswordHash, PasswordVerifier};
use crate::domain::user::{encode_session_token, hs256_claims, jwt_hs256, AuthClaims, User};
use crate::ports::repository::RepoError;
use crate::text::{lowercase, owned, to_lowercase, trim, trimmed};
use crate::web::middleware::auth::{session_user, SESSION_LEEWAY_SECONDS};

verus! {

/// Failed attempts within the window after which an email is locked out.
pub const LOCKOUT_MAX_FAILURES: u64 = 3;

/// The lockout window, in seconds.
pub const LOCKOUT_WINDOW_SECONDS: u64 = 300;

/// Lifetime of a session token, in seconds (twenty-four hours).
pub const SESSION_LIFETIME_SECONDS: i64 = 86400;

/// A login request.
#[derive(Debug)]
pub struct LoginInput {
    pub email: String,
    pub password: String,
}

/// The body of a successful login.
#[derive(Debug)]
pub struct LoginResponse {
    pub token: String,
}

/// The body of a refused or failed login.
#[derive(Debug)]
pub struct ErrorResponse {
    pub error: String,
    pub message: String,
    pub status: u16,
}

/// The body of a login refused because of the lockout.
#[derive(Debug)]
pub struct RateLimitResponse {
    pub error: String,
    pub retry_after_seconds: u64,
}

/// The email as logins are counted and looked up under: trimmed, then lowercased.
pub open spec fn login_email(email: Seq<char>) -> Seq<char> {
    lowercase(trimmed(email))
}

/// The email as logins are counted and looked up under.
pub fn normalize_login_email(email: &str) -> (r: String)
    ensures
        r@ == login_email(email@),
{
    let t = trim(email);
    to_lowercase(t.as_str())
}

/// Seconds until a locked-out email may try again: until the oldest failure in the window
/// leaves it, or the whole window when that failure is unknown.
pub open spec fn retry_after_secs(oldest_failure: Option<i64>, now: i64) -> nat {
    match oldest_failure {
        Some(ts) => if ts + LOCKOUT_WINDOW_SECONDS - now > 0 {
            (ts + LOCKOUT_WINDOW_SECONDS - now) as nat
        } else {
            0
        },
        None => LOCKOUT_WINDOW_SECONDS as nat,
    }
}

/// The arithmetic of the lockout end stays within `i64`.
pub open spec fn retry_after_computable(oldest_failure: Option<i64>, now: i64) -> bool {
    match oldest_failure {
        Some(ts) => i64::MIN <= ts + LOCKOUT_WINDOW_SECONDS <= i64::MAX && i64::MIN <= ts
            + LOCKOUT_WINDOW_SECONDS - now <= i64::MAX,
        None => true,
    }
}

/// Seconds until a locked-out email may try again.
pub fn retry_after(oldest_failure: Option<i64>, now: i64) -> (secs: u64)
    requires
        retry_after_computable(oldest_failure, now),
    ensures
        secs == retry_after_secs(oldest_failure, now),
{
    match oldest_failure {
        Some(oldest_ts) => {
            let lockout_end = oldest_ts + LOCKOUT_WINDOW_SECONDS as i64;
            let remaining = lockout_end - now;
            if remaining > 0 {
                remaining as u64
            } else {
                0
            }
        },
        None => LOCKOUT_WINDOW_SECONDS,
    }
}

/// The `Set-Cookie` value that carries a session token.
pub open spec fn session_cookie(token: Seq<char>) -> Seq<char> {
    "session="@ + token + "; HttpOnly; Secure; SameSite=Strict; Path=/"@
}

/// The `Set-Cookie` value that carries a session token.
pub fn session_cookie_value(token: &str) -> (c: String)
    ensures
        c@ == session_cookie(token@),
{
    let mut c = owned("session=");
    c.append(token);
    c.append("; HttpOnly; Secure; SameSite=Strict; Path=/");
    c
}

/// What verifying `password` against the stored PHC string `phc` with Argon2 gives: `None`
/// when the string is not a password hash, else whether the password matches.
pub uninterp spec fn argon2_verdict(password: Seq<u8>, phc: Seq<char>) -> Option<bool>;

/// `argon2::PasswordHash::new` then `Argon2::default().verify_password`: the outcome is named
/// `argon2_verdict(password, phc)`; the key derivation itself is not stated.
#[verifier::external_body]
fn argon2_verify(password: &[u8], phc: &str) -> (r: Option<bool>)
    ensures
        r == argon2_verdict(password@, phc@),
{
    match PasswordHash::new(phc) {
        Err(_) => None,
        Ok(hash) => Some(Argon2::default().verify_password(password, &hash).is_ok()),
    }
}

/// The answer to a login request.
#[derive(Debug)]
pub enum LoginReply {
    /// Status 200, with the session cookie to set.
    LoggedIn { body: LoginResponse, cookie: String },
    /// Status 429.
    RateLimited { body: RateLimitResponse },
    /// An error status (401 or 500) with its body.
    Failed { body: ErrorResponse },
}

/// Where a login stands: each state waits for the outcome of the action that led to it.
pub enum LoginState {
    CheckingLockout { email: String, password: String, secret: String },
    MeasuringLockout { email: String },
    FindingUser { email: String, password: String, secret: String },
    RecordingFailure { email: String },
    /// `secret` is the key session tokens are signed with.
    RecordingSuccess { email: String, user_id: String, secret: String },
    Finished,
}

/// The outcome of the last action.
pub enum LoginEvent {
    FailuresCounted { result: Result<u64, RepoError> },
    OldestFailureFound { result: Result<Option<i64>, RepoError>, now: i64 },
    UserFound { result: Result<Option<User>, RepoError> },
    AttemptRecorded { now: i64 },
}

/// What the application does next for a login.
pub enum LoginAction {
    CountRecentFailures { email: String, window_seconds: u64 },
    FindOldestRecentFailure { email: String, window_seconds: u64 },
    FindUser { email: String },
    RecordAttempt { email: String, succeeded: bool },
    Respond { reply: LoginReply },
}

/// The latest moment a session can start whose expiry still fits in `i64`.
pub open spec fn latest_session_start() -> int {
    i64::MAX - SESSION_LIFETIME_SECONDS
}

impl LoginState {
    /// The event that answers the action this state waits on (with a clock reading that
    /// keeps the lockout and expiry arithmetic within `i64`).
    pub open spec fn awaits(&self, event: &LoginEvent) -> bool {
        match (self, event) {
            (LoginState::CheckingLockout { .. }, LoginEvent::FailuresCounted { .. }) => true,
            (LoginState::MeasuringLockout { .. }, LoginEvent::OldestFailureFound { result, now }) => {
                match result {
                    Ok(oldest) => retry_after_computable(*oldest, *now),
                    Err(_) => true,
                }
            },
            (LoginState::FindingUser { .. }, LoginEvent::UserFound { .. }) => true,
            (LoginState::RecordingFailure { .. }, LoginEvent::AttemptRecorded { .. }) => true,
            (LoginState::RecordingSuccess { .. }, LoginEvent::AttemptRecorded { now }) => *now
                <= latest_session_start(),
            _ => false,
        }
    }
}

/// The reply of an internal failure with the given message.
pub open spec fn is_internal_error(reply: LoginReply, message: Seq<char>) -> bool {
    reply matches LoginReply::Failed { body } && body.error@ == "internal_error"@ && body.message@
        == message && body.status == 500
}

/// The reply to wrong credentials.
pub open spec fn is_invalid_credentials(reply: LoginReply) -> bool {
    reply matches LoginReply::Failed { body } && body.error@ == "invalid_credentials"@
        && body.message@ == "Invalid email or password"@ && body.status == 401
}

/// One step of a login: from its state and the outcome of the last action, the next state and
/// the next action.
pub open spec fn login_transition(
    state: LoginState,
    event: LoginEvent,
    next: LoginState,
    action: LoginAction,
) -> bool {
    match (state, event) {
        (LoginState::CheckingLockout { email, password, secret }, LoginEvent::FailuresCounted { result }) => {
            match result {
                Err(e) => next is Finished && (action matches LoginAction::Respond { reply }
                    && is_internal_error(reply, e.message())),
                Ok(n) => if n >= LOCKOUT_MAX_FAILURES {
                    &&& next matches LoginState::MeasuringLockout { email: e } && e == email
                    &&& action matches LoginAction::FindOldestRecentFailure { email: e, window_seconds }
                        && e@ == email@ && window_seconds == LOCKOUT_WINDOW_SECONDS
                } else {
                    &&& next == (LoginState::FindingUser { email, password, secret })
                    &&& action matches LoginAction::FindUser { email: e } && e@ == email@
                },
            }
        },
        (LoginState::MeasuringLockout { .. }, LoginEvent::OldestFailureFound { result, now }) => {
            let oldest = match result {
                Ok(o) => o,
                Err(_) => None,
            };
            &&& next is Finished
            &&& action matches LoginAction::Respond { reply: LoginReply::RateLimited { body } }
                && body.error@ == "rate_limited"@ && body.retry_after_seconds == retry_after_secs(oldest, now)
        },
        (LoginState::FindingUser { email, password, secret }, LoginEvent::UserFound { result }) => match result {
            Err(e) => next is Finished && (action matches LoginAction::Respond { reply }
                && is_internal_error(reply, e.message())),
            Ok(None) => {
                &&& next matches LoginState::RecordingFailure { email: e } && e == email
                &&& action matches LoginAction::RecordAttempt { email: e, succeeded: false } && e@ == email@
            },
            Ok(Some(user)) => match argon2_verdict(vstd::utf8::encode_utf8(password@), user.password_hash@) {
                None => next is Finished && (action matches LoginAction::Respond { reply }
                    && is_internal_error(reply, "Password hash corrupted"@)),
                Some(false) => {
                    &&& next matches LoginState::RecordingFailure { email: e } && e == email
                    &&& action matches LoginAction::RecordAttempt { email: e, succeeded: false } && e@ == email@
                },
                Some(true) => {
                    &&& next == (LoginState::RecordingSuccess { email, user_id: user.id, secret })
                    &&& action matches LoginAction::RecordAttempt { email: e, succeeded: true } && e@ == email@
                },
            },
        },
        (LoginState::RecordingFailure { .. }, LoginEvent::AttemptRecorded { .. }) => {
            &&& next is Finished
            &&& action matches LoginAction::Respond { reply } && is_invalid_credentials(reply)
        },
        (LoginState::RecordingSuccess { user_id, secret, .. }, LoginEvent::AttemptRecorded { now }) => {
            let exp = session_expiry(now);
            &&& next is Finished
            &&& match jwt_hs256(user_id@, exp, secret@) {
                Some(token) => action matches LoginAction::Respond { reply: LoginReply::LoggedIn { body, cookie } }
                    && body.token@ == token && cookie@ == session_cookie(token) && hs256_claims(token, secret@)
                    == Some((user_id@, exp)),
                None => action matches LoginAction::Respond { reply } && exists|m: Seq<char>|
                    is_internal_error(reply, m),
            }
        },
        _ => false,
    }
}

/// The reply of an internal failure.
fn internal_error(message: String) -> (r: (LoginState, LoginAction))
    ensures
        r.0 is Finished,
        r.1 matches LoginAction::Respond { reply } && is_internal_error(reply, message@),
{
    (
        LoginState::Finished,
        LoginAction::Respond {
            reply: LoginReply::Failed {
                body: ErrorResponse { error: owned("internal_error"), message, status: 500 },
            },
        },
    )
}

/// The expiry of a session that starts at `now`: twenty-four hours later.
pub open spec fn session_expiry(now: i64) -> u64 {
    (now + SESSION_LIFETIME_SECONDS) as u64
}

/// Starts a login: the email is normalised and its recent failures are counted first.
/// `jwt_secret` is the key a session token is signed with.
pub fn start_login(input: LoginInput, jwt_secret: String) -> (r: (LoginState, LoginAction))
    ensures
        r.0 matches LoginState::CheckingLockout { email, password, secret } && email@ == login_email(
            input.email@,
        ) && password == input.password && secret == jwt_secret,
        r.1 matches LoginAction::CountRecentFailures { email, window_seconds } && email@
            == login_email(input.email@) && window_seconds == LOCKOUT_WINDOW_SECONDS,
{
    let email = normalize_login_email(input.email.as_str());
    let counted = email.clone();
    (
        LoginState::CheckingLockout { email, password: input.password, secret: jwt_secret },
        LoginAction::CountRecentFailures { email: counted, window_seconds: LOCKOUT_WINDOW_SECONDS },
    )
}

/// Advances a login by one step.
pub fn step_login(state: LoginState, event: LoginEvent) -> (r: (LoginState, LoginAction))
    requires
        state.awaits(&event),
    ensures
        login_transition(state, event, r.0, r.1),
{
    match (state, event) {
        (LoginState::CheckingLockout { email, password, secret }, LoginEvent::FailuresCounted { result }) => {
            match result {
                Err(e) => internal_error(e.to_string()),
                Ok(n) => {
                    if n >= LOCKOUT_MAX_FAILURES {
                        let asked = email.clone();
                        (
                            LoginState::MeasuringLockout { email },
                            LoginAction::FindOldestRecentFailure {
                                email: asked,
                                window_seconds: LOCKOUT_WINDOW_SECONDS,
                            },
                        )
                    } else {
                        let asked = email.clone();
                        (LoginState::FindingUser { email, password, secret }, LoginAction::FindUser { email: asked })
                    }
                },
            }
        },
        (LoginState::MeasuringLockout { .. }, LoginEvent::OldestFailureFound { result, now }) => {
            let oldest = match result {
                Ok(o) => o,
                Err(_) => None,
            };
            let secs = retry_after(oldest, now);
            (
                LoginState::Finished,
                LoginAction::Respond {
                    reply: LoginReply::RateLimited {
                        body: RateLimitResponse { error: owned("rate_limited"), retry_after_seconds: secs },
                    },
                },
            )
        },
        (LoginState::FindingUser { email, password, secret }, LoginEvent::UserFound { result }) => match result {
            Err(e) => internal_error(e.to_string()),
            Ok(None) => {
                let recorded = email.clone();
                (
                    LoginState::RecordingFailure { email },
                    LoginAction::RecordAttempt { email: recorded, succeeded: false },
                )
            },
            Ok(Some(user)) => match argon2_verify(password.as_str().as_bytes(), user.password_hash.as_str()) {
                None => internal_error(owned("Password hash corrupted")),
                Some(false) => {
                    let recorded = email.clone();
                    (
                        LoginState::RecordingFailure { email },
                        LoginAction::RecordAttempt { email: recorded, succeeded: false },
                    )
                },
                Some(true) => {
                    let recorded = email.clone();
                    (
                        LoginState::RecordingSuccess { email, user_id: user.id, secret },
                        LoginAction::RecordAttempt { email: recorded, succeeded: true },
                    )
                },
            },
        },
        (LoginState::RecordingFailure { .. }, LoginEvent::AttemptRecorded { .. }) => (
            LoginState::Finished,
            LoginAction::Respond {
                reply: LoginReply::Failed {
                    body: ErrorResponse {
                        error: owned("invalid_credentials"),
                        message: owned("Invalid email or password"),
                        status: 401,
                    },
                },
            },
        ),
        (LoginState::RecordingSuccess { user_id, secret, .. }, LoginEvent::AttemptRecorded { now }) => {
            let exp = (now + SESSION_LIFETIME_SECONDS) as u64;
            let claims = AuthClaims { sub: user_id, exp };
            match encode_session_token(&claims, secret.as_str()) {
            Err(m) => internal_error(m),
            Ok(token) => {
                let cookie = session_cookie_value(token.as_str());
                (
                    LoginState::Finished,
                    LoginAction::Respond {
                        reply: LoginReply::LoggedIn { body: LoginResponse { token }, cookie },
                    },
                )
            },
            }
        },
        _ => (LoginState::Finished, LoginAction::Respond {
            reply: LoginReply::Failed {
                body: ErrorResponse { error: owned("internal_error"), message: String::new(), status: 500 },
            },
        }),
    }
}

/// The email a login state is about.
pub open spec fn state_email(state: LoginState) -> Option<String> {
    match state {
        LoginState::CheckingLockout { email, .. } => Some(email),
        LoginState::MeasuringLockout { email } => Some(email),
        LoginState::FindingUser { email, .. } => Some(email),
        LoginState::RecordingFailure { email } => Some(email),
        LoginState::RecordingSuccess { email, .. } => Some(email),
        _ => None,
    }
}

/// The email a login action is about.
pub open spec fn action_email(action: LoginAction) -> Option<String> {
    match action {
        LoginAction::CountRecentFailures { email, .. } => Some(email),
        LoginAction::FindOldestRecentFailure { email, .. } => Some(email),
        LoginAction::FindUser { email } => Some(email),
        LoginAction::RecordAttempt { email, .. } => Some(email),
        _ => None,
    }
}

/// Once an email has `LOCKOUT_MAX_FAILURES` recent failures, its password is not even
/// checked: the login goes straight to measuring the lockout, and that ends in a 429 reply.
pub proof fn law_lockout_blocks_even_correct_passwords(
    state: LoginState,
    event: LoginEvent,
    next: LoginState,
    action: LoginAction,
)
    requires
        login_transition(state, event, next, action),
    ensures
        (state is CheckingLockout && (event matches LoginEvent::FailuresCounted { result: Ok(n) }
            && n >= LOCKOUT_MAX_FAILURES)) ==> (next is MeasuringLockout
            && action is FindOldestRecentFailure),
        state is MeasuringLockout ==> (action matches LoginAction::Respond { reply } && reply is RateLimited),
        action matches LoginAction::Respond { reply } && reply is RateLimited ==> state is MeasuringLockout,
{
}

/// Attempts are counted, looked up and recorded under the one email a login is about, so that
/// failures for one email never lock out another.
pub proof fn law_attempts_are_per_email(
    state: LoginState,
    event: LoginEvent,
    next: LoginState,
    action: LoginAction,
)
    requires
        login_transition(state, event, next, action),
    ensures
        action_email(action) is Some ==> action_email(action)->Some_0@ == state_email(state)->Some_0@,
        state_email(next) is Some ==> state_email(next) == state_email(state),
{
}

/// A session token is issued only after the password was verified against the stored hash,
/// and the successful attempt was recorded first.
pub proof fn law_tokens_only_for_verified_passwords(
    state: LoginState,
    event: LoginEvent,
    next: LoginState,
    action: LoginAction,
)
    requires
        login_transition(state, event, next, action),
    ensures
        action matches LoginAction::Respond { reply } && reply is LoggedIn ==> state is RecordingSuccess,
        next is RecordingSuccess ==> (state matches LoginState::FindingUser { password, .. } && (
        event matches LoginEvent::UserFound { result: Ok(Some(user)) } && argon2_verdict(
            vstd::utf8::encode_utf8(password@),
            user.password_hash@,
        ) == Some(true))),
        next is RecordingSuccess ==> (action matches LoginAction::RecordAttempt { succeeded: true, .. }),
{
}

/// Wrong credentials (an unknown email or a wrong password) are answered with 401 only after a
/// failed attempt was recorded, so that they count toward the lockout.
pub proof fn law_wrong_credentials_are_recorded(
    state: LoginState,
    event: LoginEvent,
    next: LoginState,
    action: LoginAction,
)
    requires
        login_transition(state, event, next, action),
    ensures
        (action matches LoginAction::Respond { reply } && is_invalid_credentials(reply)) ==> state is RecordingFailure,
        next is RecordingFailure ==> (action matches LoginAction::RecordAttempt { succeeded: false, .. }),
{
}

/// The wait announced to a locked-out email never exceeds the lockout window when its oldest
/// failure lies in the past, and is the whole window when that failure is unknown.
pub proof fn law_retry_after_within_window(oldest: Option<i64>, now: i64)
    ensures
        oldest matches Some(ts) && ts <= now ==> retry_after_secs(oldest, now) <= LOCKOUT_WINDOW_SECONDS,
        oldest is None ==> retry_after_secs(oldest, now) == LOCKOUT_WINDOW_SECONDS,
{
}

/// A session token issued at login authenticates the user who logged in until it expires:
/// signed with the server's secret and carrying the user's id and an expiry twenty-four hours
/// after the login, it is accepted for that user at every moment up to that expiry plus the
/// leeway, and refused after.
pub proof fn law_login_token_authenticates_until_expiry(
    state: LoginState,
    event: LoginEvent,
    next: LoginState,
    action: LoginAction,
    at: u64,
)
    requires
        login_transition(state, event, next, action),
        action matches LoginAction::Respond { reply } && reply is LoggedIn,
    ensures
        state matches LoginState::RecordingSuccess { user_id, secret, .. } && event matches LoginEvent::AttemptRecorded {
            now,
        } && action matches LoginAction::Respond { reply: LoginReply::LoggedIn { body, .. } } && {
            let exp = session_expiry(now);
            &&& at <= exp + SESSION_LEEWAY_SECONDS ==> session_user(body.token@, secret@, at) == Some(user_id@)
            &&& at > exp + SESSION_LEEWAY_SECONDS ==> session_user(body.token@, secret@, at) is None
        },
{
}

} // verus!
