//! First-run setup: the one admin account, and the setup page.
use vstd::prelude::*;
use argon2::password_hash::rand_core::OsRng;
use argon2::password_hash::{PasswordHasher, SaltString};
use argon2::{Algorithm, Argon2, Params, Version};
use crate::domain::user::{validate_email, validate_password, email_rejection, User};
use crate::ports::repository::RepoError;
use crate::text::{chars_of, decimal, owned, starts_with};
use crate::web::handlers::auth::{argon2_verdict, login_transition, LoginAction, LoginEvent, LoginState};

verus! {

/// The setup page up to the place of the error block.
pub const SETUP_PAGE_HEAD: &'static str = "<!DOCTYPE html>
<html lang=\"en\">
<head>
  <meta charset=\"UTF-8\">
  <meta name=\"viewport\" content=\"width=device-width, initial-scale=1.0\">
  <title>Knowledge Vault \u{2014} Setup</title>
  <style>
    *, *::before, *::after { box-sizing: border-box; }
    body {
      font-family: -apple-system, BlinkMacSystemFont, 'BMW Type Next', Arial, sans-serif;
      background: #262626;
      color: #f0f0f0;
      display: flex;
      align-items: center;
      justify-content: center;
      min-height: 100vh;
      margin: 0;
    }
    .card {
      background: #1a1a1a;
      border: 1px solid #3c3c3c;
      border-radius: 4px;
      padding: 2.5rem;
      width: 100%;
      max-width: 420px;
    }
    h1 {
      font-size: 1.5rem;
      font-weight: 700;
      margin: 0 0 0.5rem;
      color: #f0f0f0;
    }
    p.subtitle {
      color: #8c8c8c;
      margin: 0 0 2rem;
      font-size: 0.9rem;
    }
    label {
      display: block;
      font-size: 0.85rem;
      font-weight: 600;
      margin-bottom: 0.35rem;
      color: #c8c8c8;
    }
    input {
      display: block;
      width: 100%;
      padding: 0.6rem 0.75rem;
      border: 1px solid #3c3c3c;
      border-radius: 2px;
      background: #262626;
      color: #f0f0f0;
      font-size: 0.95rem;
      margin-bottom: 1.25rem;
    }
    input:focus {
      outline: 3px solid #0653b6;
      outline-offset: 2px;
    }
    button {
      width: 100%;
      padding: 0.7rem;
      background: #1c69d4;
      color: #fff;
      border: none;
      border-radius: 2px;
      font-size: 1rem;
      font-weight: 600;
      cursor: pointer;
    }
    button:hover { background: #0653b6; }
    button:focus {
      outline: 3px solid #0653b6;
      outline-offset: 2px;
    }
    .error {
      background: #3d1515;
      border: 1px solid #7a2020;
      border-radius: 2px;
      padding: 0.6rem 0.75rem;
      color: #ff8080;
      font-size: 0.9rem;
      margin-bottom: 1rem;
    }
  </style>
</head>
<body>
  <main class=\"card\">
    <h1>Knowledge Vault</h1>
    <p class=\"subtitle\">Create your admin account to get started.</p>
    ";

/// The opening tag of the error block.
pub const ERROR_BLOCK_OPEN: &'static str = "<p class=\"error\" role=\"alert\" aria-live=\"polite\">";

/// The setup page between the error block and the value of the email field.
pub const SETUP_PAGE_MIDDLE: &'static str = "
    <form method=\"post\" action=\"/setup\">
      <label for=\"email\">Email address</label>
      <input
        id=\"email\"
        type=\"email\"
        name=\"email\"
        value=\"";

/// The setup page after the value of the email field.
pub const SETUP_PAGE_TAIL: &'static str = "\"
        required
        autocomplete=\"email\"
        aria-describedby=\"email-hint\"
      />
      <label for=\"password\">Password</label>
      <input
        id=\"password\"
        type=\"password\"
        name=\"password\"
        required
        minlength=\"12\"
        autocomplete=\"new-password\"
        aria-describedby=\"password-hint\"
      />
      <p id=\"password-hint\" style=\"font-size:0.8rem;color:#8c8c8c;margin-top:-1rem;margin-bottom:1.25rem;\">
        Minimum 12 characters.
      </p>
      <button type=\"submit\">Create account</button>
    </form>
  </main>
</body>
</html>";

/// What one character becomes in HTML text or in a quoted attribute value.
pub open spec fn escape_char(c: char) -> Seq<char> {
    if c == '&' {
        "&amp;"@
    } else if c == '<' {
        "&lt;"@
    } else if c == '>' {
        "&gt;"@
    } else if c == '\u{22}' {
        "&quot;"@
    } else if c == '\u{27}' {
        "&#x27;"@
    } else {
        seq![c]
    }
}

/// A text with the ampersand, the angle brackets and both quote marks replaced by their
/// character references.
pub open spec fn html_escaped(s: Seq<char>) -> Seq<char>
    decreases s.len(),
{
    if s.len() == 0 {
        Seq::empty()
    } else {
        html_escaped(s.drop_last()) + escape_char(s.last())
    }
}

/// Escapes a text for HTML.
pub fn html_escape(s: &str) -> (r: String)
    ensures
        r@ == html_escaped(s@),
{
    let v = chars_of(s);
    let mut out = String::new();
    let mut i: usize = 0;
    while i < v.len()
        invariant
            i <= v.len(),
            out@ == html_escaped(v@.take(i as int)),
        decreases v.len() - i,
    {
        let c = v[i];
        assert(v@.take(i + 1).drop_last() =~= v@.take(i as int));
        if c == '&' {
            out.append("&amp;");
        } else if c == '<' {
            out.append("&lt;");
        } else if c == '>' {
            out.append("&gt;");
        } else if c == '\u{22}' {
            out.append("&quot;");
        } else if c == '\u{27}' {
            out.append("&#x27;");
        } else {
            let mut one = String::new();
            crate::text::push_char(&mut one, c);
            out.append(one.as_str());
        }
        i = i + 1;
    }
    assert(v@.take(v.len() as int) =~= v@);
    out
}

/// The error block of the setup page: nothing when there is no error.
pub open spec fn error_block(error: Seq<char>) -> Seq<char> {
    if error.len() == 0 {
        Seq::empty()
    } else {
        ERROR_BLOCK_OPEN@ + html_escaped(error) + "</p>"@
    }
}

/// The setup page with an error message and the email field's value.
pub open spec fn setup_page(error: Seq<char>, email: Seq<char>) -> Seq<char> {
    SETUP_PAGE_HEAD@ + error_block(error) + SETUP_PAGE_MIDDLE@ + html_escaped(email) + SETUP_PAGE_TAIL@
}

/// Renders the setup page.
pub fn setup_html(error: &str, email: &str) -> (page: String)
    ensures
        page@ == setup_page(error@, email@),
{
    let error_escaped = html_escape(error);
    let email_escaped = html_escape(email);
    let mut page = owned(SETUP_PAGE_HEAD);
    if !error.is_empty() {
        page.append(ERROR_BLOCK_OPEN);
        page.append(error_escaped.as_str());
        page.append("</p>");
    }
    page.append(SETUP_PAGE_MIDDLE);
    page.append(email_escaped.as_str());
    page.append(SETUP_PAGE_TAIL);
    page
}

/// A character that would end a text or an attribute value, or start markup.
pub open spec fn is_markup_char(c: char) -> bool {
    c == '<' || c == '>' || c == '\u{22}' || c == '\u{27}'
}

/// A character that escaping changes.
pub open spec fn is_escaped_char(c: char) -> bool {
    c == '&' || is_markup_char(c)
}

proof fn lemma_escape_char_is_inert(c: char)
    ensures
        forall|j: int| 0 <= j < escape_char(c).len() ==> !is_markup_char(#[trigger] escape_char(c)[j]),
{
    reveal_strlit("&amp;");
    reveal_strlit("&lt;");
    reveal_strlit("&gt;");
    reveal_strlit("&quot;");
    reveal_strlit("&#x27;");
}

/// Escaped text holds no markup character: neither angle bracket nor quote mark survives, so
/// the text can stand in an element or in a quoted attribute value.
pub proof fn law_escaped_text_is_inert(s: Seq<char>)
    ensures
        forall|i: int| 0 <= i < html_escaped(s).len() ==> !is_markup_char(#[trigger] html_escaped(s)[i]),
    decreases s.len(),
{
    if s.len() > 0 {
        law_escaped_text_is_inert(s.drop_last());
        lemma_escape_char_is_inert(s.last());
        let a = html_escaped(s.drop_last());
        let b = escape_char(s.last());
        assert forall|i: int| 0 <= i < html_escaped(s).len() implies !is_markup_char(
            #[trigger] html_escaped(s)[i],
        ) by {
            if i >= a.len() {
                assert(html_escaped(s)[i] == b[i - a.len()]);
            } else {
                assert(html_escaped(s)[i] == a[i]);
            }
        }
    }
}

/// A text without any character that escaping changes is left as it is.
pub proof fn law_plain_text_is_unchanged(s: Seq<char>)
    requires
        forall|i: int| 0 <= i < s.len() ==> !is_escaped_char(#[trigger] s[i]),
    ensures
        html_escaped(s) == s,
    decreases s.len(),
{
    if s.len() > 0 {
        assert(!is_escaped_char(s[s.len() - 1]));
        law_plain_text_is_unchanged(s.drop_last());
        assert(html_escaped(s.drop_last()) + seq![s.last()] =~= s);
    } else {
        assert(s =~= Seq::empty());
    }
}

/// The answer to whether the vault still needs its first account.
#[derive(Debug)]
pub struct SetupStatusResponse {
    pub first_run: bool,
}

/// The body of a created admin account.
#[derive(Debug)]
pub struct SetupCreatedResponse {
    pub user_id: String,
}

/// The body of a refused or failed setup request.
#[derive(Debug)]
pub struct ErrorResponse {
    pub error: String,
    pub message: String,
    pub status: u16,
}

/// The setup form, sent as JSON or as a form.
#[derive(Debug)]
pub struct SetupFormInput {
    pub email: String,
    pub password: String,
}

/// The answer to a setup request.
#[derive(Debug)]
pub enum SetupReply {
    /// Status 201 with the new account's id.
    Created { body: SetupCreatedResponse },
    /// A redirect to the login page.
    RedirectToLogin,
    /// A JSON error; the status is in the body.
    Error { body: ErrorResponse },
    /// The setup page as HTML, status 200.
    Page { html: String },
}

/// The reply to a refused or failed request: a JSON error to JSON clients, the setup page
/// showing the message to browsers.
pub open spec fn is_setup_error(
    reply: SetupReply,
    status: u16,
    error: Seq<char>,
    message: Seq<char>,
    is_json: bool,
) -> bool {
    if is_json {
        reply matches SetupReply::Error { body } && body.status == status && body.error@ == error
            && body.message@ == message
    } else {
        reply matches SetupReply::Page { html } && html@ == setup_page(message, Seq::empty())
    }
}

/// A refused or failed setup request.
fn setup_error(status: u16, error: &str, message: String, is_json: bool) -> (r: SetupReply)
    ensures
        is_setup_error(r, status, error@, message@, is_json),
{
    if is_json {
        SetupReply::Error { body: ErrorResponse { error: owned(error), message, status } }
    } else {
        proof {
            reveal_strlit("");
        }
        SetupReply::Page { html: setup_html(message.as_str(), "") }
    }
}

/// The reply to `GET /setup`, given the number of accounts: the page while there is none, a
/// redirect to the login page afterwards.
pub fn get_setup(count: Result<u64, RepoError>) -> (r: SetupReply)
    ensures
        match count {
            Err(e) => r matches SetupReply::Error { body } && body.status == 500
                && body.error@ == "internal_error"@ && body.message@ == e.message(),
            Ok(n) => if n > 0 {
                r is RedirectToLogin
            } else {
                r matches SetupReply::Page { html } && html@ == setup_page(Seq::empty(), Seq::empty())
            },
        },
{
    match count {
        Err(e) => setup_error(500, "internal_error", e.to_string(), true),
        Ok(n) => if n > 0 {
            SetupReply::RedirectToLogin
        } else {
            proof {
                reveal_strlit("");
            }
            SetupReply::Page { html: setup_html("", "") }
        },
    }
}

/// The reply to `GET /api/setup`, given the number of accounts.
pub fn get_setup_json(count: Result<u64, RepoError>) -> (r: Result<SetupStatusResponse, ErrorResponse>)
    ensures
        match count {
            Err(e) => r matches Err(body) && body.status == 500 && body.error@ == "internal_error"@
                && body.message@ == e.message(),
            Ok(n) => r matches Ok(status) && status.first_run == (n == 0),
        },
{
    match count {
        Err(e) => Err(ErrorResponse { error: owned("internal_error"), message: e.to_string(), status: 500 }),
        Ok(n) => Ok(SetupStatusResponse { first_run: n == 0 }),
    }
}

/// Memory cost of account password hashes, in KiB (64 MiB).
pub const ARGON2_MEMORY_KIB: u32 = 65536;

/// Number of passes of account password hashes.
pub const ARGON2_PASSES: u32 = 3;

/// Number of lanes of account password hashes.
pub const ARGON2_LANES: u32 = 1;

/// The start of the PHC string of an Argon2id (version 0x13, written `v=19`) hash with the
/// given memory cost, passes and lanes: what precedes the salt.
pub open spec fn argon2id_phc_prefix(m_cost: u32, t_cost: u32, p_cost: u32) -> Seq<char> {
    "$argon2id$v=19$m="@ + decimal(m_cost as nat) + ",t="@ + decimal(t_cost as nat) + ",p="@ + decimal(
        p_cost as nat,
    ) + "$"@
}

/// The start of the PHC string of every account password hash.
pub open spec fn account_hash_prefix() -> Seq<char> {
    argon2id_phc_prefix(ARGON2_MEMORY_KIB, ARGON2_PASSES, ARGON2_LANES)
}

/// Hashes a password with `argon2`: `Params::new(m_cost, t_cost, p_cost, None)`,
/// `Argon2::new(Algorithm::Argon2id, Version::V0x13, params)` and `hash_password` with a salt
/// from `SaltString::generate(&mut OsRng)`; the PHC string of the hash, or the error's text.
/// Of a hash it returns, the contract claims two things the `argon2` and `password-hash`
/// sources show: its PHC string starts with `$argon2id$v=19$m=<m>,t=<t>,p=<p>$` (the
/// `Display` of `PasswordHash` writes algorithm, version and the `ParamsString` of `m`, `t`,
/// `p` in that order, then the salt), and verifying the same password against it succeeds
/// (the verifier recomputes the hash with what the PHC string records). It also claims when
/// hashing succeeds: with parameters that `Params::new` accepts (at least one pass, between one
/// and `0xFFFFFF` lanes, at least eight KiB of memory per lane), the only error left is a
/// password longer than `MAX_PWD_LEN` (`0xFFFFFFFF` bytes); the generated salt is sixteen bytes,
/// within the salt bounds. The salt is random, so the rest of the hash is not stated.
#[verifier::external_body]
fn hash_password(password: &str, m_cost: u32, t_cost: u32, p_cost: u32) -> (r: Result<String, String>)
    requires
        1 <= t_cost,
        1 <= p_cost <= 0xFFFFFF,
        8 * p_cost <= m_cost,
    ensures
        r matches Ok(h) ==> argon2_verdict(vstd::utf8::encode_utf8(password@), h@) == Some(true),
        r matches Ok(h) ==> starts_with(h@, argon2id_phc_prefix(m_cost, t_cost, p_cost)),
        vstd::utf8::encode_utf8(password@).len() <= 0xFFFF_FFFF ==> r is Ok,
{
    let params = match Params::new(m_cost, t_cost, p_cost, None) {
        Ok(p) => p,
        Err(e) => return Err(e.to_string()),
    };
    let salt = SaltString::generate(&mut OsRng);
    match Argon2::new(Algorithm::Argon2id, Version::V0x13, params).hash_password(password.as_bytes(), &salt) {
        Ok(h) => Ok(h.to_string()),
        Err(e) => Err(e.to_string()),
    }
}

/// Where a setup request stands: each state waits for the outcome of the action that led to it.
pub enum SetupState {
    CountingUsers { email: String, password: String, is_json: bool },
    CreatingUser { is_json: bool },
    Finished,
}

/// The outcome of the last action.
pub enum SetupEvent {
    UsersCounted { result: Result<u64, RepoError> },
    UserCreated { result: Result<User, RepoError> },
}

/// What the application does next for a setup request.
pub enum SetupAction {
    CountUsers,
    CreateUser { email: String, password_hash: String },
    Respond { reply: SetupReply },
}

impl SetupState {
    /// The event that answers the action this state waits on.
    pub open spec fn awaits(&self, event: &SetupEvent) -> bool {
        match (self, event) {
            (SetupState::CountingUsers { .. }, SetupEvent::UsersCounted { .. }) => true,
            (SetupState::CreatingUser { .. }, SetupEvent::UserCreated { .. }) => true,
            _ => false,
        }
    }
}

/// Starts a setup request: the accounts are counted first.
pub fn start_setup(input: SetupFormInput, is_json: bool) -> (r: (SetupState, SetupAction))
    ensures
        r.0 == (SetupState::CountingUsers { email: input.email, password: input.password, is_json }),
        r.1 is CountUsers,
{
    (
        SetupState::CountingUsers { email: input.email, password: input.password, is_json },
        SetupAction::CountUsers,
    )
}

/// Starts a setup request sent as JSON.
pub fn post_setup_json(input: SetupFormInput) -> (r: (SetupState, SetupAction))
    ensures
        r.0 == (SetupState::CountingUsers { email: input.email, password: input.password, is_json: true }),
        r.1 is CountUsers,
{
    start_setup(input, true)
}

/// Starts a setup request sent from the setup page's form.
pub fn post_setup_form(input: SetupFormInput) -> (r: (SetupState, SetupAction))
    ensures
        r.0 == (SetupState::CountingUsers { email: input.email, password: input.password, is_json: false }),
        r.1 is CountUsers,
{
    start_setup(input, false)
}

/// What follows the hashing of a valid password: the account is created with the hash, or
/// the hashing error is reported.
pub fn after_hashing(email: String, hashed: Result<String, String>, is_json: bool) -> (r: (
    SetupState,
    SetupAction,
))
    ensures
        match hashed {
            Ok(h) => r.0 == (SetupState::CreatingUser { is_json }) && r.1 == (SetupAction::CreateUser {
                email,
                password_hash: h,
            }),
            Err(m) => r.0 is Finished && (r.1 matches SetupAction::Respond { reply } && is_setup_error(
                reply,
                500,
                "internal_error"@,
                m@,
                is_json,
            )),
        },
{
    match hashed {
        Ok(h) => (SetupState::CreatingUser { is_json }, SetupAction::CreateUser { email, password_hash: h }),
        Err(m) => (
            SetupState::Finished,
            SetupAction::Respond { reply: setup_error(500, "internal_error", m, is_json) },
        ),
    }
}

/// One step of a setup request: from its state and the outcome of the last action, the next
/// state and the next action.
pub open spec fn setup_transition(
    state: SetupState,
    event: SetupEvent,
    next: SetupState,
    action: SetupAction,
) -> bool {
    match (state, event) {
        (SetupState::CountingUsers { email, password, is_json }, SetupEvent::UsersCounted { result }) => {
            match result {
                Err(e) => next is Finished && (action matches SetupAction::Respond { reply }
                    && is_setup_error(reply, 500, "internal_error"@, e.message(), is_json)),
                Ok(n) => if n > 0 {
                    next is Finished && (action matches SetupAction::Respond { reply }
                        && is_setup_error(reply, 409, "already_configured"@, "An admin account already exists"@, is_json))
                } else if email_rejection(email@) is Some {
                    next is Finished && (action matches SetupAction::Respond { reply }
                        && is_setup_error(reply, 422, "invalid_email"@,
                            "Invalid email: "@ + email_rejection(email@)->Some_0, is_json))
                } else if password@.len() < 12 {
                    next is Finished && (action matches SetupAction::Respond { reply }
                        && is_setup_error(reply, 422, "invalid_password"@,
                            "Password must be at least 12 characters"@, is_json))
                } else {
                    &&& (vstd::utf8::encode_utf8(password@).len() <= 0xFFFF_FFFF ==> next is CreatingUser)
                    &&& (next is Finished && (action matches SetupAction::Respond { reply }
                        && exists|m: Seq<char>| is_setup_error(reply, 500, "internal_error"@, m, is_json))
                        || next == (SetupState::CreatingUser { is_json }) && (action matches SetupAction::CreateUser {
                        email: e, password_hash } && e == email && argon2_verdict(
                            vstd::utf8::encode_utf8(password@), password_hash@) == Some(true)
                        && starts_with(password_hash@, account_hash_prefix())))
                },
            }
        },
        (SetupState::CreatingUser { is_json }, SetupEvent::UserCreated { result }) => {
            &&& next is Finished
            &&& match result {
                Err(e) => action matches SetupAction::Respond { reply }
                    && is_setup_error(reply, 500, "internal_error"@, e.message(), is_json),
                Ok(user) => action matches SetupAction::Respond { reply } && if is_json {
                    reply matches SetupReply::Created { body } && body.user_id == user.id
                } else {
                    reply is RedirectToLogin
                },
            }
        },
        _ => false,
    }
}

/// Advances a setup request by one step.
pub fn step_setup(state: SetupState, event: SetupEvent) -> (r: (SetupState, SetupAction))
    requires
        state.awaits(&event),
    ensures
        setup_transition(state, event, r.0, r.1),
{
    match (state, event) {
        (SetupState::CountingUsers { email, password, is_json }, SetupEvent::UsersCounted { result }) => {
            let n = match result {
                Err(e) => {
                    return (
                        SetupState::Finished,
                        SetupAction::Respond { reply: setup_error(500, "internal_error", e.to_string(), is_json) },
                    );
                },
                Ok(n) => n,
            };
            if n > 0 {
                let reply = setup_error(409, "already_configured", owned("An admin account already exists"), is_json);
                return (SetupState::Finished, SetupAction::Respond { reply });
            }
            if let Err(e) = validate_email(email.as_str()) {
                let reply = setup_error(422, "invalid_email", e.to_string(), is_json);
                return (SetupState::Finished, SetupAction::Respond { reply });
            }
            if let Err(e) = validate_password(password.as_str()) {
                let reply = setup_error(422, "invalid_password", e.to_string(), is_json);
                return (SetupState::Finished, SetupAction::Respond { reply });
            }
            let hashed = hash_password(password.as_str(), ARGON2_MEMORY_KIB, ARGON2_PASSES, ARGON2_LANES);
            after_hashing(email, hashed, is_json)
        },
        (SetupState::CreatingUser { is_json }, SetupEvent::UserCreated { result }) => match result {
            Err(e) => (
                SetupState::Finished,
                SetupAction::Respond { reply: setup_error(500, "internal_error", e.to_string(), is_json) },
            ),
            Ok(user) => {
                let reply = if is_json {
                    SetupReply::Created { body: SetupCreatedResponse { user_id: user.id } }
                } else {
                    SetupReply::RedirectToLogin
                };
                (SetupState::Finished, SetupAction::Respond { reply })
            },
        },
        _ => (SetupState::Finished, SetupAction::Respond { reply: SetupReply::RedirectToLogin }),
    }
}

/// The admin account is created at most once: once any account exists, a setup request is
/// refused with 409, and an account is only ever created after the count came back zero.
pub proof fn law_setup_happens_once(
    state: SetupState,
    event: SetupEvent,
    next: SetupState,
    action: SetupAction,
)
    requires
        setup_transition(state, event, next, action),
    ensures
        (event matches SetupEvent::UsersCounted { result: Ok(n) } && n > 0) ==> (action matches SetupAction::Respond {
            reply,
        } && is_setup_error(
            reply,
            409,
            "already_configured"@,
            "An admin account already exists"@,
            state->CountingUsers_is_json,
        )),
        action is CreateUser ==> (event matches SetupEvent::UsersCounted { result: Ok(n) } && n == 0),
{
}

/// An account is created only with an email that the address parser accepts and a password
/// of at least twelve characters, and under the email that was submitted.
pub proof fn law_created_accounts_are_valid(
    state: SetupState,
    event: SetupEvent,
    next: SetupState,
    action: SetupAction,
)
    requires
        setup_transition(state, event, next, action),
    ensures
        action matches SetupAction::CreateUser { email, .. } ==> (state matches SetupState::CountingUsers {
            email: submitted,
            password,
            ..
        } && email == submitted && email_rejection(email@) is None && password@.len() >= 12),
{
}

/// The account hash that setup stores is an Argon2id (version 19) PHC string with 64 MiB of
/// memory, three passes and one lane.
pub proof fn law_setup_hashes_with_argon2id(
    state: SetupState,
    event: SetupEvent,
    next: SetupState,
    action: SetupAction,
)
    requires
        setup_transition(state, event, next, action),
    ensures
        action matches SetupAction::CreateUser { password_hash, .. } ==> starts_with(
            password_hash@,
            "$argon2id$v=19$m=65536,t=3,p=1$"@,
        ),
{
    reveal_strlit("$argon2id$v=19$m=65536,t=3,p=1$");
    reveal_strlit("$argon2id$v=19$m=");
    reveal_strlit(",t=");
    reveal_strlit(",p=");
    reveal_strlit("$");
    assert(decimal(6) =~= seq!['6']);
    assert(decimal(65) =~= seq!['6', '5']);
    assert(decimal(655) =~= seq!['6', '5', '5']);
    assert(decimal(6553) =~= seq!['6', '5', '5', '3']);
    assert(decimal(65536) =~= seq!['6', '5', '5', '3', '6']);
    assert(decimal(3) =~= seq!['3']);
    assert(decimal(1) =~= seq!['1']);
    assert(account_hash_prefix() =~= "$argon2id$v=19$m=65536,t=3,p=1$"@);
}

/// The password chosen at setup logs in: when setup creates an account with a hash, a login
/// that finds that account and presents the same password verifies it and goes on to record
/// a successful attempt.
pub proof fn law_setup_password_logs_in(
    setup: SetupState,
    counted: SetupEvent,
    after_setup: SetupState,
    create: SetupAction,
    login: LoginState,
    found: LoginEvent,
    after_login: LoginState,
    login_action: LoginAction,
)
    requires
        setup_transition(setup, counted, after_setup, create),
        create is CreateUser,
        login_transition(login, found, after_login, login_action),
        login matches LoginState::FindingUser { password, .. }
            && password@ == setup->CountingUsers_password@,
        found matches LoginEvent::UserFound { result: Ok(Some(user)) }
            && user.password_hash@ == create->CreateUser_password_hash@,
    ensures
        after_login is RecordingSuccess,
{
}

} // verus!
