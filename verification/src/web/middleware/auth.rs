//! Who is calling: the credential a request carries and what it proves.
use vstd::prelude::*;
use crate::domain::user::{decode_session_claims, hash_pat, hs256_claims, pat_digest, pat_prefix, PersonalAccessToken};
use crate::ports::repository::RepoError;
use crate::web::handlers::auth::session_cookie;
use crate::text::{
    owned, split_on, split_str, starts_with, starts_with_str, strip_prefix_str, text_of, trim, trimmed, is_white_space, trim_start, trim_end,
};

verus! {

/// The user a request was authenticated as.
#[derive(Debug)]
pub struct AuthenticatedUser {
    pub user_id: String,
}

/// Why a request was refused authentication (answered with status 401).
#[derive(Debug)]
pub struct AuthRejection {
    pub error: String,
    pub message: String,
}

/// The token of an `Authorization: Bearer <token>` header value.
pub open spec fn bearer_of(header: Seq<char>) -> Option<Seq<char>> {
    if starts_with(header, "Bearer "@) {
        Some(header.subrange("Bearer "@.len() as int, header.len() as int))
    } else {
        None
    }
}

/// The value of the first `session=` pair among cookie pairs, each taken without surrounding
/// white space.
pub open spec fn session_in(pairs: Seq<Seq<char>>) -> Option<Seq<char>>
    decreases pairs.len(),
{
    if pairs.len() == 0 {
        None
    } else {
        let p = trimmed(pairs[0]);
        if starts_with(p, "session="@) {
            Some(p.subrange("session="@.len() as int, p.len() as int))
        } else {
            session_in(pairs.drop_first())
        }
    }
}

/// The session token of a `Cookie` header value (pairs are separated by `;`).
pub open spec fn session_cookie_of(header: Seq<char>) -> Option<Seq<char>> {
    session_in(split_on(header, ';'))
}

/// The token a request carries: the bearer token if there is one, else the session cookie.
pub open spec fn carried_token(
    authorization: Option<Seq<char>>,
    cookie: Option<Seq<char>>,
) -> Option<Seq<char>> {
    let bearer = match authorization {
        Some(h) => bearer_of(h),
        None => None,
    };
    match bearer {
        Some(t) => Some(t),
        None => match cookie {
            Some(c) => session_cookie_of(c),
            None => None,
        },
    }
}

/// The token of an `Authorization` header value that starts with `Bearer `.
pub fn extract_bearer(header: &str) -> (r: Option<String>)
    ensures
        match r {
            Some(t) => bearer_of(header@) == Some(t@),
            None => bearer_of(header@) is None,
        },
{
    strip_prefix_str(header, "Bearer ")
}

/// The value of the `session` cookie in a `Cookie` header value.
pub fn extract_session_cookie(header: &str) -> (r: Option<String>)
    ensures
        match r {
            Some(t) => session_cookie_of(header@) == Some(t@),
            None => session_cookie_of(header@) is None,
        },
{
    let pairs = split_str(header, ';');
    let ghost all = split_on(header@, ';');
    let mut i: usize = 0;
    assert(all.skip(0) =~= all);
    while i < pairs.len()
        invariant
            i <= pairs.len() == all.len(),
            all == split_on(header@, ';'),
            forall|k: int| 0 <= k < pairs@.len() ==> #[trigger] pairs@[k]@ == all[k],
            session_in(all) == session_in(all.skip(i as int)),
        decreases pairs.len() - i,
    {
        let pair = trim(pairs[i].as_str());
        assert(all.skip(i as int).drop_first() =~= all.skip(i + 1));
        assert(all.skip(i as int)[0] == all[i as int]);
        match strip_prefix_str(pair.as_str(), "session=") {
            Some(value) => {
                assert(session_in(all.skip(i as int)) == Some(value@));
                return Some(value);
            },
            None => {},
        }
        i = i + 1;
    }
    assert(all.skip(i as int).len() == 0);
    None
}

/// What a carried token is taken for.
pub enum Credential {
    /// A personal access token (it starts with `ens_`), looked up by its hash.
    PersonalAccessToken { token_hash: String },
    /// A session token, checked as a signed JWT.
    SessionToken { token: String },
}

/// The credential of a request, from its `Authorization` and `Cookie` header values: a token
/// that starts with `ens_` is a personal access token and is looked up by its hash; any other
/// token is a session token; no token at all is refused with `missing_token`.
pub fn identify_credential(authorization: Option<&str>, cookie: Option<&str>) -> (r: Result<
    Credential,
    AuthRejection,
>)
    ensures
        match carried_token(text_of(authorization), text_of(cookie)) {
            None => r matches Err(rej) && rej.error@ == "missing_token"@ && rej.message@
                == "Authentication required"@,
            Some(t) => if starts_with(t, pat_prefix()) {
                r matches Ok(Credential::PersonalAccessToken { token_hash }) && token_hash@
                    == pat_digest(t)
            } else {
                r matches Ok(Credential::SessionToken { token }) && token@ == t
            },
        },
{
    let bearer = match authorization {
        Some(h) => extract_bearer(h),
        None => None,
    };
    let token = match bearer {
        Some(t) => Some(t),
        None => match cookie {
            Some(c) => extract_session_cookie(c),
            None => None,
        },
    };
    match token {
        None => Err(AuthRejection {
            error: owned("missing_token"),
            message: owned("Authentication required"),
        }),
        Some(t) => {
            if starts_with_str(t.as_str(), "ens_") {
                Ok(Credential::PersonalAccessToken { token_hash: hash_pat(t.as_str()) })
            } else {
                Ok(Credential::SessionToken { token: t })
            }
        },
    }
}

/// The rejection of a token that does not authenticate.
pub open spec fn is_invalid_token(rej: AuthRejection, message: Seq<char>) -> bool {
    rej.error@ == "invalid_token"@ && rej.message@ == message
}

/// The caller of a personal access token, given the token looked up by its hash: an unknown
/// token, or a failed lookup, is refused with `invalid_token`.
pub fn pat_lookup_outcome(found: Result<Option<PersonalAccessToken>, RepoError>) -> (r: Result<
    AuthenticatedUser,
    AuthRejection,
>)
    ensures
        match found {
            Ok(Some(pat)) => r matches Ok(u) && u.user_id == pat.user_id,
            _ => r matches Err(rej) && is_invalid_token(rej, "Invalid token"@),
        },
{
    match found {
        Ok(Some(pat)) => Ok(AuthenticatedUser { user_id: pat.user_id }),
        _ => Err(AuthRejection { error: owned("invalid_token"), message: owned("Invalid token") }),
    }
}

/// The caller of a session token, given the subject its signature check yielded (`None` when
/// the token is not a valid, unexpired token signed with the server's secret).
pub fn session_outcome(subject: Option<String>) -> (r: Result<AuthenticatedUser, AuthRejection>)
    ensures
        match subject {
            Some(sub) => r matches Ok(u) && u.user_id == sub,
            None => r matches Err(rej) && is_invalid_token(rej, "Invalid or expired token"@),
        },
{
    match subject {
        Some(sub) => Ok(AuthenticatedUser { user_id: sub }),
        None => Err(AuthRejection {
            error: owned("invalid_token"),
            message: owned("Invalid or expired token"),
        }),
    }
}

/// Seconds a session token is still accepted after its expiry (the default leeway of
/// `jsonwebtoken`'s validation).
pub const SESSION_LEEWAY_SECONDS: u64 = 60;

/// The user a session token authenticates at time `now` (seconds since the epoch): the subject
/// of a token signed with `secret`, as long as `now` is at most its expiry plus the leeway.
pub open spec fn session_user(token: Seq<char>, secret: Seq<char>, now: u64) -> Option<Seq<char>> {
    match hs256_claims(token, secret) {
        Some((sub, exp)) => if now <= exp + SESSION_LEEWAY_SECONDS {
            Some(sub)
        } else {
            None
        },
        None => None,
    }
}

/// The caller of a session token at time `now`: the subject of a token signed with `secret`
/// that has not expired (allowing the leeway); any other token is refused with
/// `invalid_token`.
pub fn validate_jwt(token: &str, secret: &str, now: u64) -> (r: Result<AuthenticatedUser, AuthRejection>)
    ensures
        match session_user(token@, secret@, now) {
            Some(sub) => r matches Ok(u) && u.user_id@ == sub,
            None => r matches Err(rej) && is_invalid_token(rej, "Invalid or expired token"@),
        },
{
    let subject = match decode_session_claims(token, secret) {
        Some((sub, exp)) => {
            if now <= SESSION_LEEWAY_SECONDS || exp >= now - SESSION_LEEWAY_SECONDS {
                Some(sub)
            } else {
                None
            }
        },
        None => None,
    };
    session_outcome(subject)
}

/// A text without the separator splits into itself alone.
proof fn lemma_split_without_separator(s: Seq<char>, sep: char)
    requires
        !s.contains(sep),
    ensures
        split_on(s, sep) == seq![s],
    decreases s.len(),
{
    if s.len() > 0 {
        assert(!s.drop_last().contains(sep)) by {
            if s.drop_last().contains(sep) {
                let k = choose|k: int| 0 <= k < s.drop_last().len() && s.drop_last()[k] == sep;
                assert(s[k] == sep);
            }
        }
        lemma_split_without_separator(s.drop_last(), sep);
        assert(s.last() != sep) by {
            assert(s[s.len() - 1] == s.last());
        }
        assert(s.drop_last().push(s.last()) =~= s);
        assert(split_on(s, sep) =~= seq![s]);
    } else {
        assert(s =~= Seq::<char>::empty());
    }
}

/// The first piece of `a`, a separator, and `b` is `a`, when `a` holds no separator.
proof fn lemma_split_first_piece(a: Seq<char>, b: Seq<char>, sep: char)
    requires
        !a.contains(sep),
    ensures
        split_on(a + seq![sep] + b, sep).len() >= 2,
        split_on(a + seq![sep] + b, sep)[0] == a,
    decreases b.len(),
{
    let s = a + seq![sep] + b;
    if b.len() == 0 {
        assert(s.drop_last() =~= a);
        assert(s.last() == sep);
        lemma_split_without_separator(a, sep);
    } else {
        assert(s.drop_last() =~= a + seq![sep] + b.drop_last());
        lemma_split_first_piece(a, b.drop_last(), sep);
    }
}

/// The bearer token of `Bearer <t>` is `t`: a personal access token sent as a bearer token is
/// read back unchanged.
pub proof fn law_bearer_round_trip(token: Seq<char>)
    ensures
        bearer_of("Bearer "@ + token) == Some(token),
{
    let h = "Bearer "@ + token;
    assert(h.subrange(0, "Bearer "@.len() as int) =~= "Bearer "@);
    assert(h.subrange("Bearer "@.len() as int, h.len() as int) =~= token);
}

/// The session cookie that a login sets is read back, unchanged, by authentication, for every
/// token without `;` that does not end in white space (a JWT is such a token).
pub proof fn law_session_cookie_round_trip(token: Seq<char>)
    requires
        !token.contains(';'),
        token.len() > 0 ==> !is_white_space(token.last()),
    ensures
        session_cookie_of(session_cookie(token)) == Some(token),
{
    reveal_strlit("session=");
    reveal_strlit("; HttpOnly; Secure; SameSite=Strict; Path=/");
    let a = "session="@ + token;
    let b = " HttpOnly; Secure; SameSite=Strict; Path=/"@;
    reveal_strlit(" HttpOnly; Secure; SameSite=Strict; Path=/");
    assert(session_cookie(token) =~= a + seq![';'] + b);
    assert(!a.contains(';')) by {
        if a.contains(';') {
            let k = choose|k: int| 0 <= k < a.len() && a[k] == ';';
            if k >= 8 {
                assert(token[k - 8] == ';');
            }
        }
    }
    lemma_split_first_piece(a, b, ';');
    let pairs = split_on(session_cookie(token), ';');
    assert(trim_start(a) == a);
    assert(a.last() == if token.len() > 0 { token.last() } else { '=' });
    assert(trim_end(a) == a);
    assert(trimmed(pairs[0]) == a);
    assert(a.subrange(0, "session="@.len() as int) =~= "session="@);
    assert(a.subrange("session="@.len() as int, a.len() as int) =~= token);
}

} // verus!
