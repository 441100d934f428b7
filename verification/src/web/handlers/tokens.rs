//! Personal access tokens: issue, list and revoke.
use vstd::prelude::*;
use crate::domain::user::{generate_pat, hash_pat, pat_digest, pat_prefix, base64_url_no_pad, PersonalAccessToken};
use crate::ports::repository::RepoError;
use crate::adapters::surreal::records::{active_with_hash, first_with_hash, lemma_first_with_hash, PatRecord};
use crate::text::{owned, starts_with, trim, trimmed};
use crate::web::middleware::auth::{bearer_of, carried_token, law_bearer_round_trip, AuthenticatedUser};

verus! {

/// A request for a new token.
#[derive(Debug)]
pub struct CreateTokenInput {
    pub name: String,
}

/// The body of an issued token: the only time its secret is shown.
#[derive(Debug)]
pub struct CreateTokenResponse {
    pub token_id: String,
    pub token: String,
    pub name: String,
}

/// One token in its owner's list.
#[derive(Debug)]
pub struct TokenListItem {
    pub token_id: String,
    pub name: String,
    pub created_at: String,
    pub revoked_at: Option<String>,
}

/// The body of a refused or failed token request.
#[derive(Debug)]
pub struct ErrorResponse {
    pub error: String,
    pub message: String,
    pub status: u16,
}

/// A token generated for a request, waiting for its hash to be stored.
#[derive(Debug)]
pub struct PendingToken {
    pub name: String,
    pub token: String,
}

/// What the token store is asked to keep: the owner, the name and the hash, never the secret.
#[derive(Debug)]
pub struct NewTokenRecord {
    pub user_id: String,
    pub name: String,
    pub token_hash: String,
}

/// A failed repository call.
pub open spec fn is_internal_error(body: ErrorResponse, e: RepoError) -> bool {
    body.status == 500 && body.error@ == "internal_error"@ && body.message@ == e.message()
}

fn internal_error(e: RepoError) -> (body: ErrorResponse)
    ensures
        is_internal_error(body, e),
{
    ErrorResponse { error: owned("internal_error"), message: e.to_string(), status: 500 }
}

/// What issuing a token for `user` under the requested `name` gives: the trimmed name, a fresh
/// `ens_` token, and a record that holds the token's digest in place of the token.
pub open spec fn token_issued(
    user: AuthenticatedUser,
    name: Seq<char>,
    pending: PendingToken,
    record: NewTokenRecord,
) -> bool {
    &&& pending.name@ == trimmed(name)
    &&& exists|b: Seq<u8>| b.len() == 32 && pending.token@ == pat_prefix() + #[trigger] base64_url_no_pad(b)
    &&& record.user_id == user.user_id
    &&& record.name@ == pending.name@
    &&& record.token_hash@ == pat_digest(pending.token@)
}

/// Starts issuing a token: a name that is empty once trimmed is refused with 422; otherwise a
/// token is generated and the record to store is returned with it.
pub fn post_token(auth: AuthenticatedUser, input: CreateTokenInput) -> (r: Result<
    (PendingToken, NewTokenRecord),
    ErrorResponse,
>)
    ensures
        trimmed(input.name@).len() == 0 <==> r is Err,
        r matches Err(body) ==> body.status == 422 && body.error@ == "invalid_input"@
            && body.message@ == "Token name must not be empty"@,
        r matches Ok((pending, record)) ==> token_issued(auth, input.name@, pending, record),
{
    let name = trim(input.name.as_str());
    if name.as_str().is_empty() {
        return Err(ErrorResponse {
            error: owned("invalid_input"),
            message: owned("Token name must not be empty"),
            status: 422,
        });
    }
    let token = generate_pat();
    let token_hash = hash_pat(token.as_str());
    let record = NewTokenRecord { user_id: auth.user_id, name: name.clone(), token_hash };
    Ok((PendingToken { name, token }, record))
}

/// The reply once the record was stored (or not): the id, the token and its name, or 500.
pub fn token_created(pending: PendingToken, stored: Result<String, RepoError>) -> (r: Result<
    CreateTokenResponse,
    ErrorResponse,
>)
    ensures
        match stored {
            Ok(id) => r matches Ok(body) && body.token_id == id && body.token == pending.token
                && body.name == pending.name,
            Err(e) => r matches Err(body) && is_internal_error(body, e),
        },
{
    match stored {
        Ok(token_id) => Ok(CreateTokenResponse { token_id, token: pending.token, name: pending.name }),
        Err(e) => Err(internal_error(e)),
    }
}

/// The list item of a stored token.
pub open spec fn list_item_of(t: PersonalAccessToken, item: TokenListItem) -> bool {
    item.token_id == t.id && item.name == t.name && item.created_at == t.created_at
        && item.revoked_at == t.revoked_at
}

/// The reply to a token listing: one item per token of the caller, in the order given.
pub fn get_tokens(listed: Result<Vec<PersonalAccessToken>, RepoError>) -> (r: Result<
    Vec<TokenListItem>,
    ErrorResponse,
>)
    ensures
        match listed {
            Ok(tokens) => r matches Ok(items) && items@.len() == tokens@.len() && forall|i: int|
                0 <= i < tokens@.len() ==> list_item_of(tokens@[i], #[trigger] items@[i]),
            Err(e) => r matches Err(body) && is_internal_error(body, e),
        },
{
    match listed {
        Err(e) => Err(internal_error(e)),
        Ok(tokens) => {
            let mut items: Vec<TokenListItem> = Vec::new();
            let mut i: usize = 0;
            while i < tokens.len()
                invariant
                    i <= tokens.len(),
                    items@.len() == i,
                    forall|k: int| 0 <= k < i ==> list_item_of(tokens@[k], #[trigger] items@[k]),
                decreases tokens.len() - i,
            {
                let t = &tokens[i];
                items.push(
                    TokenListItem {
                        token_id: t.id.clone(),
                        name: t.name.clone(),
                        created_at: t.created_at.clone(),
                        revoked_at: match &t.revoked_at {
                            Some(at) => Some(at.clone()),
                            None => None,
                        },
                    },
                );
                i = i + 1;
            }
            Ok(items)
        },
    }
}

/// The reply to a revocation: nothing (204) once revoked, 404 for a token the caller does not
/// own or that does not exist, 500 otherwise.
pub fn delete_token(revoked: Result<(), RepoError>) -> (r: Result<(), ErrorResponse>)
    ensures
        match revoked {
            Ok(()) => r is Ok,
            Err(RepoError::NotFound) => r matches Err(body) && body.status == 404 && body.error@
                == "not_found"@ && body.message@ == "Token not found"@,
            Err(e) => r matches Err(body) && is_internal_error(body, e),
        },
{
    match revoked {
        Ok(()) => Ok(()),
        Err(RepoError::NotFound) => Err(ErrorResponse {
            error: owned("not_found"),
            message: owned("Token not found"),
            status: 404,
        }),
        Err(e) => Err(internal_error(e)),
    }
}

/// An issued token authenticates: sent back as a bearer token, it is read as a personal access
/// token whose digest is the hash that was stored for it.
pub proof fn law_issued_token_authenticates(
    user: AuthenticatedUser,
    name: Seq<char>,
    pending: PendingToken,
    record: NewTokenRecord,
)
    requires
        token_issued(user, name, pending, record),
    ensures
        carried_token(Some("Bearer "@ + pending.token@), None) == Some(pending.token@),
        starts_with(pending.token@, pat_prefix()),
        pat_digest(pending.token@) == record.token_hash@,
{
    law_bearer_round_trip(pending.token@);
    let b = choose|b: Seq<u8>| b.len() == 32 && pending.token@ == pat_prefix() + #[trigger] base64_url_no_pad(b);
    assert(pending.token@.subrange(0, pat_prefix().len() as int) =~= pat_prefix());
}

/// An issued token authenticates its owner while it is not revoked: presented as a bearer
/// token, it is read as a personal access token whose digest is the stored hash, and the
/// lookup by that hash finds the stored record (the first active one with that hash), which
/// names the user it was issued to.
pub proof fn law_issued_token_authenticates_its_owner(
    user: AuthenticatedUser,
    name: Seq<char>,
    pending: PendingToken,
    record: NewTokenRecord,
    stored: Seq<PatRecord>,
    k: int,
)
    requires
        token_issued(user, name, pending, record),
        0 <= k < stored.len(),
        stored[k].token_hash@ == record.token_hash@,
        stored[k].user_id == record.user_id,
        stored[k].revoked_at is None,
        forall|i: int| 0 <= i < k ==> !active_with_hash(#[trigger] stored[i], record.token_hash@),
    ensures
        carried_token(Some("Bearer "@ + pending.token@), None) == Some(pending.token@),
        starts_with(pending.token@, pat_prefix()),
        first_with_hash(stored, pat_digest(pending.token@)) == Some(k),
        stored[k].user_id == user.user_id,
{
    law_issued_token_authenticates(user, name, pending, record);
    lemma_first_with_hash(stored, record.token_hash@, k);
    assert(stored.skip(k)[0] == stored[k]);
}

} // verus!
