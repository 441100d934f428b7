//! Users, personal access tokens, and the rules for credentials.
use vstd::prelude::*;
use base64::engine::general_purpose::URL_SAFE_NO_PAD;
use base64::Engine;
use email_address::EmailAddress;
use jsonwebtoken::{DecodingKey, EncodingKey, Header, Validation};
use rand::Rng;
use sha2::{Digest, Sha256};
use crate::text::{chars_of, owned, starts_with};

verus! {

/// An account of the vault.
#[derive(Debug, Clone)]
pub struct User {
    pub id: String,
    pub email: String,
    pub password_hash: String,
    pub role: String,
}

/// The claims of a session token: the user id and the expiry (seconds since the epoch).
#[derive(Debug)]
pub struct AuthClaims {
    pub sub: String,
    pub exp: u64,
}

/// The HS256 JSON Web Token that `jsonwebtoken::encode` makes, with the default header, of the
/// claims object `{"sub": sub, "exp": exp}` and the signing key `secret`; `None` when encoding
/// fails.
pub uninterp spec fn jwt_hs256(sub: Seq<char>, exp: u64, secret: Seq<char>) -> Option<Seq<char>>;

/// What `jsonwebtoken::decode` reads from `token` with the signing key `secret` under the
/// default validation (HS256 only, an `exp` claim required, no audience) but without the
/// expiry check against the clock: the `sub` string and the `exp` number of its claims, or
/// `None` when the token is malformed, not signed with `secret`, or lacks either claim.
pub uninterp spec fn hs256_claims(token: Seq<char>, secret: Seq<char>) -> Option<(Seq<char>, u64)>;

/// `jsonwebtoken::encode` of the claims as a JSON object with the default (HS256) header and
/// `EncodingKey::from_secret`. The token is named `jwt_hs256`; the contract also claims what
/// the crate's source shows of decoding it again with the same secret (the header's algorithm
/// is HS256, the signature verifies, and both claims read back unchanged).
#[verifier::external_body]
pub(crate) fn encode_session_token(claims: &AuthClaims, secret: &str) -> (r: Result<String, String>)
    ensures
        match r {
            Ok(t) => jwt_hs256(claims.sub@, claims.exp, secret@) == Some(t@) && hs256_claims(t@, secret@)
                == Some((claims.sub@, claims.exp)),
            Err(_) => jwt_hs256(claims.sub@, claims.exp, secret@) is None,
        },
{
    let mut object = serde_json::Map::new();
    object.insert("sub".to_string(), serde_json::Value::from(claims.sub.as_str()));
    object.insert("exp".to_string(), serde_json::Value::from(claims.exp));
    let key = EncodingKey::from_secret(secret.as_bytes());
    jsonwebtoken::encode(&Header::default(), &object, &key).map_err(|e| e.to_string())
}

/// `jsonwebtoken::decode` with `DecodingKey::from_secret` and the default validation with
/// `validate_exp` off, the `sub` and `exp` claims taken out of the decoded object. The result is
/// named `hs256_claims`; the expiry is checked by the caller against the clock it is given.
#[verifier::external_body]
pub(crate) fn decode_session_claims(token: &str, secret: &str) -> (r: Option<(String, u64)>)
    ensures
        match r {
            Some((sub, exp)) => hs256_claims(token@, secret@) == Some((sub@, exp)),
            None => hs256_claims(token@, secret@) is None,
        },
{
    let mut validation = Validation::default();
    validation.validate_exp = false;
    let key = DecodingKey::from_secret(secret.as_bytes());
    let data = jsonwebtoken::decode::<serde_json::Value>(token, &key, &validation).ok()?;
    match (data.claims.get("sub"), data.claims.get("exp")) {
        (Some(serde_json::Value::String(sub)), Some(serde_json::Value::Number(exp))) => Some((sub.clone(), exp.as_u64()?)),
        _ => None,
    }
}

/// Why a credential was refused at account creation.
#[derive(Debug, PartialEq)]
pub enum ValidationError {
    PasswordTooShort,
    InvalidEmail(String),
}

impl ValidationError {
    /// The text that describes the error.
    pub open spec fn message(&self) -> Seq<char> {
        match self {
            ValidationError::PasswordTooShort => "Password must be at least 12 characters"@,
            ValidationError::InvalidEmail(msg) => "Invalid email: "@ + msg@,
        }
    }

    /// The text that describes the error.
    pub fn to_string(&self) -> (s: String)
        ensures
            s@ == self.message(),
    {
        match self {
            ValidationError::PasswordTooShort => owned("Password must be at least 12 characters"),
            ValidationError::InvalidEmail(msg) => {
                let mut s = owned("Invalid email: ");
                s.append(msg.as_str());
                s
            },
        }
    }
}

/// A personal access token as listed to its owner (the secret itself is never stored).
#[derive(Debug, Clone)]
pub struct PersonalAccessToken {
    pub id: String,
    pub user_id: String,
    pub name: String,
    pub created_at: String,
    pub revoked_at: Option<String>,
}

/// The shortest accepted password, in characters.
pub const MIN_PASSWORD_LEN: usize = 12;

/// A password is accepted when it is at least twelve characters long.
pub fn validate_password(password: &str) -> (r: Result<(), ValidationError>)
    ensures
        r is Ok <==> password@.len() >= MIN_PASSWORD_LEN,
        r is Err ==> r == Err::<(), ValidationError>(ValidationError::PasswordTooShort),
{
    if chars_of(password).len() < MIN_PASSWORD_LEN {
        return Err(ValidationError::PasswordTooShort);
    }
    Ok(())
}

/// What `EmailAddress::parse_with_options(address, Options::default())` says of an address:
/// `None` when it accepts it, else the text of the error it reports.
pub uninterp spec fn email_rejection(address: Seq<char>) -> Option<Seq<char>>;

/// `email_address::EmailAddress::parse_with_options` with default options: the outcome is
/// named `email_rejection(address)`; which addresses the parser accepts is not stated.
#[verifier::external_body]
fn parse_email(address: &str) -> (r: Option<String>)
    ensures
        match r {
            None => email_rejection(address@) is None,
            Some(m) => email_rejection(address@) == Some(m@),
        },
{
    match EmailAddress::parse_with_options(address, email_address::Options::default()) {
        Ok(_) => None,
        Err(e) => Some(e.to_string()),
    }
}

/// The verdict on an email address, given what the address parser reported of it.
pub fn email_verdict(rejection: Option<String>) -> (r: Result<(), ValidationError>)
    ensures
        match rejection {
            None => r is Ok,
            Some(m) => r == Err::<(), ValidationError>(ValidationError::InvalidEmail(m)),
        },
{
    match rejection {
        None => Ok(()),
        Some(m) => Err(ValidationError::InvalidEmail(m)),
    }
}

/// An email address is accepted when the address parser accepts it; otherwise the parser's
/// error text is reported.
pub fn validate_email(email: &str) -> (r: Result<(), ValidationError>)
    ensures
        match email_rejection(email@) {
            None => r is Ok,
            Some(m) => r matches Err(ValidationError::InvalidEmail(e)) && e@ == m,
        },
{
    email_verdict(parse_email(email))
}

/// The value of `base64::engine::general_purpose::URL_SAFE_NO_PAD.encode(bytes)`.
pub uninterp spec fn base64_url_no_pad(bytes: Seq<u8>) -> Seq<char>;

/// `base64` URL-safe encoding without padding: the contract names its result
/// `base64_url_no_pad(bytes)`; the alphabet and the length are not stated.
#[verifier::external_body]
fn encode_base64_url(bytes: &[u8]) -> (s: String)
    ensures
        s@ == base64_url_no_pad(bytes@),
{
    URL_SAFE_NO_PAD.encode(bytes)
}

/// `rand::thread_rng().gen::<[u8; 32]>()`: thirty-two random bytes; nothing is stated of
/// their values.
#[verifier::external_body]
fn random_bytes_32() -> (b: Vec<u8>)
    ensures
        b@.len() == 32,
{
    let bytes: [u8; 32] = rand::thread_rng().gen();
    bytes.to_vec()
}

/// The prefix every personal access token starts with.
pub open spec fn pat_prefix() -> Seq<char> {
    "ens_"@
}

/// The token made from the given secret bytes: `ens_` and their URL-safe base64.
pub fn pat_from_bytes(bytes: &[u8]) -> (t: String)
    ensures
        t@ == pat_prefix() + base64_url_no_pad(bytes@),
{
    let mut t = owned("ens_");
    let encoded = encode_base64_url(bytes);
    t.append(encoded.as_str());
    t
}

/// Generates a new PAT: `ens_` prefix followed by 32 random bytes, base64url-encoded.
pub fn generate_pat() -> (t: String)
    ensures
        exists|b: Seq<u8>| b.len() == 32 && t@ == pat_prefix() + #[trigger] base64_url_no_pad(b),
{
    let bytes = random_bytes_32();
    pat_from_bytes(bytes.as_slice())
}

/// The value of `sha2::Sha256::digest(data)`.
pub uninterp spec fn sha256(data: Seq<u8>) -> Seq<u8>;

/// `sha2::Sha256::digest`: the contract names the digest `sha256(data)` and states that it is
/// thirty-two bytes long, as SHA-256's output size is.
#[verifier::external_body]
fn sha256_digest(data: &[u8]) -> (d: Vec<u8>)
    ensures
        d@ == sha256(data@),
        d@.len() == 32,
{
    Sha256::digest(data).to_vec()
}

/// The lowercase hexadecimal digit of a value below sixteen.
pub open spec fn hex_digit(n: nat) -> char {
    if n < 10 {
        (('0' as u32) + n) as char
    } else {
        (('a' as u32) + (n - 10)) as char
    }
}

/// Lowercase hexadecimal text of a byte sequence: two digits per byte, high nibble first.
pub open spec fn hex_lower(bytes: Seq<u8>) -> Seq<char>
    decreases bytes.len(),
{
    if bytes.len() == 0 {
        Seq::empty()
    } else {
        seq![hex_digit(bytes[0] as nat / 16), hex_digit(bytes[0] as nat % 16)] + hex_lower(
            bytes.drop_first(),
        )
    }
}

/// `hex::encode`: lowercase hexadecimal, two digits per byte, as the crate documents.
#[verifier::external_body]
fn hex_encode(data: &[u8]) -> (s: String)
    ensures
        s@ == hex_lower(data@),
{
    hex::encode(data)
}

/// The stored form of a token: the lowercase hex of the SHA-256 of its UTF-8 bytes.
pub open spec fn pat_digest(token: Seq<char>) -> Seq<char> {
    hex_lower(sha256(vstd::utf8::encode_utf8(token)))
}

/// Hashes a PAT using SHA-256 for storage. High-entropy tokens do not require slow hashing.
pub fn hash_pat(token: &str) -> (h: String)
    ensures
        h@ == pat_digest(token@),
{
    let digest = sha256_digest(token.as_bytes());
    hex_encode(digest.as_slice())
}

/// The characters of lowercase hexadecimal.
pub open spec fn is_lower_hex(c: char) -> bool {
    ('0' <= c && c <= '9') || ('a' <= c && c <= 'f')
}

/// Hex text has two lowercase hex digits per byte.
pub proof fn lemma_hex_lower_shape(bytes: Seq<u8>)
    ensures
        hex_lower(bytes).len() == 2 * bytes.len(),
        forall|i: int| 0 <= i < hex_lower(bytes).len() ==> is_lower_hex(#[trigger] hex_lower(bytes)[i]),
    decreases bytes.len(),
{
    if bytes.len() > 0 {
        lemma_hex_lower_shape(bytes.drop_first());
        let head = seq![hex_digit(bytes[0] as nat / 16), hex_digit(bytes[0] as nat % 16)];
        let rest = hex_lower(bytes.drop_first());
        assert forall|i: int| 0 <= i < hex_lower(bytes).len() implies is_lower_hex(
            #[trigger] hex_lower(bytes)[i],
        ) by {
            if i >= 2 {
                assert(hex_lower(bytes)[i] == rest[i - 2]);
            }
        }
    }
}

/// Every stored token hash is sixty-four lowercase hex digits, whatever the token.
pub proof fn law_pat_digest_is_64_lowercase_hex_digits(token: Seq<char>)
    requires
        sha256(vstd::utf8::encode_utf8(token)).len() == 32,
    ensures
        pat_digest(token).len() == 64,
        forall|i: int| 0 <= i < 64 ==> is_lower_hex(#[trigger] pat_digest(token)[i]),
{
    lemma_hex_lower_shape(sha256(vstd::utf8::encode_utf8(token)));
}

/// Every generated token carries the `ens_` prefix by which PATs are told from session tokens.
pub proof fn law_generated_tokens_start_with_prefix(bytes: Seq<u8>)
    ensures
        starts_with(pat_prefix() + base64_url_no_pad(bytes), pat_prefix()),
{
    assert((pat_prefix() + base64_url_no_pad(bytes)).subrange(0, pat_prefix().len() as int)
        =~= pat_prefix());
}

} // verus!
