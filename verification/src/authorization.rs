use jsonwebtoken::{DecodingKey, EncodingKey, Header, Validation};
use std::collections::BTreeMap;
use vstd::prelude::*;

verus! {

/// Seconds for which a token is valid after it is issued: one day.
pub const VALIDITY_SECONDS: u64 = 86400;

/// Name of the claim that holds the identity of the account.
pub const USER_CLAIM: &'static str = "user_id";

/// First part of every token: the header `{"typ":"JWT","alg":"HS256"}` in
/// base 64.
pub const TOKEN_HEADER: &'static str = "eyJ0eXAiOiJKV1QiLCJhbGciOiJIUzI1NiJ9";

/// Number of characters of a signature: thirty-two bytes in base 64,
/// unpadded.
pub const SIGNATURE_LENGTH: usize = 43;

#[verifier::external_type_specification]
#[verifier::external_body]
pub struct ExTokenError(jsonwebtoken::errors::Error);

/// The claim section of a token.
#[derive(Debug, Clone, Copy, PartialEq, Eq, Structural)]
pub struct TokenBody {
    /// Identity of the account that the token was issued to.
    pub user_id: u64,
    /// Instant, in seconds since the Unix epoch, after which the token is
    /// no longer accepted.
    pub expiration: u64,
}

/// The secret that tokens are signed and checked with.
///
/// It is made once, when the program starts, and handed to every function
/// that issues or checks a token.
pub struct Keys {
    secret: Vec<u8>,
}

impl View for Keys {
    type V = Seq<u8>;

    closed spec fn view(&self) -> Seq<u8> {
        self.secret@
    }
}

impl Keys {
    /// Makes the keys from the secret.
    pub fn new(secret: &[u8]) -> (keys: Keys)
        ensures
            keys@ == secret@,
    {
        Keys { secret: vstd::slice::slice_to_vec(secret) }
    }
}

/// The token that signing two claims with the secret gives, as HS256 under
/// the default header: the claim named `claim`, with the value `value`, and
/// the claim `exp`. `None` where signing fails.
pub uninterp spec fn signed_claims(
    secret: Seq<u8>,
    claim: Seq<char>,
    value: u64,
    expiration: u64,
) -> Option<Seq<char>>;

/// What a token holds that is well formed and signed with the secret: the
/// claim named `claim` and the claim `exp`, each where it is there as an
/// unsigned integer. `None` where the token is malformed, signed otherwise,
/// or without an `exp` claim.
pub uninterp spec fn signed_content(secret: Seq<u8>, claim: Seq<char>, token: Seq<char>) -> Option<
    (Option<u64>, Option<u64>),
>;

/// The token that is issued to `user_id` with the given expiration; `None`
/// where signing fails.
pub open spec fn signed_token(secret: Seq<u8>, user_id: u64, expiration: u64) -> Option<
    Seq<char>,
> {
    signed_claims(secret, USER_CLAIM@, user_id, expiration)
}

/// The claims of a token that is signed with the secret and holds both.
pub open spec fn token_body(secret: Seq<u8>, token: Seq<char>) -> Option<TokenBody> {
    match signed_content(secret, USER_CLAIM@, token) {
        Some((Some(user_id), Some(expiration))) => Some(TokenBody { user_id, expiration }),
        _ => None,
    }
}

/// Whether a token is accepted at the instant `now`: it is signed with the
/// secret, holds both claims, and its expiration is not in the past.
pub open spec fn token_valid_at(secret: Seq<u8>, token: Seq<char>, now: u64) -> bool {
    match token_body(secret, token) {
        Some(body) => now <= body.expiration,
        None => false,
    }
}

/// Whether a token carries the claims of one issued to `user_id` at the
/// instant `issued_at`.
pub open spec fn issued_to(secret: Seq<u8>, token: Seq<char>, user_id: u64, issued_at: u64) -> bool {
    issued_at + VALIDITY_SECONDS <= u64::MAX && token_body(secret, token) == Some(
        TokenBody { user_id, expiration: (issued_at + VALIDITY_SECONDS) as u64 },
    )
}

/// The token that is made of the header, the claims and the signature, with
/// a dot between each two.
pub open spec fn joined(claims: Seq<char>, signature: Seq<char>) -> Seq<char> {
    TOKEN_HEADER@ + seq!['.'] + claims + seq!['.'] + signature
}

/// Whether a token is three parts with a dot between each two: the header
/// of HS256, the claims, and a signature of `SIGNATURE_LENGTH` characters.
pub open spec fn three_parts(token: Seq<char>) -> bool {
    exists|claims: Seq<char>, signature: Seq<char>|
        {
            &&& #[trigger] joined(claims, signature) == token
            &&& !claims.contains('.')
            &&& !signature.contains('.')
            &&& signature.len() == SIGNATURE_LENGTH
        }
}

/// The text of the token that a signing gave; `None` where it failed.
pub open spec fn token_text(signed: Result<String, jsonwebtoken::errors::Error>) -> Option<
    Seq<char>,
> {
    match signed {
        Ok(token) => Some(token@),
        Err(_) => None,
    }
}

/// Whether `token` is what issuing a token to `user_id` at the instant `now`
/// gives: the outcome of signing the identity and the expiration, one day
/// after `now`, with the secret. It is a token of three parts that carries
/// the claims of one issued to `user_id` at `now`.
pub open spec fn token_created(
    secret: Seq<u8>,
    user_id: u64,
    now: u64,
    token: Option<Seq<char>>,
) -> bool {
    &&& now + VALIDITY_SECONDS <= u64::MAX
    &&& token == signed_token(secret, user_id, (now + VALIDITY_SECONDS) as u64)
    &&& token matches Some(text) && three_parts(text) && issued_to(secret, text, user_id, now)
}

/// Whether `accepted` is what checking the token at the instant `now`
/// gives, `now` being an instant that a day can be added to.
pub open spec fn token_checked(secret: Seq<u8>, token: Seq<char>, now: u64, accepted: bool) -> bool {
    &&& now + VALIDITY_SECONDS <= u64::MAX
    &&& accepted == token_valid_at(secret, token, now)
}

/// Calls `Utc::now` of `chrono` and hands back its `timestamp`. Nothing is
/// claimed of the result: it is the time of day.
#[verifier::external_body]
fn unix_time() -> (seconds: i64) {
    chrono::Utc::now().timestamp()
}

/// Calls `encode` of `jsonwebtoken` with the default header, the claim
/// named `claim` and the claim `exp`, and a key made from the secret. The
/// contract names the outcome `signed_claims`, a function of the arguments
/// alone, and claims that a token so made decodes, under the same secret,
/// to the claims it was made from: `decode` signs the message again,
/// compares the signatures and reads the claims back. It claims too that
/// signing succeeds, as signing with a secret under HS256 always does, and
/// that the token is the header, the claims and the signature in base 64,
/// joined by dots. Left out is a claim that is itself named `exp`: the map
/// of claims would hold it once.
#[verifier::external_body]
fn encode_claims(claim: &str, value: u64, expiration: u64, secret: &[u8]) -> (r: Result<
    String,
    jsonwebtoken::errors::Error,
>)
    requires
        claim@ != "exp"@,
    ensures
        signed_claims(secret@, claim@, value, expiration) == (match r {
            Ok(token) => Some(token@),
            Err(_) => None,
        }),
        r matches Ok(token) ==> signed_content(secret@, claim@, token@) == Some(
            (Some(value), Some(expiration)),
        ),
        r is Ok,
        r matches Ok(token) ==> three_parts(token@),
{
    let mut claims = BTreeMap::new();
    claims.insert(claim, value);
    claims.insert("exp", expiration);
    jsonwebtoken::encode(&Header::default(), &claims, &EncodingKey::from_secret(secret))
}

/// Calls `decode` of `jsonwebtoken` with a key made from the secret and the
/// default validation, but for the check of the expiration against the
/// clock, which is switched off. The contract names the outcome
/// `signed_content`, a function of the arguments alone: the claim named
/// `claim` and the claim `exp` are picked from what was decoded, each where
/// it is an unsigned integer.
#[verifier::external_body]
fn decode_claims(claim: &str, token: &str, secret: &[u8]) -> (r: Result<
    (Option<u64>, Option<u64>),
    jsonwebtoken::errors::Error,
>)
    ensures
        signed_content(secret@, claim@, token@) == (match r {
            Ok(content) => Some(content),
            Err(_) => None,
        }),
{
    let mut validation = Validation::default();
    validation.validate_exp = false;
    let key = DecodingKey::from_secret(secret);
    let claims = jsonwebtoken::decode::<serde_json::Value>(token, &key, &validation)?.claims;
    Ok((claims.get(claim).and_then(|v| v.as_u64()), claims.get("exp").and_then(|v| v.as_u64())))
}

/// The current time, in seconds since the Unix epoch, as the machine's
/// clock reads it. The clock gives no reading before the epoch; a negative
/// number of seconds, were one given, would count as the epoch.
pub fn current_time() -> (now: u64)
    ensures
        now + VALIDITY_SECONDS <= u64::MAX,
{
    let seconds = unix_time();
    if seconds < 0 {
        0
    } else {
        seconds as u64
    }
}

/// Creates a token for the given user that was issued at the instant `now`
/// and expires `VALIDITY_SECONDS` later.
///
/// Signing with a secret does not fail: the result is always a token.
pub fn create_token_at(user_id: u64, keys: &Keys, now: u64) -> (r: Result<
    String,
    jsonwebtoken::errors::Error,
>)
    requires
        now + VALIDITY_SECONDS <= u64::MAX,
    ensures
        signed_token(keys@, user_id, (now + VALIDITY_SECONDS) as u64) == (match r {
            Ok(token) => Some(token@),
            Err(_) => None,
        }),
        r matches Ok(token) && three_parts(token@) && issued_to(keys@, token@, user_id, now),
{
    proof {
        reveal_strlit("user_id");
        reveal_strlit("exp");
        assert(USER_CLAIM@.len() != "exp"@.len());
    }
    encode_claims(USER_CLAIM, user_id, now + VALIDITY_SECONDS, keys.secret.as_slice())
}

/// Creates a token for the given user that expires one day from now.
///
/// The result is what `create_token_at` gives at the instant that the clock
/// reads. Signing with a secret does not fail: the result is always a
/// token.
pub fn create_token(user_id: u64, keys: &Keys) -> (r: Result<String, jsonwebtoken::errors::Error>)
    ensures
        r is Ok,
        exists|now: u64| #[trigger] token_created(keys@, user_id, now, token_text(r)),
{
    let now = current_time();
    let r = create_token_at(user_id, keys, now);
    proof {
        assert(token_created(keys@, user_id, now, token_text(r)));
    }
    r
}

/// Reads the claims of a token that is signed with these keys.
///
/// Returns `None` for a token that is malformed, signed with another
/// secret, or short of a claim.
pub fn read_token(token: &str, keys: &Keys) -> (r: Option<TokenBody>)
    ensures
        r == token_body(keys@, token@),
{
    match decode_claims(USER_CLAIM, token, keys.secret.as_slice()) {
        Ok((Some(user_id), Some(expiration))) => Some(TokenBody { user_id, expiration }),
        _ => None,
    }
}

/// Checks if the token is signed with these keys and has not expired at the
/// instant `now`.
pub fn check_token_at(token: &str, keys: &Keys, now: u64) -> (r: bool)
    ensures
        r == token_valid_at(keys@, token@, now),
{
    match read_token(token, keys) {
        Some(body) => now <= body.expiration,
        None => false,
    }
}

/// Checks if the token is signed with these keys and has not expired.
///
/// The result is what `check_token_at` gives at the instant that the clock
/// reads. So a token that is not signed with these keys, or short of a
/// claim, is rejected whatever the clock reads.
pub fn check_token(token: &str, keys: &Keys) -> (r: bool)
    ensures
        exists|now: u64| #[trigger] token_checked(keys@, token@, now, r),
        token_body(keys@, token@) is None ==> !r,
{
    let now = current_time();
    let r = check_token_at(token, keys, now);
    proof {
        assert(token_checked(keys@, token@, now, r));
    }
    r
}

/// A token is accepted at every instant up to its expiration: one issued at
/// `issued_at` is valid at `now` exactly when `now` is no later than
/// `issued_at + VALIDITY_SECONDS`.
pub proof fn lemma_issued_token_valid_until_expiration(
    secret: Seq<u8>,
    token: Seq<char>,
    user_id: u64,
    issued_at: u64,
    now: u64,
)
    requires
        issued_to(secret, token, user_id, issued_at),
    ensures
        token_valid_at(secret, token, now) <==> now <= issued_at + VALIDITY_SECONDS,
{
}

/// A token presented after its expiration instant is rejected, whatever
/// else it holds.
pub proof fn lemma_expired_token_rejected(secret: Seq<u8>, token: Seq<char>, now: u64)
    requires
        token_body(secret, token) matches Some(body) && body.expiration < now,
    ensures
        !token_valid_at(secret, token, now),
{
}

/// A token that does not decode under the secret is rejected at every
/// instant.
pub proof fn lemma_unsigned_token_rejected(secret: Seq<u8>, token: Seq<char>, now: u64)
    requires
        signed_content(secret, USER_CLAIM@, token) is None,
    ensures
        !token_valid_at(secret, token, now),
{
}

} // verus!
