use vstd::prelude::*;

use crate::data::User;
use crate::error::Error;
use crate::role::{role_label, Role};

verus! {

/// Seconds a freshly issued token stays valid.
pub const TOKEN_LIFETIME_SECS: i64 = 600;

/// The decoded payload of a bearer token.
#[derive(Debug, Clone, PartialEq, Eq)]
pub struct Claims {
    /// The id of the user the token was issued to.
    pub sub: i32,
    /// The label of the granted role.
    pub role: String,
    /// Expiry, in seconds since the Unix epoch.
    pub exp: u64,
}

impl View for Claims {
    type V = (i32, Seq<char>, u64);

    open spec fn view(&self) -> (i32, Seq<char>, u64) {
        (self.sub, self.role@, self.exp)
    }
}

/// The claims that an HS512 token yields under a secret, or `None` when its
/// signature, algorithm or layout is rejected or a claim is missing. Expiry
/// is not part of it.
pub uninterp spec fn hs512_claims(token: Seq<char>, secret: Seq<u8>) -> Option<(i32, Seq<char>, u64)>;

/// Relies on `jsonwebtoken::encode` with an HS512 header and an HMAC key made
/// from `secret`: the claims travel as a JSON object with the fields `sub`,
/// `role` and `exp`, so that `jsonwebtoken::decode` under the same secret and
/// algorithm reads the same claims back. `encode` cannot fail here: the
/// key's family matches HS512, a JSON object always serializes, and HMAC
/// signing accepts any key; `None` would stand for its error.
#[verifier::external_body]
fn sign_claims(claims: &Claims, secret: &[u8]) -> (r: Option<String>)
    ensures
        r is Some,
        r matches Some(t) ==> hs512_claims(t@, secret@) == Some(claims@),
{
    let mut body = serde_json::Map::new();
    body.insert("sub".to_string(), serde_json::Value::from(claims.sub));
    body.insert("role".to_string(), serde_json::Value::from(claims.role.clone()));
    body.insert("exp".to_string(), serde_json::Value::from(claims.exp));
    let header = jsonwebtoken::Header::new(jsonwebtoken::Algorithm::HS512);
    jsonwebtoken::encode(&header, &body, &jsonwebtoken::EncodingKey::from_secret(secret)).ok()
}

/// Relies on `jsonwebtoken::decode` with HS512 as the only accepted
/// algorithm, an HMAC key made from `secret`, and the expiry check left to
/// the caller: the outcome depends on the token and the secret alone. The
/// payload's `sub`, `role` and `exp` are read as a 32-bit integer, a string
/// and an unsigned integer; a payload without them is rejected like a bad
/// signature.
#[verifier::external_body]
fn read_claims(token: &str, secret: &[u8]) -> (r: Option<Claims>)
    ensures
        match hs512_claims(token@, secret@) {
            Some(c) => r matches Some(d) && d@ == c,
            None => r is None,
        },
{
    let mut validation = jsonwebtoken::Validation::new(jsonwebtoken::Algorithm::HS512);
    validation.validate_exp = false;
    let key = jsonwebtoken::DecodingKey::from_secret(secret);
    let body = jsonwebtoken::decode::<serde_json::Map<String, serde_json::Value>>(token, &key, &validation).ok()?.claims;
    Some(Claims {
        sub: i32::try_from(body.get("sub")?.as_i64()?).ok()?,
        role: body.get("role")?.as_str()?.to_string(),
        exp: body.get("exp")?.as_u64()?,
    })
}

/// Relies on `chrono::Utc::now`: the current time in whole seconds since the
/// Unix epoch. Nothing is known of the value.
#[verifier::external_body]
pub(crate) fn now_seconds() -> (r: i64) {
    chrono::Utc::now().timestamp()
}

/// The claims a token carries at time `now`: those of a well-signed token
/// whose expiry has not passed.
pub open spec fn claims_at(token: Seq<char>, secret: Seq<u8>, now: int) -> Option<(i32, Seq<char>, u64)> {
    match hs512_claims(token, secret) {
        Some(c) => if now <= c.2 {
            Some(c)
        } else {
            None
        },
        None => None,
    }
}

/// A token issued at `issued_at` for `sub` with `role` verifies, up to and
/// including its expiry `TOKEN_LIFETIME_SECS` later, to the same subject and
/// role, and fails at every later time.
pub proof fn lemma_issued_token_verifies(
    token: Seq<char>,
    secret: Seq<u8>,
    sub: i32,
    role: Role,
    issued_at: int,
    now: int,
)
    requires
        0 <= issued_at + TOKEN_LIFETIME_SECS <= u64::MAX,
        hs512_claims(token, secret) == Some((sub, role_label(role), (issued_at + TOKEN_LIFETIME_SECS) as u64)),
    ensures
        now <= issued_at + TOKEN_LIFETIME_SECS ==> claims_at(token, secret, now) == Some(
            (sub, role_label(role), (issued_at + TOKEN_LIFETIME_SECS) as u64),
        ),
        now > issued_at + TOKEN_LIFETIME_SECS ==> claims_at(token, secret, now) is None,
{
}

/// The bytes of the text `secret`, which tokens are signed with unless
/// another secret is supplied.
pub open spec fn default_secret_bytes() -> Seq<u8> {
    seq![115u8, 101u8, 99u8, 114u8, 101u8, 116u8]
}

pub fn default_secret() -> (r: Vec<u8>)
    ensures
        r@ == default_secret_bytes(),
{
    vec![115u8, 101u8, 99u8, 114u8, 101u8, 116u8]
}

/// Verifies a token at time `now`. Every failure, a bad signature, another
/// algorithm, a malformed token or a passed expiry, is the same error.
pub fn verify_token(token: &str, secret: &[u8], now: i64) -> (r: Result<Claims, Error>)
    ensures
        match claims_at(token@, secret@, now as int) {
            Some(c) => r matches Ok(d) && d@ == c,
            None => r == Err::<Claims, Error>(Error::JWTTokenError),
        },
{
    match read_claims(token, secret) {
        Some(c) => {
            if (now as i128) <= (c.exp as i128) {
                Ok(c)
            } else {
                Err(Error::JWTTokenError)
            }
        },
        None => Err(Error::JWTTokenError),
    }
}

/// Issues a token for user `sub` with `role` at time `now`, expiring
/// exactly `TOKEN_LIFETIME_SECS` later. It fails only where that expiry
/// would fall before the Unix epoch.
pub fn create_token_at(sub: i32, role: Role, now: i64, secret: &[u8]) -> (r: Result<String, Error>)
    ensures
        now + TOKEN_LIFETIME_SECS < 0 ==> r == Err::<String, Error>(Error::JWTTokenCreationError),
        now + TOKEN_LIFETIME_SECS >= 0 ==> r is Ok,
        r matches Err(e) ==> e == Error::JWTTokenCreationError,
        r matches Ok(t) ==> hs512_claims(t@, secret@) == Some(
            (sub, role_label(role), (now + TOKEN_LIFETIME_SECS) as u64),
        ),
        r matches Ok(t) ==> forall|later: int|
            #[trigger] claims_at(t@, secret@, later) == if later <= now + TOKEN_LIFETIME_SECS {
                Some((sub, role_label(role), (now + TOKEN_LIFETIME_SECS) as u64))
            } else {
                None
            },
{
    if now < -TOKEN_LIFETIME_SECS {
        return Err(Error::JWTTokenCreationError);
    }
    let exp = (now as i128 + TOKEN_LIFETIME_SECS as i128) as u64;
    let claims = Claims { sub, role: role.as_str().to_owned(), exp };
    match sign_claims(&claims, secret) {
        Some(t) => {
            proof {
                assert forall|later: int|
                    #[trigger] claims_at(t@, secret@, later) == if later <= now + TOKEN_LIFETIME_SECS {
                        Some((sub, role_label(role), (now + TOKEN_LIFETIME_SECS) as u64))
                    } else {
                        None
                    } by {
                    lemma_issued_token_verifies(t@, secret@, sub, role, now as int, later);
                }
            }
            Ok(t)
        },
        None => Err(Error::JWTTokenCreationError),
    }
}

/// Issues a token for `user` with `role` under the default secret, at the
/// current time.
pub fn create_token(user: &User, role: Role) -> (r: Result<String, Error>)
    ensures
        r matches Err(e) ==> e == Error::JWTTokenCreationError,
        r matches Ok(t) ==> hs512_claims(t@, default_secret_bytes()) matches Some(c) && c.0 == user.id
            && c.1 == role_label(role),
{
    let secret = default_secret();
    let now = now_seconds();
    create_token_at(user.id, role, now, secret.as_slice())
}

} // verus!
