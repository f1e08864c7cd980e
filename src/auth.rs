use vstd::prelude::*;

use crate::error::Error;
use crate::role::{role_of_label, role_permitted, str_eq, Role};
use crate::token::{claims_at, hs512_claims, default_secret, default_secret_bytes, now_seconds, verify_token};

verus! {

/// The scheme an authorization header must start with.
pub open spec fn bearer() -> Seq<char> {
    seq!['B', 'e', 'a', 'r', 'e', 'r', ' ']
}

pub open spec fn has_bearer_prefix(h: Seq<char>) -> bool {
    bearer().len() <= h.len() && h.subrange(0, bearer().len() as int) == bearer()
}

/// The token carried by an authorization header, if any: what follows the
/// scheme.
pub open spec fn header_token(header: Option<Seq<char>>) -> Result<Seq<char>, Error> {
    match header {
        None => Err(Error::NoAuthHeaderError),
        Some(h) => if has_bearer_prefix(h) {
            Ok(h.subrange(bearer().len() as int, h.len() as int))
        } else {
            Err(Error::InvalidAuthHeaderError)
        },
    }
}

pub open spec fn header_view(header: Option<&str>) -> Option<Seq<char>> {
    match header {
        Some(h) => Some(h@),
        None => None,
    }
}

/// The outcome of the filter for a request: the authenticated user id, or
/// the reason for turning the request away.
pub open spec fn authorization(
    header: Option<Seq<char>>,
    required: Seq<Role>,
    secret: Seq<u8>,
    now: int,
) -> Result<i32, Error> {
    match header_token(header) {
        Err(e) => Err(e),
        Ok(t) => match claims_at(t, secret, now) {
            None => Err(Error::JWTTokenError),
            Some(c) => if role_permitted(required, role_of_label(c.1)) {
                Ok(c.0)
            } else {
                Err(Error::NoPermissionError)
            },
        },
    }
}

/// Whether `s` starts with `p`.
pub fn starts_with(s: &str, p: &str) -> (r: bool)
    ensures
        r == (p@.len() <= s@.len() && s@.subrange(0, p@.len() as int) == p@),
{
    let n = p.unicode_len();
    if n > s.unicode_len() {
        return false;
    }
    str_eq(s.substring_char(0, n), p)
}

/// Extracts the bearer token from the authorization header: a missing
/// header and one without the scheme are told apart.
pub fn jwt_from_header(header: Option<&str>) -> (r: Result<String, Error>)
    ensures
        match header_token(header_view(header)) {
            Ok(t) => r matches Ok(s) && s@ == t,
            Err(e) => r == Err::<String, Error>(e),
        },
{
    let scheme = "Bearer ";
    proof {
        reveal_strlit("Bearer ");
        assert(scheme@ =~= bearer());
    }
    let h = match header {
        None => return Err(Error::NoAuthHeaderError),
        Some(h) => h,
    };
    if !starts_with(h, scheme) {
        return Err(Error::InvalidAuthHeaderError);
    }
    let rest = h.substring_char(7, h.unicode_len());
    Ok(rest.to_owned())
}

/// The filter's decision for a request carrying `header`, on a route that
/// accepts the roles in `required`, at time `now`.
pub fn authorize(header: Option<&str>, required: &Vec<Role>, secret: &[u8], now: i64) -> (r: Result<i32, Error>)
    ensures
        r == authorization(header_view(header), required@, secret@, now as int),
{
    let token = match jwt_from_header(header) {
        Ok(t) => t,
        Err(e) => return Err(e),
    };
    let claims = match verify_token(token.as_str(), secret, now) {
        Ok(c) => c,
        Err(e) => return Err(e),
    };
    let role = Role::from_str(claims.role.as_str());
    if crate::role::is_permitted(required, role) {
        Ok(claims.sub)
    } else {
        Err(Error::NoPermissionError)
    }
}

/// The filter as it runs on a request: the decision of `authorize` under
/// the default secret, taken at the current time.
pub fn with_auth(header: Option<&str>, required: &Vec<Role>) -> (r: Result<i32, Error>)
    ensures
        exists|now: i64| r == authorization(header_view(header), required@, default_secret_bytes(), now as int),
{
    let secret = default_secret();
    let now = now_seconds();
    authorize(header, required, secret.as_slice(), now)
}

/// The role gate: a route that accepts only administrators turns away a
/// valid token that carries the user role, with the permission error, and a
/// route that accepts users and administrators lets either through with the
/// token's subject.
pub proof fn lemma_role_gate(header: Seq<char>, secret: Seq<u8>, now: int, sub: i32, label: Seq<char>, exp: u64)
    requires
        header_token(Some(header)) matches Ok(t) && claims_at(t, secret, now) == Some((sub, label, exp)),
    ensures
        role_of_label(label) == Role::User ==> authorization(Some(header), seq![Role::Admin], secret, now)
            == Err::<i32, Error>(Error::NoPermissionError),
        role_of_label(label) == Role::Admin ==> authorization(Some(header), seq![Role::Admin], secret, now)
            == Ok::<i32, Error>(sub),
        authorization(Some(header), seq![Role::User, Role::Admin], secret, now) == Ok::<i32, Error>(sub),
{
    assert(seq![Role::Admin][0] == Role::Admin);
    assert(seq![Role::User, Role::Admin][0] == Role::User);
    assert(seq![Role::User, Role::Admin][1] == Role::Admin);
    if role_of_label(label) == Role::User {
        assert(!seq![Role::Admin].contains(Role::User));
    }
}

/// A header that carries an issued token after the scheme is accepted,
/// up to and including the token's expiry, exactly when the role in the
/// token is among the route's roles, and always with the token's subject;
/// after the expiry it is refused as an invalid token.
pub proof fn lemma_bearer_round_trip(
    token: Seq<char>,
    secret: Seq<u8>,
    required: Seq<Role>,
    now: int,
    sub: i32,
    label: Seq<char>,
    exp: u64,
)
    requires
        hs512_claims(token, secret) == Some((sub, label, exp)),
    ensures
        authorization(Some(bearer() + token), required, secret, now) == if now <= exp {
            if role_permitted(required, role_of_label(label)) {
                Ok::<i32, Error>(sub)
            } else {
                Err::<i32, Error>(Error::NoPermissionError)
            }
        } else {
            Err::<i32, Error>(Error::JWTTokenError)
        },
{
    let h = bearer() + token;
    assert(h.subrange(0, bearer().len() as int) =~= bearer());
    assert(h.subrange(bearer().len() as int, h.len() as int) =~= token);
}

} // verus!
