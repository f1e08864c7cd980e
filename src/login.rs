use vstd::prelude::*;

use crate::data::{LoginResponse, User};
use crate::error::Error;
use crate::password::{bcrypt_verdict, check_password};
use crate::role::{role_label, Role};
use crate::token::{create_token_at, default_secret, default_secret_bytes, hs512_claims, now_seconds, TOKEN_LIFETIME_SECS};

verus! {

/// The role `login_now` grants. The store keeps no role per user, so every
/// login is granted the administrator role, which the user listing needs;
/// a store that records roles passes each user's own role to `login`.
pub open spec fn login_role() -> Role {
    Role::Admin
}

/// Logs in the user found under the given email (`None`: no such user) with
/// password `pwd`, at time `now`, granting `role`. An unknown email and a
/// wrong password give the same error; a user not yet enabled is refused
/// whatever the password.
pub fn login(user: Option<&User>, pwd: &str, role: Role, secret: &[u8], now: i64) -> (r: Result<LoginResponse, Error>)
    ensures
        user is None ==> r == Err::<LoginResponse, Error>(Error::WrongCredentialsError),
        user matches Some(u) ==> (!u.enabled ==> r == Err::<LoginResponse, Error>(Error::UserNotEnabledError)),
        user matches Some(u) ==> (u.enabled ==> match bcrypt_verdict(pwd@, u.pwd@) {
            None => r == Err::<LoginResponse, Error>(Error::VerifyPasswordError),
            Some(false) => r == Err::<LoginResponse, Error>(Error::WrongCredentialsError),
            Some(true) => {
                &&& now + TOKEN_LIFETIME_SECS < 0 ==> r == Err::<LoginResponse, Error>(Error::JWTTokenCreationError)
                &&& now + TOKEN_LIFETIME_SECS >= 0 ==> r is Ok
                &&& r matches Err(e) ==> e == Error::JWTTokenCreationError
                &&& r matches Ok(resp) ==> hs512_claims(resp.token@, secret@) == Some(
                    (u.id, role_label(role), (now + TOKEN_LIFETIME_SECS) as u64),
                )
            },
        }),
{
    let u = match user {
        None => return Err(Error::WrongCredentialsError),
        Some(u) => u,
    };
    if !u.enabled {
        return Err(Error::UserNotEnabledError);
    }
    match check_password(pwd, u.pwd.as_str()) {
        Err(e) => Err(e),
        Ok(false) => Err(Error::WrongCredentialsError),
        Ok(true) => match create_token_at(u.id, role, now, secret) {
            Ok(token) => Ok(LoginResponse { token }),
            Err(e) => Err(e),
        },
    }
}

/// `login` under the default secret at the current time, granting
/// `login_role()`.
pub fn login_now(user: Option<&User>, pwd: &str) -> (r: Result<LoginResponse, Error>)
    ensures
        user is None ==> r == Err::<LoginResponse, Error>(Error::WrongCredentialsError),
        user matches Some(u) ==> (!u.enabled ==> r == Err::<LoginResponse, Error>(Error::UserNotEnabledError)),
        user matches Some(u) ==> (u.enabled ==> match bcrypt_verdict(pwd@, u.pwd@) {
            None => r == Err::<LoginResponse, Error>(Error::VerifyPasswordError),
            Some(false) => r == Err::<LoginResponse, Error>(Error::WrongCredentialsError),
            Some(true) => {
                &&& r matches Err(e) ==> e == Error::JWTTokenCreationError
                &&& r matches Ok(resp) ==> hs512_claims(resp.token@, default_secret_bytes()) matches Some(c)
                    && c.0 == u.id && c.1 == role_label(login_role())
            },
        }),
{
    let secret = default_secret();
    let now = now_seconds();
    login(user, pwd, Role::Admin, secret.as_slice(), now)
}

} // verus!
