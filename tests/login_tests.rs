use task_tracker::data::User;
use task_tracker::error::Error;
use task_tracker::login::{login, login_now};
use task_tracker::password::{check_password, hash_password};
use task_tracker::role::Role;
use task_tracker::token::verify_token;

const SECRET: &[u8] = b"secret";

fn user(enabled: bool, pwd: &str) -> User {
    User {
        id: 9,
        first_name: Some("Ada".to_string()),
        last_name: None,
        email: Some("a@b.com".to_string()),
        pwd: hash_password(pwd).unwrap(),
        enabled,
        created_at: 0,
    }
}

#[test]
fn hashed_password_checks_out() {
    let h = hash_password("secret").unwrap();
    assert_ne!(h, "secret");
    assert_eq!(check_password("secret", &h), Ok(true));
    assert_eq!(check_password("Secret", &h), Ok(false));
    assert_eq!(check_password("", &h), Ok(false));
}

#[test]
fn malformed_digest_is_a_verify_error() {
    assert_eq!(check_password("secret", "not a digest"), Err(Error::VerifyPasswordError));
    assert_eq!(check_password("secret", ""), Err(Error::VerifyPasswordError));
}

#[test]
fn login_unknown_email_is_wrong_credentials() {
    assert_eq!(login(None, "secret", Role::Admin, SECRET, 1_000), Err(Error::WrongCredentialsError));
}

#[test]
fn login_disabled_user_fails_whatever_the_password() {
    let u = user(false, "secret");
    assert_eq!(login(Some(&u), "secret", Role::Admin, SECRET, 1_000), Err(Error::UserNotEnabledError));
    assert_eq!(login(Some(&u), "wrong", Role::Admin, SECRET, 1_000), Err(Error::UserNotEnabledError));
    assert_eq!(login_now(Some(&u), "secret"), Err(Error::UserNotEnabledError));
}

#[test]
fn login_wrong_password_is_wrong_credentials() {
    let u = user(true, "secret");
    assert_eq!(login(Some(&u), "wrong", Role::Admin, SECRET, 1_000), Err(Error::WrongCredentialsError));
}

#[test]
fn login_broken_digest_is_verify_error() {
    let mut u = user(true, "secret");
    u.pwd = "garbage".to_string();
    assert_eq!(login(Some(&u), "secret", Role::Admin, SECRET, 1_000), Err(Error::VerifyPasswordError));
}

#[test]
fn login_issues_token_for_the_user() {
    let u = user(true, "secret");
    let resp = login(Some(&u), "secret", Role::Admin, SECRET, 1_000).unwrap();
    let c = verify_token(&resp.token, SECRET, 1_600).unwrap();
    assert_eq!(c.sub, 9);
    assert_eq!(c.role, "Admin");
    assert_eq!(c.exp, 1_600);
    assert_eq!(verify_token(&resp.token, SECRET, 1_601), Err(Error::JWTTokenError));
    assert!(login_now(Some(&u), "secret").is_ok());
}

#[test]
fn dto_leaves_out_the_hash() {
    let u = user(true, "secret");
    let d = u.to_dto();
    assert_eq!(d.id, 9);
    assert_eq!(d.email, Some("a@b.com".to_string()));
    assert_eq!(d.first_name, Some("Ada".to_string()));
    assert!(d.enabled);
}

#[test]
fn login_grants_the_given_role() {
    let u = user(true, "secret");
    let resp = login(Some(&u), "secret", Role::User, SECRET, 50).unwrap();
    let c = verify_token(&resp.token, SECRET, 60).unwrap();
    assert_eq!(c.role, "User");
    assert_eq!(c.exp, 650);
    assert_eq!(login(Some(&u), "secret", Role::User, SECRET, -601), Err(Error::JWTTokenCreationError));
}
