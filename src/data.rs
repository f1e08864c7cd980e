use vstd::prelude::*;

verus! {

/// Paging and ordering of a listing. Unset fields take the defaults of the
/// query builder.
#[derive(Debug, Clone, PartialEq, Eq)]
pub struct Pageable {
    pub limit: Option<usize>,
    pub offset: Option<usize>,
    pub order_by: Option<String>,
    pub direction: Option<String>,
}

/// A task; visible to its creator `user_id` only. Times are seconds since
/// the Unix epoch.
#[derive(Debug, Clone, PartialEq, Eq)]
pub struct Task {
    pub id: i32,
    pub title: String,
    pub description: Option<String>,
    pub user_id: i32,
    pub project_id: Option<i32>,
    pub created_at: i64,
}

#[derive(Debug, Clone, PartialEq, Eq)]
pub struct TaskRequest {
    pub title: String,
    pub description: Option<String>,
    pub project_id: Option<i32>,
}

/// A stored user. `pwd` is the password hash: it is never sent out.
#[derive(Debug, Clone, PartialEq, Eq)]
pub struct User {
    pub id: i32,
    pub first_name: Option<String>,
    pub last_name: Option<String>,
    pub email: Option<String>,
    pub pwd: String,
    pub enabled: bool,
    pub created_at: i64,
}

/// What a user looks like from outside: everything but the password hash.
#[derive(Debug, Clone, PartialEq, Eq)]
pub struct UserDto {
    pub id: i32,
    pub first_name: Option<String>,
    pub last_name: Option<String>,
    pub email: Option<String>,
    pub enabled: bool,
    pub created_at: i64,
}

/// A registration.
#[derive(Debug, Clone, PartialEq, Eq)]
pub struct UserRequest {
    pub first_name: Option<String>,
    pub last_name: Option<String>,
    pub email: Option<String>,
    pub pwd: String,
}

#[derive(Debug, Clone, PartialEq, Eq)]
pub struct Project {
    pub id: i32,
    pub title: String,
    pub description: Option<String>,
    pub created_at: i64,
}

#[derive(Debug, Clone, PartialEq, Eq)]
pub struct ProjectRequest {
    pub title: String,
    pub description: Option<String>,
}

#[derive(Debug, Clone, PartialEq, Eq)]
pub struct LoginRequest {
    pub email: String,
    pub pwd: String,
}

#[derive(Debug, Clone, PartialEq, Eq)]
pub struct LoginResponse {
    pub token: String,
}

/// The one-time value that proves control of a new user's email address.
#[derive(Debug, Clone, PartialEq, Eq)]
pub struct VerificationToken {
    pub id: i32,
    pub user_id: i32,
    pub token: String,
    pub expiry_date: i64,
}

impl User {
    /// The outward view of the user, without the password hash.
    pub fn to_dto(&self) -> (r: UserDto)
        ensures
            r.id == self.id,
            r.first_name == self.first_name,
            r.last_name == self.last_name,
            r.email == self.email,
            r.enabled == self.enabled,
            r.created_at == self.created_at,
    {
        UserDto {
            id: self.id,
            first_name: copy_opt(&self.first_name),
            last_name: copy_opt(&self.last_name),
            email: copy_opt(&self.email),
            enabled: self.enabled,
            created_at: self.created_at,
        }
    }
}

/// A copy of an optional text.
pub fn copy_opt(s: &Option<String>) -> (r: Option<String>)
    ensures
        r == *s,
{
    match s {
        Some(t) => Some(t.clone()),
        None => None,
    }
}

} // verus!
