use vstd::prelude::*;

verus! {

/// The role a bearer token grants.
#[derive(Clone, Copy, Debug, PartialEq, Eq, Structural)]
pub enum Role {
    User,
    Admin,
}

/// The label under which a role travels inside a token.
pub open spec fn role_label(r: Role) -> Seq<char> {
    match r {
        Role::User => "User"@,
        Role::Admin => "Admin"@,
    }
}

/// Reading a label back: only the exact text `Admin` grants the
/// administrator role; anything else is an ordinary user.
pub open spec fn role_of_label(s: Seq<char>) -> Role {
    if s == "Admin"@ {
        Role::Admin
    } else {
        Role::User
    }
}

/// A role satisfies a route's requirement when it is a member of the
/// route's set of accepted roles.
pub open spec fn role_permitted(required: Seq<Role>, r: Role) -> bool {
    required.contains(r)
}

impl Role {
    pub fn from_str(s: &str) -> (r: Role)
        ensures
            r == role_of_label(s@),
    {
        let admin = "Admin";
        proof {
            reveal_strlit("Admin");
        }
        if str_eq(s, admin) {
            Role::Admin
        } else {
            Role::User
        }
    }

    /// The label of the role, as written into a token.
    pub fn as_str(&self) -> (r: &'static str)
        ensures
            r@ == role_label(*self),
    {
        match self {
            Role::User => "User",
            Role::Admin => "Admin",
        }
    }
}

/// Character-wise equality of two string slices.
pub fn str_eq(a: &str, b: &str) -> (r: bool)
    ensures
        r == (a@ == b@),
{
    let n = a.unicode_len();
    if n != b.unicode_len() {
        return false;
    }
    let mut i: usize = 0;
    while i < n
        invariant
            n == a@.len(),
            n == b@.len(),
            i <= n,
            a@.subrange(0, i as int) == b@.subrange(0, i as int),
        decreases n - i,
    {
        if a.get_char(i) != b.get_char(i) {
            assert(a@[i as int] != b@[i as int]);
            return false;
        }
        assert(a@.subrange(0, i + 1) == a@.subrange(0, i as int).push(a@[i as int]));
        assert(b@.subrange(0, i + 1) == b@.subrange(0, i as int).push(b@[i as int]));
        i = i + 1;
    }
    assert(a@ == a@.subrange(0, n as int));
    assert(b@ == b@.subrange(0, n as int));
    true
}

/// Whether `role` is among the roles a route accepts.
pub fn is_permitted(required: &Vec<Role>, role: Role) -> (r: bool)
    ensures
        r == role_permitted(required@, role),
{
    let mut i: usize = 0;
    while i < required.len()
        invariant
            i <= required@.len(),
            forall|j: int| 0 <= j < i ==> required@[j] != role,
        decreases required@.len() - i,
    {
        if required[i] == role {
            assert(required@[i as int] == role);
            return true;
        }
        i = i + 1;
    }
    false
}

} // verus!
