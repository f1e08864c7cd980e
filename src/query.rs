use vstd::prelude::*;

use crate::data::Pageable;

verus! {

pub open spec fn digit_char(d: nat) -> char
    recommends
        d < 10,
{
    seq!['0', '1', '2', '3', '4', '5', '6', '7', '8', '9'][d as int]
}

/// The decimal numeral of `n`, without sign or leading zeros.
pub open spec fn decimal(n: nat) -> Seq<char>
    decreases n,
{
    if n < 10 {
        seq![digit_char(n)]
    } else {
        decimal(n / 10).push(digit_char(n % 10))
    }
}

/// The one-character text of a decimal digit.
fn digit_text(d: usize) -> (r: &'static str)
    requires
        d < 10,
    ensures
        r@ == seq![digit_char(d as nat)],
{
    let digits = "0123456789";
    proof {
        reveal_strlit("0123456789");
        assert(digits@ =~= seq!['0', '1', '2', '3', '4', '5', '6', '7', '8', '9']);
    }
    let r = digits.substring_char(d, d + 1);
    assert(r@ =~= seq![digit_char(d as nat)]);
    r
}

/// The decimal numeral of `n`.
pub fn decimal_text(n: usize) -> (r: String)
    ensures
        r@ == decimal(n as nat),
    decreases n,
{
    if n < 10 {
        digit_text(n).to_owned()
    } else {
        let mut s = decimal_text(n / 10);
        s.append(digit_text(n % 10));
        assert(s@ =~= decimal(n as nat));
        s
    }
}

pub const DEFAULT_LIMIT: usize = 10;

pub const DEFAULT_OFFSET: usize = 0;

pub open spec fn opt_text(s: Option<String>, default: Seq<char>) -> Seq<char> {
    match s {
        Some(t) => t@,
        None => default,
    }
}

pub open spec fn opt_num(n: Option<usize>, default: usize) -> nat {
    match n {
        Some(v) => v as nat,
        None => default as nat,
    }
}

/// A paged listing: the ordering column and direction, limit and offset
/// come from `pageable`, or are `id`, `ASC`, 10 and 0 when unset. They are
/// written into the text as given.
pub open spec fn select_query(fields: Seq<char>, table: Seq<char>, where_clause: Seq<char>, pageable: Pageable) -> Seq<char> {
    "SELECT "@ + fields + "  FROM "@ + table + " "@ + where_clause + " ORDER BY "@
        + opt_text(pageable.order_by, "id"@) + " "@ + opt_text(pageable.direction, "ASC"@)
        + " LIMIT "@ + decimal(opt_num(pageable.limit, DEFAULT_LIMIT)) + " OFFSET "@
        + decimal(opt_num(pageable.offset, DEFAULT_OFFSET))
}

pub fn get_select_query(select_fields: &str, table_name: &str, where_clause: &str, pageable: Pageable) -> (r: String)
    ensures
        r@ == select_query(select_fields@, table_name@, where_clause@, pageable),
{
    let mut q = String::new();
    q.append("SELECT ");
    q.append(select_fields);
    q.append("  FROM ");
    q.append(table_name);
    q.append(" ");
    q.append(where_clause);
    q.append(" ORDER BY ");
    match &pageable.order_by {
        Some(o) => q.append(o.as_str()),
        None => q.append("id"),
    }
    q.append(" ");
    match &pageable.direction {
        Some(d) => q.append(d.as_str()),
        None => q.append("ASC"),
    }
    q.append(" LIMIT ");
    let limit = match pageable.limit {
        Some(l) => l,
        None => DEFAULT_LIMIT,
    };
    q.append(decimal_text(limit).as_str());
    q.append(" OFFSET ");
    let offset = match pageable.offset {
        Some(o) => o,
        None => DEFAULT_OFFSET,
    };
    q.append(decimal_text(offset).as_str());
    assert(q@ =~= select_query(select_fields@, table_name@, where_clause@, pageable));
    q
}

/// The page of users, all users visible.
pub fn find_users(pageable: Pageable) -> (r: String)
    ensures
        r@ == select_query("id,first_name,last_name,email,pwd,enabled,created_at"@, "app_users"@, ""@, pageable),
{
    get_select_query("id,first_name,last_name,email,pwd,enabled,created_at", "app_users", "", pageable)
}

/// The page of the tasks that user `$1` created.
pub fn find_tasks(pageable: Pageable) -> (r: String)
    ensures
        r@ == select_query(
            "id,title,description,user_id,project_id,created_at"@,
            "tasks"@,
            "WHERE user_id = $1"@,
            pageable,
        ),
{
    get_select_query("id,title,description,user_id,project_id,created_at", "tasks", "WHERE user_id = $1", pageable)
}

/// The page of the projects that user `$1` is linked to.
pub fn find_projects(pageable: Pageable) -> (r: String)
    ensures
        r@ == select_query(
            "p.id,p.title,p.description,p.created_at"@,
            "projects p JOIN users_projects up ON p.id = up.project_id"@,
            "WHERE up.user_id = $1"@,
            pageable,
        ),
{
    get_select_query(
        "p.id,p.title,p.description,p.created_at",
        "projects p JOIN users_projects up ON p.id = up.project_id",
        "WHERE up.user_id = $1",
        pageable,
    )
}

/// The lookup of a user by email, for login.
pub fn find_user_by_email() -> (r: &'static str)
    ensures
        r@ == "SELECT id,first_name,last_name,email,pwd,enabled,created_at FROM app_users WHERE email = $1"@,
{
    "SELECT id,first_name,last_name,email,pwd,enabled,created_at FROM app_users WHERE email = $1"
}

} // verus!
