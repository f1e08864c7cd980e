use vstd::prelude::*;

use crate::data::{copy_opt, Project, ProjectRequest, Task, TaskRequest, User, UserRequest, VerificationToken};
use crate::error::Error;
use crate::password::{bcrypt_verdict, hash_password};

verus! {

/// Seconds a verification token stays valid after registration.
pub const VERIFICATION_LIFETIME_SECS: i64 = 1800;

/// One statement against the backing store, with its parameters. Times are
/// seconds since the Unix epoch.
#[derive(Debug, Clone, PartialEq, Eq)]
pub enum Statement {
    InsertProject { title: String, description: Option<String> },
    InsertUserProject { user_id: i32, project_id: i32 },
    DeleteUserProject { user_id: i32, project_id: i32 },
    DeleteProject { project_id: i32 },
    InsertUser {
        first_name: Option<String>,
        last_name: Option<String>,
        email: Option<String>,
        pwd: String,
        created_at: i64,
    },
    InsertVerificationToken { user_id: i32, token: String, expiry_date: i64 },
    InsertTask { title: String, description: Option<String>, user_id: i32, project_id: Option<i32> },
    DeleteTask { task_id: i32, user_id: i32 },
}

/// The text of a statement; `$1`, `$2`, ... stand for its parameters in
/// the order the variant lists them. An insert returns the generated id
/// and the creation time of the new row.
pub open spec fn statement_sql(s: Statement) -> Seq<char> {
    match s {
        Statement::InsertProject { .. } =>
            "INSERT INTO projects (title,description) VALUES ($1,$2) RETURNING id, CAST(EXTRACT(EPOCH FROM created_at) AS BIGINT)"@,
        Statement::InsertUserProject { .. } =>
            "INSERT INTO users_projects (user_id,project_id) VALUES ($1,$2)"@,
        Statement::DeleteUserProject { .. } =>
            "DELETE FROM users_projects WHERE user_id = $1 AND project_id= $2"@,
        Statement::DeleteProject { .. } => "DELETE FROM projects WHERE id = $1"@,
        Statement::InsertUser { .. } =>
            "INSERT INTO app_users (first_name,last_name,email,pwd,created_at) VALUES ($1,$2,$3,$4,to_timestamp(CAST($5 AS BIGINT))) RETURNING id, CAST(EXTRACT(EPOCH FROM created_at) AS BIGINT)"@,
        Statement::InsertVerificationToken { .. } =>
            "INSERT INTO verification_tokens (user_id,token,expiry_date) VALUES ($1,$2,to_timestamp(CAST($3 AS BIGINT))) RETURNING id, CAST(EXTRACT(EPOCH FROM expiry_date) AS BIGINT)"@,
        Statement::InsertTask { .. } =>
            "INSERT INTO tasks (title,description,user_id,project_id) VALUES ($1,$2,$3,$4) RETURNING id, CAST(EXTRACT(EPOCH FROM created_at) AS BIGINT)"@,
        Statement::DeleteTask { .. } => "DELETE FROM tasks WHERE id = $1 AND user_id = $2"@,
    }
}

impl Statement {
    /// The statement's text.
    pub fn sql(&self) -> (r: &'static str)
        ensures
            r@ == statement_sql(*self),
    {
        match self {
            Statement::InsertProject { .. } =>
                "INSERT INTO projects (title,description) VALUES ($1,$2) RETURNING id, CAST(EXTRACT(EPOCH FROM created_at) AS BIGINT)",
            Statement::InsertUserProject { .. } =>
                "INSERT INTO users_projects (user_id,project_id) VALUES ($1,$2)",
            Statement::DeleteUserProject { .. } =>
                "DELETE FROM users_projects WHERE user_id = $1 AND project_id= $2",
            Statement::DeleteProject { .. } => "DELETE FROM projects WHERE id = $1",
            Statement::InsertUser { .. } =>
                "INSERT INTO app_users (first_name,last_name,email,pwd,created_at) VALUES ($1,$2,$3,$4,to_timestamp(CAST($5 AS BIGINT))) RETURNING id, CAST(EXTRACT(EPOCH FROM created_at) AS BIGINT)",
            Statement::InsertVerificationToken { .. } =>
                "INSERT INTO verification_tokens (user_id,token,expiry_date) VALUES ($1,$2,to_timestamp(CAST($3 AS BIGINT))) RETURNING id, CAST(EXTRACT(EPOCH FROM expiry_date) AS BIGINT)",
            Statement::InsertTask { .. } =>
                "INSERT INTO tasks (title,description,user_id,project_id) VALUES ($1,$2,$3,$4) RETURNING id, CAST(EXTRACT(EPOCH FROM created_at) AS BIGINT)",
            Statement::DeleteTask { .. } => "DELETE FROM tasks WHERE id = $1 AND user_id = $2",
        }
    }
}

/// The store's answer to a step that succeeded: the generated id and
/// creation time of an inserted row, and the number of rows touched.
#[derive(Debug, Clone, Copy, PartialEq, Eq, Structural)]
pub struct DbReply {
    pub id: i32,
    pub created_at: i64,
    pub affected: u64,
}

impl DbReply {
    /// The answer to a step that returns nothing: begin, commit, rollback.
    pub fn empty() -> (r: DbReply)
        ensures
            r == empty_reply(),
    {
        DbReply { id: 0, created_at: 0, affected: 0 }
    }
}

pub open spec fn empty_reply() -> DbReply {
    DbReply { id: 0, created_at: 0, affected: 0 }
}

/// A write that touches two tables and must commit whole or not at all.
#[derive(Debug, Clone, PartialEq, Eq)]
pub enum Operation {
    /// Insert a project, then link it to its owner.
    CreateProject { request: ProjectRequest, owner_id: i32 },
    /// Remove the caller's link to a project, then the project itself.
    DeleteProject { project_id: i32, user_id: i32 },
    /// Insert a user, not yet enabled, then its verification token.
    RegisterUser { request: UserRequest, pwd_hash: String, token: String, now: i64 },
}

/// What a finished operation hands back.
#[derive(Debug, Clone, PartialEq, Eq)]
pub enum TxOutput {
    Project(Project),
    Deleted(u64),
    Registered(User, VerificationToken),
}

/// Where a transaction stands: which answer of the store it waits for.
#[derive(Debug, PartialEq, Eq)]
pub enum Phase {
    Begin,
    First,
    Second(DbReply),
    Commit(DbReply, DbReply),
    /// Rolling back; the error is what will be reported once that is done.
    Rollback(Error),
    Done(Result<TxOutput, Error>),
}

/// What the runner has to do next.
#[derive(Debug, Clone, PartialEq, Eq)]
pub enum TxAction {
    Begin,
    Execute(Statement),
    Commit,
    Rollback,
    /// The transaction is over; its outcome is in its phase.
    Done,
}

/// A running transaction. The runner performs each action against the store
/// and hands the answer back to `step`, until the action is `Done`.
#[derive(Debug, PartialEq, Eq)]
pub struct Transaction {
    pub op: Operation,
    pub phase: Phase,
}

pub open spec fn first_statement(op: Operation) -> Statement {
    match op {
        Operation::CreateProject { request, owner_id } => Statement::InsertProject {
            title: request.title,
            description: request.description,
        },
        Operation::DeleteProject { project_id, user_id } => Statement::DeleteUserProject {
            user_id,
            project_id,
        },
        Operation::RegisterUser { request, pwd_hash, token, now } => Statement::InsertUser {
            first_name: request.first_name,
            last_name: request.last_name,
            email: request.email,
            pwd: pwd_hash,
            created_at: now,
        },
    }
}

pub open spec fn second_statement(op: Operation, first: DbReply) -> Statement {
    match op {
        Operation::CreateProject { request, owner_id } => Statement::InsertUserProject {
            user_id: owner_id,
            project_id: first.id,
        },
        Operation::DeleteProject { project_id, user_id } => Statement::DeleteProject { project_id },
        Operation::RegisterUser { request, pwd_hash, token, now } => Statement::InsertVerificationToken {
            user_id: first.id,
            token,
            expiry_date: (now + VERIFICATION_LIFETIME_SECS) as i64,
        },
    }
}

pub open spec fn output(op: Operation, first: DbReply, second: DbReply) -> TxOutput {
    match op {
        Operation::CreateProject { request, owner_id } => TxOutput::Project(
            Project {
                id: first.id,
                title: request.title,
                description: request.description,
                created_at: first.created_at,
            },
        ),
        Operation::DeleteProject { .. } => TxOutput::Deleted(second.affected),
        Operation::RegisterUser { request, pwd_hash, token, now } => TxOutput::Registered(
            User {
                id: first.id,
                first_name: request.first_name,
                last_name: request.last_name,
                email: request.email,
                pwd: pwd_hash,
                enabled: false,
                created_at: now,
            },
            VerificationToken {
                id: second.id,
                user_id: first.id,
                token,
                expiry_date: (now + VERIFICATION_LIFETIME_SECS) as i64,
            },
        ),
    }
}

/// An operation is well formed when its times stay within range.
pub open spec fn op_wf(op: Operation) -> bool {
    match op {
        Operation::RegisterUser { now, .. } => now <= i64::MAX - VERIFICATION_LIFETIME_SECS,
        _ => true,
    }
}

pub open spec fn finish(tx: Transaction, res: Result<TxOutput, Error>) -> (Transaction, TxAction) {
    (Transaction { op: tx.op, phase: Phase::Done(res) }, TxAction::Done)
}

pub open spec fn query_failed(e: String) -> Error {
    Error::DBQueryError(e)
}

/// One transition: the store answered `event` to the action last asked for.
/// A failed statement is rolled back before its error is reported; a failed
/// begin, commit or rollback is reported as it is.
pub open spec fn next(tx: Transaction, event: Result<DbReply, String>) -> (Transaction, TxAction) {
    match tx.phase {
        Phase::Begin => match event {
            Ok(_) => (Transaction { op: tx.op, phase: Phase::First }, TxAction::Execute(first_statement(tx.op))),
            Err(e) => finish(tx, Err(query_failed(e))),
        },
        Phase::First => match event {
            Ok(r) => (
                Transaction { op: tx.op, phase: Phase::Second(r) },
                TxAction::Execute(second_statement(tx.op, r)),
            ),
            Err(e) => (Transaction { op: tx.op, phase: Phase::Rollback(query_failed(e)) }, TxAction::Rollback),
        },
        Phase::Second(first) => match event {
            Ok(r) => (Transaction { op: tx.op, phase: Phase::Commit(first, r) }, TxAction::Commit),
            Err(e) => (Transaction { op: tx.op, phase: Phase::Rollback(query_failed(e)) }, TxAction::Rollback),
        },
        Phase::Commit(first, second) => match event {
            Ok(_) => finish(tx, Ok(output(tx.op, first, second))),
            Err(e) => finish(tx, Err(query_failed(e))),
        },
        Phase::Rollback(pending) => match event {
            Ok(_) => finish(tx, Err(pending)),
            Err(e) => finish(tx, Err(query_failed(e))),
        },
        Phase::Done(_) => (tx, TxAction::Done),
    }
}

fn copy_request(r: &ProjectRequest) -> (c: ProjectRequest)
    ensures
        c == *r,
{
    ProjectRequest { title: r.title.clone(), description: copy_opt(&r.description) }
}

fn copy_user_request(r: &UserRequest) -> (c: UserRequest)
    ensures
        c == *r,
{
    UserRequest {
        first_name: copy_opt(&r.first_name),
        last_name: copy_opt(&r.last_name),
        email: copy_opt(&r.email),
        pwd: r.pwd.clone(),
    }
}

fn copy_error(e: &Error) -> (c: Error)
    ensures
        c == *e,
{
    match e {
        Error::DBPoolError(s) => Error::DBPoolError(s.clone()),
        Error::DBQueryError(s) => Error::DBQueryError(s.clone()),
        Error::DBInitError(s) => Error::DBInitError(s.clone()),
        Error::DBInitErrorTest => Error::DBInitErrorTest,
        Error::EncryptPasswordError => Error::EncryptPasswordError,
        Error::VerifyPasswordError => Error::VerifyPasswordError,
        Error::ReadFileError(s) => Error::ReadFileError(s.clone()),
        Error::WrongCredentialsError => Error::WrongCredentialsError,
        Error::JWTTokenError => Error::JWTTokenError,
        Error::JWTTokenCreationError => Error::JWTTokenCreationError,
        Error::NoAuthHeaderError => Error::NoAuthHeaderError,
        Error::InvalidAuthHeaderError => Error::InvalidAuthHeaderError,
        Error::NoPermissionError => Error::NoPermissionError,
        Error::UserNotEnabledError => Error::UserNotEnabledError,
        Error::NotificationError => Error::NotificationError,
    }
}

fn make_first_statement(op: &Operation) -> (s: Statement)
    ensures
        s == first_statement(*op),
{
    match op {
        Operation::CreateProject { request, .. } => Statement::InsertProject {
            title: request.title.clone(),
            description: copy_opt(&request.description),
        },
        Operation::DeleteProject { project_id, user_id } => Statement::DeleteUserProject {
            user_id: *user_id,
            project_id: *project_id,
        },
        Operation::RegisterUser { request, pwd_hash, now, .. } => Statement::InsertUser {
            first_name: copy_opt(&request.first_name),
            last_name: copy_opt(&request.last_name),
            email: copy_opt(&request.email),
            pwd: pwd_hash.clone(),
            created_at: *now,
        },
    }
}

/// The link row that makes `user_id` a member of `project_id`.
pub fn create_user_project_reference(user_id: i32, project_id: i32) -> (s: Statement)
    ensures
        s == (Statement::InsertUserProject { user_id, project_id }),
{
    Statement::InsertUserProject { user_id, project_id }
}

fn make_second_statement(op: &Operation, first: DbReply) -> (s: Statement)
    requires
        op_wf(*op),
    ensures
        s == second_statement(*op, first),
{
    match op {
        Operation::CreateProject { owner_id, .. } => create_user_project_reference(*owner_id, first.id),
        Operation::DeleteProject { project_id, .. } => Statement::DeleteProject { project_id: *project_id },
        Operation::RegisterUser { token, now, .. } => Statement::InsertVerificationToken {
            user_id: first.id,
            token: token.clone(),
            expiry_date: *now + VERIFICATION_LIFETIME_SECS,
        },
    }
}

fn make_output(op: &Operation, first: DbReply, second: DbReply) -> (o: TxOutput)
    requires
        op_wf(*op),
    ensures
        o == output(*op, first, second),
{
    match op {
        Operation::CreateProject { request, .. } => TxOutput::Project(
            Project {
                id: first.id,
                title: request.title.clone(),
                description: copy_opt(&request.description),
                created_at: first.created_at,
            },
        ),
        Operation::DeleteProject { .. } => TxOutput::Deleted(second.affected),
        Operation::RegisterUser { request, pwd_hash, token, now } => TxOutput::Registered(
            User {
                id: first.id,
                first_name: copy_opt(&request.first_name),
                last_name: copy_opt(&request.last_name),
                email: copy_opt(&request.email),
                pwd: pwd_hash.clone(),
                enabled: false,
                created_at: *now,
            },
            VerificationToken {
                id: second.id,
                user_id: first.id,
                token: token.clone(),
                expiry_date: *now + VERIFICATION_LIFETIME_SECS,
            },
        ),
    }
}

impl Transaction {
    /// Starts an operation: the first action is to open the transaction.
    pub fn start(op: Operation) -> (r: (Transaction, TxAction))
        ensures
            r.0 == (Transaction { op, phase: Phase::Begin }),
            r.1 == TxAction::Begin,
    {
        (Transaction { op, phase: Phase::Begin }, TxAction::Begin)
    }

    /// Feeds the store's answer to the last action and returns the
    /// transaction with the next action.
    pub fn step(self, event: Result<DbReply, String>) -> (r: (Transaction, TxAction))
        requires
            op_wf(self.op),
        ensures
            r == next(self, event),
            op_wf(r.0.op),
    {
        let op = self.op;
        match self.phase {
            Phase::Begin => match event {
                Ok(_) => {
                    let s = make_first_statement(&op);
                    (Transaction { op, phase: Phase::First }, TxAction::Execute(s))
                },
                Err(e) => (Transaction { op, phase: Phase::Done(Err(Error::DBQueryError(e))) }, TxAction::Done),
            },
            Phase::First => match event {
                Ok(r) => {
                    let s = make_second_statement(&op, r);
                    (Transaction { op, phase: Phase::Second(r) }, TxAction::Execute(s))
                },
                Err(e) => (Transaction { op, phase: Phase::Rollback(Error::DBQueryError(e)) }, TxAction::Rollback),
            },
            Phase::Second(first) => match event {
                Ok(r) => (Transaction { op, phase: Phase::Commit(first, r) }, TxAction::Commit),
                Err(e) => (Transaction { op, phase: Phase::Rollback(Error::DBQueryError(e)) }, TxAction::Rollback),
            },
            Phase::Commit(first, second) => match event {
                Ok(_) => {
                    let out = make_output(&op, first, second);
                    (Transaction { op, phase: Phase::Done(Ok(out)) }, TxAction::Done)
                },
                Err(e) => (Transaction { op, phase: Phase::Done(Err(Error::DBQueryError(e))) }, TxAction::Done),
            },
            Phase::Rollback(pending) => match event {
                Ok(_) => (Transaction { op, phase: Phase::Done(Err(pending)) }, TxAction::Done),
                Err(e) => (Transaction { op, phase: Phase::Done(Err(Error::DBQueryError(e))) }, TxAction::Done),
            },
            Phase::Done(res) => (Transaction { op, phase: Phase::Done(res) }, TxAction::Done),
        }
    }
}

/// Opens the creation of a project owned by `user_id`.
pub fn create_project(request: ProjectRequest, user_id: i32) -> (r: (Transaction, TxAction))
    ensures
        r.0 == (Transaction { op: Operation::CreateProject { request, owner_id: user_id }, phase: Phase::Begin }),
        r.1 == TxAction::Begin,
{
    Transaction::start(Operation::CreateProject { request, owner_id: user_id })
}

/// Opens the deletion of project `project_id` on behalf of `user_id`.
pub fn delete_project(project_id: i32, user_id: i32) -> (r: (Transaction, TxAction))
    ensures
        r.0 == (Transaction { op: Operation::DeleteProject { project_id, user_id }, phase: Phase::Begin }),
        r.1 == TxAction::Begin,
{
    Transaction::start(Operation::DeleteProject { project_id, user_id })
}

/// Opens the registration of a user at time `now`, with `token` as the
/// value of its verification token. The password is hashed first; when
/// that fails no transaction is opened.
pub fn register_user(request: UserRequest, token: String, now: i64) -> (r: Result<(Transaction, TxAction), Error>)
    requires
        now <= i64::MAX - VERIFICATION_LIFETIME_SECS,
    ensures
        r matches Err(e) ==> e == Error::EncryptPasswordError,
        r matches Ok(started) ==> {
            &&& started.1 == TxAction::Begin
            &&& started.0.phase == Phase::Begin
            &&& op_wf(started.0.op)
            &&& started.0.op matches Operation::RegisterUser { request: q, pwd_hash, token: t, now: n }
            &&& q == request && t == token && n == now
            &&& bcrypt_verdict(request.pwd@, pwd_hash@) == Some(true)
        },
{
    match hash_password(request.pwd.as_str()) {
        Err(e) => Err(e),
        Ok(pwd_hash) => Ok(Transaction::start(Operation::RegisterUser { request, pwd_hash, token, now })),
    }
}

pub open spec fn hex_char(d: nat) -> char
    recommends
        d < 16,
{
    seq!['0', '1', '2', '3', '4', '5', '6', '7', '8', '9', 'a', 'b', 'c', 'd', 'e', 'f'][d as int]
}

/// Two lowercase hexadecimal digits per byte, high digit first.
pub open spec fn hex_text(b: Seq<u8>) -> Seq<char>
    decreases b.len(),
{
    if b.len() == 0 {
        Seq::empty()
    } else {
        hex_text(b.drop_last()).push(hex_char(b.last() as nat / 16)).push(hex_char(b.last() as nat % 16))
    }
}

fn hex_digit(d: u8) -> (r: &'static str)
    requires
        d < 16,
    ensures
        r@ == seq![hex_char(d as nat)],
{
    let digits = "0123456789abcdef";
    proof {
        reveal_strlit("0123456789abcdef");
        assert(digits@ =~= seq!['0', '1', '2', '3', '4', '5', '6', '7', '8', '9', 'a', 'b', 'c', 'd', 'e', 'f']);
    }
    let r = digits.substring_char(d as usize, d as usize + 1);
    assert(r@ =~= seq![hex_char(d as nat)]);
    r
}

/// The text of a verification token made from random bytes: their
/// hexadecimal digits, two per byte.
pub fn verification_token_text(bytes: &Vec<u8>) -> (r: String)
    ensures
        r@ == hex_text(bytes@),
        r@.len() == 2 * bytes@.len(),
{
    let mut r = String::new();
    let mut i: usize = 0;
    while i < bytes.len()
        invariant
            i <= bytes@.len(),
            r@ == hex_text(bytes@.subrange(0, i as int)),
            r@.len() == 2 * i,
        decreases bytes@.len() - i,
    {
        let b = bytes[i];
        r.append(hex_digit(b / 16));
        r.append(hex_digit(b % 16));
        let ghost next = bytes@.subrange(0, i + 1);
        assert(next.drop_last() =~= bytes@.subrange(0, i as int));
        assert(next.last() == b);
        i = i + 1;
    }
    assert(bytes@.subrange(0, bytes@.len() as int) =~= bytes@);
    r
}

/// A registration that commits yields a user that is not yet enabled, that
/// keeps the password hash only, and whose verification token belongs to it
/// and expires exactly `VERIFICATION_LIFETIME_SECS` after its creation.
pub proof fn lemma_registration_output(
    request: UserRequest,
    pwd_hash: String,
    token: String,
    now: i64,
    first: DbReply,
    second: DbReply,
)
    requires
        now <= i64::MAX - VERIFICATION_LIFETIME_SECS,
    ensures
        output(Operation::RegisterUser { request, pwd_hash, token, now }, first, second) matches TxOutput::Registered(u, t)
            && !u.enabled && u.pwd == pwd_hash && u.email == request.email
            && t.user_id == u.id && t.token == token
            && t.expiry_date == u.created_at + VERIFICATION_LIFETIME_SECS,
{
}

/// The insert of a task created by `user_id`.
pub fn create_task(request: &TaskRequest, user_id: i32) -> (s: Statement)
    ensures
        s == (Statement::InsertTask {
            title: request.title,
            description: request.description,
            user_id,
            project_id: request.project_id,
        }),
{
    Statement::InsertTask {
        title: request.title.clone(),
        description: copy_opt(&request.description),
        user_id,
        project_id: request.project_id,
    }
}

/// The task that the insert of `create_task` created, from the store's answer.
pub fn created_task(request: &TaskRequest, user_id: i32, reply: DbReply) -> (t: Task)
    ensures
        t == (Task {
            id: reply.id,
            title: request.title,
            description: request.description,
            user_id,
            project_id: request.project_id,
            created_at: reply.created_at,
        }),
{
    Task {
        id: reply.id,
        title: request.title.clone(),
        description: copy_opt(&request.description),
        user_id,
        project_id: request.project_id,
        created_at: reply.created_at,
    }
}

/// The delete of a task; only its creator can remove it.
pub fn delete_task(task_id: i32, user_id: i32) -> (s: Statement)
    ensures
        s == (Statement::DeleteTask { task_id, user_id }),
{
    Statement::DeleteTask { task_id, user_id }
}

/// The part of the backing store that projects live in: project rows by
/// id, link rows, the ids of the stored users, the id the next project row
/// gets, and the store's clock.
pub struct StoreModel {
    pub projects: Map<i32, Project>,
    pub links: Set<(i32, i32)>,
    pub users: Set<i32>,
    pub next_id: i32,
    pub now: i64,
}

/// The effect of one statement on the store and the store's answer, or
/// `None` where the store refuses it: a link that already exists or that
/// names no project or no user, an exhausted id sequence. Statements on users are
/// outside this model and are refused.
pub open spec fn apply(s: StoreModel, st: Statement) -> Option<(StoreModel, DbReply)> {
    match st {
        Statement::InsertProject { title, description } => if s.next_id < i32::MAX {
            let p = Project { id: s.next_id, title, description, created_at: s.now };
            Some(
                (
                    StoreModel {
                        projects: s.projects.insert(s.next_id, p),
                        links: s.links,
                        users: s.users,
                        next_id: (s.next_id + 1) as i32,
                        now: s.now,
                    },
                    DbReply { id: s.next_id, created_at: s.now, affected: 1 },
                ),
            )
        } else {
            None
        },
        Statement::InsertUserProject { user_id, project_id } => if s.links.contains((user_id, project_id))
            || !s.projects.contains_key(project_id) || !s.users.contains(user_id) {
            None
        } else {
            Some(
                (
                    StoreModel {
                        projects: s.projects,
                        links: s.links.insert((user_id, project_id)),
                        users: s.users,
                        next_id: s.next_id,
                        now: s.now,
                    },
                    DbReply { id: 0, created_at: 0, affected: 1 },
                ),
            )
        },
        Statement::DeleteUserProject { user_id, project_id } => Some(
            (
                StoreModel {
                    projects: s.projects,
                    links: s.links.remove((user_id, project_id)),
                    users: s.users,
                    next_id: s.next_id,
                    now: s.now,
                },
                DbReply {
                    id: 0,
                    created_at: 0,
                    affected: if s.links.contains((user_id, project_id)) { 1 } else { 0 },
                },
            ),
        ),
        Statement::DeleteProject { project_id } => Some(
            (
                StoreModel {
                    projects: s.projects.remove(project_id),
                    links: s.links,
                    users: s.users,
                    next_id: s.next_id,
                    now: s.now,
                },
                DbReply {
                    id: 0,
                    created_at: 0,
                    affected: if s.projects.contains_key(project_id) { 1 } else { 0 },
                },
            ),
        ),
        _ => None,
    }
}

/// Runs a transaction against the store for at most `fuel` actions.
/// `committed` is what other sessions see; `working` is what this
/// transaction sees. Begin and rollback reset the working copy to the
/// committed one; commit publishes it.
pub open spec fn drive(
    tx: Transaction,
    action: TxAction,
    committed: StoreModel,
    working: StoreModel,
    fuel: nat,
) -> (Transaction, StoreModel)
    decreases fuel,
{
    if fuel == 0 {
        (tx, committed)
    } else {
        match action {
            TxAction::Done => (tx, committed),
            TxAction::Begin => {
                let n = next(tx, Ok(empty_reply()));
                drive(n.0, n.1, committed, committed, (fuel - 1) as nat)
            },
            TxAction::Execute(st) => match apply(working, st) {
                Some(done) => {
                    let n = next(tx, Ok(done.1));
                    drive(n.0, n.1, committed, done.0, (fuel - 1) as nat)
                },
                None => {
                    let n = next(tx, Err(arbitrary()));
                    drive(n.0, n.1, committed, working, (fuel - 1) as nat)
                },
            },
            TxAction::Commit => {
                let n = next(tx, Ok(empty_reply()));
                drive(n.0, n.1, working, working, (fuel - 1) as nat)
            },
            TxAction::Rollback => {
                let n = next(tx, Ok(empty_reply()));
                drive(n.0, n.1, committed, committed, (fuel - 1) as nat)
            },
        }
    }
}

/// Ids come from a sequence: every stored project has an id below the next
/// one handed out.
pub open spec fn store_wf(s: StoreModel) -> bool {
    forall|id: i32| #[trigger] s.projects.contains_key(id) ==> id < s.next_id
}

/// An operation run from its start against `store`; the result is the
/// finished transaction and the store that others see afterwards.
pub open spec fn run_op(op: Operation, store: StoreModel) -> (Transaction, StoreModel) {
    drive(Transaction { op, phase: Phase::Begin }, TxAction::Begin, store, store, 6)
}

/// Creating a project is all or nothing. It always finishes; on success the
/// store holds a new project row, under an id no project had, and the
/// owner's link to it, and nothing else has changed; on failure the store
/// is exactly as before. So when the owner is already linked to the id the
/// new project would get, or is no stored user, the call fails and no
/// project row is left behind.
pub proof fn lemma_create_project_all_or_nothing(store: StoreModel, request: ProjectRequest, owner_id: i32)
    requires
        store_wf(store),
    ensures
        run_op(Operation::CreateProject { request, owner_id }, store).0.phase is Done,
        run_op(Operation::CreateProject { request, owner_id }, store).0.phase matches Phase::Done(res)
            ==> (res matches Ok(out) ==> out matches TxOutput::Project(p) && {
            let after = run_op(Operation::CreateProject { request, owner_id }, store).1;
            &&& p.id == store.next_id
            &&& !store.projects.contains_key(p.id)
            &&& store_wf(after)
            &&& p.title == request.title
            &&& p.description == request.description
            &&& after.projects == store.projects.insert(p.id, p)
            &&& after.links == store.links.insert((owner_id, p.id))
        }),
        run_op(Operation::CreateProject { request, owner_id }, store).0.phase matches Phase::Done(res)
            ==> (res is Err ==> run_op(Operation::CreateProject { request, owner_id }, store).1 == store),
        store.links.contains((owner_id, store.next_id)) || !store.users.contains(owner_id) ==> {
            &&& run_op(Operation::CreateProject { request, owner_id }, store).0.phase matches Phase::Done(res) && res is Err
            &&& run_op(Operation::CreateProject { request, owner_id }, store).1 == store
        },
{
    reveal_with_fuel(drive, 7);
}

/// Deleting a project that the caller is linked to removes both the link
/// row and the project row, whoever else is linked to it: a later read of
/// the project finds nothing.
pub proof fn lemma_delete_project_removes_link_and_row(store: StoreModel, project_id: i32, user_id: i32)
    requires
        store.links.contains((user_id, project_id)),
    ensures
        run_op(Operation::DeleteProject { project_id, user_id }, store).0.phase == Phase::Done(
            Ok(TxOutput::Deleted(if store.projects.contains_key(project_id) { 1 } else { 0 })),
        ),
        !run_op(Operation::DeleteProject { project_id, user_id }, store).1.links.contains((user_id, project_id)),
        !run_op(Operation::DeleteProject { project_id, user_id }, store).1.projects.contains_key(project_id),
{
    reveal_with_fuel(drive, 7);
}

} // verus!
