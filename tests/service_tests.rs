use task_tracker::data::{Project, ProjectRequest, Task, TaskRequest, UserRequest};
use task_tracker::error::Error;
use task_tracker::password::check_password;
use task_tracker::service::{
    create_project, create_task, created_task, delete_project, delete_task, register_user, DbReply, Operation,
    Phase, Statement, Transaction, TxAction, TxOutput, VERIFICATION_LIFETIME_SECS, verification_token_text,
};

fn ok() -> Result<DbReply, String> {
    Ok(DbReply::empty())
}

fn inserted(id: i32, created_at: i64) -> Result<DbReply, String> {
    Ok(DbReply { id, created_at, affected: 1 })
}

fn alpha() -> ProjectRequest {
    ProjectRequest { title: "Alpha".to_string(), description: None }
}

#[test]
fn create_project_commits_project_and_link() {
    let (tx, a) = create_project(alpha(), 7);
    assert_eq!(a, TxAction::Begin);
    let (tx, a) = tx.step(ok());
    assert_eq!(a, TxAction::Execute(Statement::InsertProject { title: "Alpha".to_string(), description: None }));
    let (tx, a) = tx.step(inserted(12, 500));
    assert_eq!(a, TxAction::Execute(Statement::InsertUserProject { user_id: 7, project_id: 12 }));
    let (tx, a) = tx.step(inserted(0, 0));
    assert_eq!(a, TxAction::Commit);
    let (tx, a) = tx.step(ok());
    assert_eq!(a, TxAction::Done);
    let p = Project { id: 12, title: "Alpha".to_string(), description: None, created_at: 500 };
    assert_eq!(tx.phase, Phase::Done(Ok(TxOutput::Project(p))));
}

#[test]
fn create_project_rolls_back_when_link_collides() {
    let (tx, _) = create_project(alpha(), 7);
    let (tx, _) = tx.step(ok());
    let (tx, _) = tx.step(inserted(3, 500));
    let (tx, a) = tx.step(Err("duplicate key value violates unique constraint".to_string()));
    assert_eq!(a, TxAction::Rollback);
    let (tx, a) = tx.step(ok());
    assert_eq!(a, TxAction::Done);
    assert_eq!(
        tx.phase,
        Phase::Done(Err(Error::DBQueryError("duplicate key value violates unique constraint".to_string())))
    );
}

#[test]
fn create_project_rolls_back_when_insert_fails() {
    let (tx, _) = create_project(alpha(), 7);
    let (tx, _) = tx.step(ok());
    let (tx, a) = tx.step(Err("null value".to_string()));
    assert_eq!(a, TxAction::Rollback);
    let (tx, _) = tx.step(ok());
    assert_eq!(tx.phase, Phase::Done(Err(Error::DBQueryError("null value".to_string()))));
}

#[test]
fn failed_begin_commit_or_rollback_is_reported() {
    let (tx, _) = create_project(alpha(), 7);
    let (tx, a) = tx.step(Err("no connection".to_string()));
    assert_eq!(a, TxAction::Done);
    assert_eq!(tx.phase, Phase::Done(Err(Error::DBQueryError("no connection".to_string()))));

    let (tx, _) = delete_project(3, 7);
    let (tx, _) = tx.step(ok());
    let (tx, _) = tx.step(inserted(0, 0));
    let (tx, _) = tx.step(inserted(0, 0));
    let (tx, a) = tx.step(Err("commit".to_string()));
    assert_eq!(a, TxAction::Done);
    assert_eq!(tx.phase, Phase::Done(Err(Error::DBQueryError("commit".to_string()))));

    let (tx, _) = delete_project(3, 7);
    let (tx, _) = tx.step(ok());
    let (tx, _) = tx.step(Err("first".to_string()));
    let (tx, _) = tx.step(Err("rollback".to_string()));
    assert_eq!(tx.phase, Phase::Done(Err(Error::DBQueryError("rollback".to_string()))));
}

#[test]
fn delete_project_removes_link_then_project() {
    let (tx, a) = delete_project(3, 7);
    assert_eq!(a, TxAction::Begin);
    let (tx, a) = tx.step(ok());
    assert_eq!(a, TxAction::Execute(Statement::DeleteUserProject { user_id: 7, project_id: 3 }));
    let (tx, a) = tx.step(Ok(DbReply { id: 0, created_at: 0, affected: 1 }));
    assert_eq!(a, TxAction::Execute(Statement::DeleteProject { project_id: 3 }));
    let (tx, a) = tx.step(Ok(DbReply { id: 0, created_at: 0, affected: 1 }));
    assert_eq!(a, TxAction::Commit);
    let (tx, a) = tx.step(ok());
    assert_eq!(a, TxAction::Done);
    assert_eq!(tx.phase, Phase::Done(Ok(TxOutput::Deleted(1))));
    let (tx, a) = tx.step(ok());
    assert_eq!(a, TxAction::Done);
    assert_eq!(tx.phase, Phase::Done(Ok(TxOutput::Deleted(1))));
}

#[test]
fn registration_creates_disabled_user_with_token() {
    let req = UserRequest {
        first_name: None,
        last_name: None,
        email: Some("a@b.com".to_string()),
        pwd: "secret".to_string(),
    };
    let (tx, a) = register_user(req, "tok-123".to_string(), 10_000).unwrap();
    assert_eq!(a, TxAction::Begin);
    let hash = match &tx.op {
        Operation::RegisterUser { pwd_hash, .. } => pwd_hash.clone(),
        _ => panic!("not a registration"),
    };
    assert_eq!(check_password("secret", &hash), Ok(true));
    let (tx, a) = tx.step(ok());
    assert_eq!(
        a,
        TxAction::Execute(Statement::InsertUser {
            first_name: None,
            last_name: None,
            email: Some("a@b.com".to_string()),
            pwd: hash.clone(),
            created_at: 10_000,
        })
    );
    let (tx, a) = tx.step(inserted(21, 10_000));
    assert_eq!(
        a,
        TxAction::Execute(Statement::InsertVerificationToken {
            user_id: 21,
            token: "tok-123".to_string(),
            expiry_date: 11_800,
        })
    );
    let (tx, _) = tx.step(inserted(4, 11_800));
    let (tx, a) = tx.step(ok());
    assert_eq!(a, TxAction::Done);
    match tx.phase {
        Phase::Done(Ok(TxOutput::Registered(u, t))) => {
            assert_eq!(u.id, 21);
            assert!(!u.enabled);
            assert_eq!(u.email, Some("a@b.com".to_string()));
            assert_eq!(u.pwd, hash);
            assert_eq!(t.id, 4);
            assert_eq!(t.user_id, 21);
            assert_eq!(t.token, "tok-123");
            assert_eq!(t.expiry_date, u.created_at + 30 * 60);
            assert_eq!(VERIFICATION_LIFETIME_SECS, 1800);
        }
        other => panic!("unexpected {:?}", other),
    }
}

#[test]
fn registration_token_insert_failure_rolls_back() {
    let req = UserRequest { first_name: None, last_name: None, email: None, pwd: "pw".to_string() };
    let (tx, _) = register_user(req, "t".to_string(), 0).unwrap();
    let (tx, _) = tx.step(ok());
    let (tx, _) = tx.step(inserted(1, 0));
    let (tx, a) = tx.step(Err("fk".to_string()));
    assert_eq!(a, TxAction::Rollback);
    let (tx, _) = tx.step(ok());
    assert_eq!(tx.phase, Phase::Done(Err(Error::DBQueryError("fk".to_string()))));
}

#[test]
fn task_statements() {
    let req = TaskRequest { title: "T".to_string(), description: Some("d".to_string()), project_id: Some(3) };
    assert_eq!(
        create_task(&req, 7),
        Statement::InsertTask { title: "T".to_string(), description: Some("d".to_string()), user_id: 7, project_id: Some(3) }
    );
    assert_eq!(
        created_task(&req, 7, DbReply { id: 8, created_at: 99, affected: 1 }),
        Task { id: 8, title: "T".to_string(), description: Some("d".to_string()), user_id: 7, project_id: Some(3), created_at: 99 }
    );
    assert_eq!(delete_task(8, 7), Statement::DeleteTask { task_id: 8, user_id: 7 });
    assert_eq!(delete_task(8, 7).sql(), "DELETE FROM tasks WHERE id = $1 AND user_id = $2");
}

#[test]
fn statement_texts() {
    assert_eq!(
        Statement::InsertUserProject { user_id: 1, project_id: 2 }.sql(),
        "INSERT INTO users_projects (user_id,project_id) VALUES ($1,$2)"
    );
    assert_eq!(Statement::DeleteProject { project_id: 2 }.sql(), "DELETE FROM projects WHERE id = $1");
    assert_eq!(
        Statement::DeleteUserProject { user_id: 1, project_id: 2 }.sql(),
        "DELETE FROM users_projects WHERE user_id = $1 AND project_id= $2"
    );
    let t = Transaction::start(Operation::DeleteProject { project_id: 1, user_id: 2 });
    assert_eq!(t.0.phase, Phase::Begin);
}

#[test]
fn verification_token_text_is_hex_of_bytes() {
    assert_eq!(verification_token_text(&vec![0x00, 0x9f, 0xa5, 0xff]), "009fa5ff");
    assert_eq!(verification_token_text(&vec![]), "");
    assert_eq!(verification_token_text(&vec![7u8; 16]).len(), 32);
}
