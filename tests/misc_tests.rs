use task_tracker::argument::{Cli as TmCli, Command as TmCommand, Direction, Order, Resource as TmResource};
use task_tracker::cli::{trim_newline, Command, Error as CliError, Resource};
use task_tracker::data::Pageable;
use task_tracker::error::{handle_rejection, Error, Rejection};
use task_tracker::query::{find_projects, find_tasks, find_users, get_select_query};

fn page(limit: Option<usize>, offset: Option<usize>, order_by: Option<&str>, direction: Option<&str>) -> Pageable {
    Pageable {
        limit,
        offset,
        order_by: order_by.map(|s| s.to_string()),
        direction: direction.map(|s| s.to_string()),
    }
}

#[test]
fn select_query_defaults() {
    assert_eq!(
        get_select_query("id,title", "tasks", "WHERE user_id = $1", page(None, None, None, None)),
        "SELECT id,title  FROM tasks WHERE user_id = $1 ORDER BY id ASC LIMIT 10 OFFSET 0"
    );
}

#[test]
fn select_query_given_values() {
    assert_eq!(
        get_select_query("a", "t", "", page(Some(25), Some(1234), Some("title"), Some("DESC"))),
        "SELECT a  FROM t  ORDER BY title DESC LIMIT 25 OFFSET 1234"
    );
    assert_eq!(
        get_select_query("a", "t", "", page(Some(0), Some(usize::MAX), None, None)),
        format!("SELECT a  FROM t  ORDER BY id ASC LIMIT 0 OFFSET {}", usize::MAX)
    );
}

#[test]
fn listing_queries() {
    assert_eq!(
        find_tasks(page(None, None, None, None)),
        "SELECT id,title,description,user_id,project_id,created_at  FROM tasks WHERE user_id = $1 ORDER BY id ASC LIMIT 10 OFFSET 0"
    );
    assert_eq!(
        find_projects(page(Some(5), None, None, None)),
        "SELECT p.id,p.title,p.description,p.created_at  FROM projects p JOIN users_projects up ON p.id = up.project_id WHERE up.user_id = $1 ORDER BY id ASC LIMIT 5 OFFSET 0"
    );
    assert_eq!(
        find_users(page(None, Some(20), None, None)),
        "SELECT id,first_name,last_name,email,pwd,enabled,created_at  FROM app_users  ORDER BY id ASC LIMIT 10 OFFSET 20"
    );
}

#[test]
fn rejection_replies() {
    let cases: Vec<(Rejection, u16, &str)> = vec![
        (Rejection::NotFound, 404, "Not Found"),
        (Rejection::InvalidBody, 400, "Invalid Body"),
        (Rejection::MethodNotAllowed, 405, "Method Not Allowed"),
        (Rejection::Unhandled, 500, "Internal Server Error"),
        (Rejection::App(Error::DBQueryError("syntax error at SELECT".to_string())), 400, "Could not Execute request"),
        (Rejection::App(Error::WrongCredentialsError), 400, "Credentials not valid."),
        (Rejection::App(Error::JWTTokenCreationError), 500, "Internal Server Error"),
        (Rejection::App(Error::NoAuthHeaderError), 401, "Unauthorized"),
        (Rejection::App(Error::InvalidAuthHeaderError), 401, "Unauthorized"),
        (Rejection::App(Error::NoPermissionError), 403, "Forbidden"),
        (Rejection::App(Error::JWTTokenError), 401, "Unauthorized"),
        (Rejection::App(Error::UserNotEnabledError), 400, "User not enabled"),
        (Rejection::App(Error::DBPoolError("timeout".to_string())), 500, "Internal Server Error"),
        (Rejection::App(Error::EncryptPasswordError), 500, "Internal Server Error"),
        (Rejection::App(Error::VerifyPasswordError), 500, "Internal Server Error"),
        (Rejection::App(Error::NotificationError), 500, "Internal Server Error"),
        (Rejection::App(Error::ReadFileError("x".to_string())), 500, "Internal Server Error"),
        (Rejection::App(Error::DBInitError("x".to_string())), 500, "Internal Server Error"),
        (Rejection::App(Error::DBInitErrorTest), 500, "Internal Server Error"),
    ];
    for (r, status, message) in cases {
        let reply = handle_rejection(&r);
        assert_eq!(reply.status, status);
        assert_eq!(reply.message, message);
    }
}

#[test]
fn trims_line_endings() {
    let cases = [
        ("abc\n", "abc"),
        ("abc\r\n", "abc"),
        ("abc", "abc"),
        ("abc\r", "abc\r"),
        ("\n", ""),
        ("\r\n", ""),
        ("", ""),
        ("a\n\n", "a\n"),
        ("пароль\r\n", "пароль"),
    ];
    for (input, expected) in cases {
        let mut s = input.to_string();
        trim_newline(&mut s);
        assert_eq!(s, expected);
    }
}

#[test]
fn parses_commands_and_resources() {
    assert_eq!(Command::from_str("create"), Ok(Command::Create));
    assert_eq!(Command::from_str("delete"), Ok(Command::Delete));
    assert_eq!(Command::from_str("get"), Ok(Command::Get));
    assert_eq!(Command::from_str("login"), Ok(Command::Login));
    assert_eq!(Command::from_str("Get"), Err(CliError::ParseArgumentsError));
    assert_eq!(Resource::from_str("task"), Ok(Resource::Task));
    assert_eq!(Resource::from_str("project"), Ok(Resource::Project));
    assert_eq!(Resource::from_str("user"), Ok(Resource::User));
    assert_eq!(Resource::from_str("tasks"), Err(CliError::ParseArgumentsError));
    assert_eq!(CliError::ParseArgumentsError.message(), "You write wrong parameters.");
}

#[test]
fn listing_arguments_become_pageable() {
    let cli = TmCli {
        command: TmCommand::Get,
        resource: Some(TmResource::Tasks),
        offset: Some(5),
        limit: None,
        order: Some(Order::Title),
        direction: Some(Direction::Desc),
    };
    let p = cli.pageable();
    assert_eq!(p, page(None, Some(5), Some("title"), Some("DESC")));
    let bare = TmCli { order: None, direction: Some(Direction::Asc), ..cli };
    assert_eq!(bare.pageable(), page(None, Some(5), None, Some("ASC")));
    assert_eq!(Order::Id.as_str(), "id");
    assert_eq!(Direction::Asc.as_str(), "ASC");
}

#[test]
fn user_lookup_query() {
    assert_eq!(
        task_tracker::query::find_user_by_email(),
        "SELECT id,first_name,last_name,email,pwd,enabled,created_at FROM app_users WHERE email = $1"
    );
    assert_eq!(task_tracker::query::decimal_text(0), "0");
    assert_eq!(task_tracker::query::decimal_text(1907), "1907");
}
