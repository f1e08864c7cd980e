//! The small client's arguments: a command and the resource it acts on,
//! given as words.
use vstd::prelude::*;

use crate::role::str_eq;

verus! {

/// A malformed command line.
#[derive(Debug, Clone, Copy, PartialEq, Eq, Structural)]
pub enum Error {
    ParseArgumentsError,
}

impl Error {
    /// The message shown to the user.
    pub fn message(&self) -> (r: &'static str)
        ensures
            r@ == "You write wrong parameters."@,
    {
        "You write wrong parameters."
    }
}

#[derive(Debug, Clone, Copy, PartialEq, Eq, Structural)]
pub enum Command {
    Create,
    Delete,
    Get,
    Login,
}

#[derive(Debug, Clone, Copy, PartialEq, Eq, Structural)]
pub enum Resource {
    Task,
    Project,
    User,
}

#[derive(Debug, Clone, Copy, PartialEq, Eq, Structural)]
pub struct Cli {
    pub command: Command,
    pub resource: Option<Resource>,
}

pub open spec fn command_of(s: Seq<char>) -> Option<Command> {
    if s == "create"@ {
        Some(Command::Create)
    } else if s == "delete"@ {
        Some(Command::Delete)
    } else if s == "get"@ {
        Some(Command::Get)
    } else if s == "login"@ {
        Some(Command::Login)
    } else {
        None
    }
}

pub open spec fn resource_of(s: Seq<char>) -> Option<Resource> {
    if s == "task"@ {
        Some(Resource::Task)
    } else if s == "project"@ {
        Some(Resource::Project)
    } else if s == "user"@ {
        Some(Resource::User)
    } else {
        None
    }
}

impl Command {
    pub fn from_str(s: &str) -> (r: Result<Command, Error>)
        ensures
            match command_of(s@) {
                Some(c) => r == Ok::<Command, Error>(c),
                None => r == Err::<Command, Error>(Error::ParseArgumentsError),
            },
    {
        if str_eq(s, "create") {
            Ok(Command::Create)
        } else if str_eq(s, "delete") {
            Ok(Command::Delete)
        } else if str_eq(s, "get") {
            Ok(Command::Get)
        } else if str_eq(s, "login") {
            Ok(Command::Login)
        } else {
            Err(Error::ParseArgumentsError)
        }
    }
}

impl Resource {
    pub fn from_str(s: &str) -> (r: Result<Resource, Error>)
        ensures
            match resource_of(s@) {
                Some(c) => r == Ok::<Resource, Error>(c),
                None => r == Err::<Resource, Error>(Error::ParseArgumentsError),
            },
    {
        if str_eq(s, "task") {
            Ok(Resource::Task)
        } else if str_eq(s, "project") {
            Ok(Resource::Project)
        } else if str_eq(s, "user") {
            Ok(Resource::User)
        } else {
            Err(Error::ParseArgumentsError)
        }
    }
}

/// A line as read from a terminal, without its line ending: one trailing
/// `\n`, and then one `\r` before it, are dropped.
pub open spec fn without_newline(s: Seq<char>) -> Seq<char> {
    if s.len() > 0 && s.last() == '\n' {
        let t = s.drop_last();
        if t.len() > 0 && t.last() == '\r' {
            t.drop_last()
        } else {
            t
        }
    } else {
        s
    }
}

pub fn trim_newline(s: &mut String)
    ensures
        final(s)@ == without_newline(old(s)@),
{
    let n = s.as_str().unicode_len();
    if n > 0 && s.as_str().get_char(n - 1) == '\n' {
        let mut k = n - 1;
        if k > 0 && s.as_str().get_char(k - 1) == '\r' {
            k = k - 1;
        }
        let t = s.as_str().substring_char(0, k).to_owned();
        *s = t;
    }
}

} // verus!
