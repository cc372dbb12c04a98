//! The command line of the client: which call on the service it asks for.

use crate::path::{absolute, absolute_of};
use vstd::prelude::*;

verus! {

/// What the client is asked to do.
#[derive(Clone, Debug, PartialEq, Eq)]
pub enum Command {
    /// `add <path>`: file the file at this path, as it was written on the
    /// command line.
    Add(String),
    /// `get`: show the folder that the service has in mind.
    Get,
    /// `update`: have the service work out today's folder.
    Update,
}

/// Why a command line asks for nothing.
#[derive(Clone, Debug, PartialEq, Eq)]
pub enum UsageError {
    /// There is no command, there are too many arguments, or `add` has no
    /// path.
    WrongArgumentCount,
    /// The command is none of `add`, `get` and `update`.
    UnknownCommand(String),
}

/// A call on the service.
#[derive(Clone, Debug, PartialEq, Eq)]
pub enum Request {
    /// `move_file` with this path, which is absolute.
    MoveFile(String),
    /// `get_date_folder`.
    GetDateFolder,
    /// `update_date`.
    UpdateDate,
}

/// What a command line means. `args` starts with the name of the program;
/// the command comes second, and the path of `add` third.
pub open spec fn parsed(args: Seq<String>) -> Result<Command, UsageError> {
    if args.len() <= 1 || args.len() >= 4 {
        Err(UsageError::WrongArgumentCount)
    } else if args[1]@ == "add"@ {
        if args.len() == 3 {
            Ok(Command::Add(args[2]))
        } else {
            Err(UsageError::WrongArgumentCount)
        }
    } else if args[1]@ == "get"@ {
        Ok(Command::Get)
    } else if args[1]@ == "update"@ {
        Ok(Command::Update)
    } else {
        Err(UsageError::UnknownCommand(args[1]))
    }
}

/// What the client prints for a command line that asks for nothing.
pub open spec fn usage_text(error: UsageError) -> Seq<char> {
    match error {
        UsageError::WrongArgumentCount => "Wrong Ammount of arguments arguments"@,
        UsageError::UnknownCommand(command) => command@ + " is not a valid command"@,
    }
}

/// Whether `request` is the call that `command` asks for, given by a
/// process that works in the directory `dir`.
pub open spec fn is_request_for(request: Request, command: Command, dir: Seq<char>) -> bool {
    match command {
        Command::Add(path) => request matches Request::MoveFile(full) && full@ == absolute_of(
            dir,
            path@,
        ),
        Command::Get => request is GetDateFolder,
        Command::Update => request is UpdateDate,
    }
}

/// Reads the command line. `args` starts with the name of the program.
///
/// Nothing is asked of the service for a line that this refuses.
pub fn parse_command(args: &Vec<String>) -> (command: Result<Command, UsageError>)
    ensures
        command == parsed(args@),
{
    if args.len() <= 1 || args.len() >= 4 {
        return Err(UsageError::WrongArgumentCount);
    }
    let add = String::from_str("add");
    let get = String::from_str("get");
    let update = String::from_str("update");
    if args[1] == add {
        if args.len() == 3 {
            Ok(Command::Add(args[2].clone()))
        } else {
            Err(UsageError::WrongArgumentCount)
        }
    } else if args[1] == get {
        Ok(Command::Get)
    } else if args[1] == update {
        Ok(Command::Update)
    } else {
        Err(UsageError::UnknownCommand(args[1].clone()))
    }
}

/// What the client prints for a command line that asks for nothing.
pub fn usage_message(error: &UsageError) -> (text: String)
    ensures
        text@ == usage_text(*error),
{
    match error {
        UsageError::WrongArgumentCount => String::from_str("Wrong Ammount of arguments arguments"),
        UsageError::UnknownCommand(command) => {
            let mut text = command.clone();
            text.append(" is not a valid command");
            text
        },
    }
}

/// The call on the service that `command` asks for, given by a process that
/// works in the directory `dir`. The path of `add` is made absolute.
pub fn request_for(command: &Command, dir: &str) -> (request: Request)
    ensures
        is_request_for(request, *command, dir@),
{
    match command {
        Command::Add(path) => Request::MoveFile(absolute(dir, path.as_str())),
        Command::Get => Request::GetDateFolder,
        Command::Update => Request::UpdateDate,
    }
}

} // verus!
