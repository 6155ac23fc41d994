use vstd::prelude::*;
use vstd::std_specs::convert::FromSpecImpl;

use crate::error::{error_text, Error};

verus! {

/// What a command of the user interface gives back.
pub type CommandResult<T> = Result<T, CommandError>;

/// Why a command of the user interface failed, in words.
#[derive(Debug, Clone, PartialEq, Eq)]
pub struct CommandError {
    pub message: String,
}

impl CommandError {
    /// The words.
    pub open spec fn view(&self) -> Seq<char> {
        self.message@
    }

    /// The words.
    pub fn message(&self) -> (message: &String)
        ensures
            message@ == self@,
    {
        &self.message
    }

    /// The failure that an error of the library stands for: its message.
    pub fn from_error(error: &Error) -> (failure: CommandError)
        ensures
            failure@ == error_text(*error),
    {
        CommandError { message: error.message() }
    }
}

impl From<String> for CommandError {
    fn from(value: String) -> (failure: CommandError) {
        CommandError { message: value }
    }
}

impl FromSpecImpl<String> for CommandError {
    open spec fn obeys_from_spec() -> bool {
        true
    }

    open spec fn from_spec(value: String) -> CommandError {
        CommandError { message: value }
    }
}

} // verus!
