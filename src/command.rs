//! Errors of slash command handlers.

use vstd::prelude::*;

verus! {

/// Error type returned by slash command handlers.
#[derive(Debug, Clone, Copy, PartialEq, Eq)]
pub enum CommandError {
    /// The command's arguments are missing or malformed.
    ArgumentError,
}

impl CommandError {
    /// Describes this error.
    pub fn message(&self) -> (r: String)
        ensures
            match self {
                CommandError::ArgumentError => r@ == "argument error"@,
            },
    {
        match self {
            CommandError::ArgumentError => "argument error".to_owned(),
        }
    }
}

} // verus!
