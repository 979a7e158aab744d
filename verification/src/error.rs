//! The ways in which preparing or running a command can fail, and what the
//! user is told of each.

use crate::number::{decimal, decimal_string};
use crate::string_utils::NO_EXTENSION_FOUND;
use vstd::prelude::*;

verus! {

/// Why the external tool did not do its work.
#[derive(Debug, PartialEq, Eq)]
pub enum ProcessFailure {
    /// The process could not be started.
    Spawn,
    /// The process was started and could not be waited for.
    Await,
    /// The process ran and ended with this status, which is not zero.
    CommandExecution(i32),
}

/// Why no command was prepared.
#[derive(Debug, PartialEq, Eq)]
pub enum TranscoderError {
    /// There is no file at this path.
    FileNotFound(String),
    /// Whether there is a file at this path could not be found out.
    CouldNotCheckFileExistence(String),
    /// The request does not make a valid command.
    InvalidCommand,
    /// The input already has the format that was asked for.
    SameInputAndOutput,
    /// The menu has no such operation.
    UnsupportedOperation,
    /// Nothing needs to be done, for the reason given.
    AbortTranscoding(String),
    /// The input path has no extension to replace.
    NoExtension,
}

impl TranscoderError {
    /// What the user is told of this error.
    pub open spec fn message_text(self) -> Seq<char> {
        match self {
            TranscoderError::FileNotFound(path) => "File not found: "@ + path@,
            TranscoderError::CouldNotCheckFileExistence(path) => "Failed to check file existence: "@
                + path@ + "."@,
            TranscoderError::InvalidCommand => "Invalid command."@,
            TranscoderError::SameInputAndOutput => "Input and output formats are the same."@,
            TranscoderError::UnsupportedOperation => "Unsupported operation."@,
            TranscoderError::AbortTranscoding(reason) => "Aborted. "@ + reason@,
            TranscoderError::NoExtension => NO_EXTENSION_FOUND@,
        }
    }

    /// What the user is told of this error.
    pub fn message(&self) -> (r: String)
        ensures
            r@ == self.message_text(),
    {
        match self {
            TranscoderError::FileNotFound(path) => String::from_str("File not found: ").concat(
                path.as_str(),
            ),
            TranscoderError::CouldNotCheckFileExistence(path) => String::from_str(
                "Failed to check file existence: ",
            ).concat(path.as_str()).concat("."),
            TranscoderError::InvalidCommand => String::from_str("Invalid command."),
            TranscoderError::SameInputAndOutput => String::from_str(
                "Input and output formats are the same.",
            ),
            TranscoderError::UnsupportedOperation => String::from_str("Unsupported operation."),
            TranscoderError::AbortTranscoding(reason) => String::from_str("Aborted. ").concat(
                reason.as_str(),
            ),
            TranscoderError::NoExtension => String::from_str(NO_EXTENSION_FOUND),
        }
    }
}

impl ProcessFailure {
    /// What the user is told of this failure.
    pub open spec fn message_text(self) -> Seq<char> {
        match self {
            ProcessFailure::Await => "Failed to await process."@,
            ProcessFailure::Spawn => "Failed to spawn process."@,
            ProcessFailure::CommandExecution(status) => "Failed to execute command. Status: "@
                + decimal(status as int) + "."@,
        }
    }

    /// What the user is told of this failure.
    pub fn message(&self) -> (r: String)
        ensures
            r@ == self.message_text(),
    {
        match self {
            ProcessFailure::Await => String::from_str("Failed to await process."),
            ProcessFailure::Spawn => String::from_str("Failed to spawn process."),
            ProcessFailure::CommandExecution(status) => String::from_str(
                "Failed to execute command. Status: ",
            ).concat(decimal_string(*status as i64).as_str()).concat("."),
        }
    }
}

} // verus!
