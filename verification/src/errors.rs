//! The error taxonomy shared by the subcommand handlers. Every error is
//! surfaced to the user as a single printed message line.

use vstd::prelude::*;

verus! {

/// Everything a subcommand handler can fail with.
#[derive(Debug)]
pub enum CmdError {
    /// The requested flag combination selects no operation.
    InvalidArgument,
    /// The root path of a deletion request does not exist.
    PathNotFound,
    /// An underlying filesystem operation failed; carries its description.
    IOError(String),
    /// A date string or a timestamp does not match the expected shape.
    InvalidFormat,
    /// The requested timestamp unit is neither seconds nor milliseconds.
    UnsupportedUnit,
}

impl CmdError {
    /// The message line printed for this error.
    pub fn message(&self) -> (r: String)
        ensures
            match self {
                CmdError::InvalidArgument => r@ == "invalid command"@,
                CmdError::PathNotFound => r@ == "path does not exist"@,
                CmdError::IOError(m) => r@ == "io error: "@ + m@,
                CmdError::InvalidFormat => r@ == "invalid format"@,
                CmdError::UnsupportedUnit => r@ == "unsupported time unit, use s or ms"@,
            },
    {
        match self {
            CmdError::InvalidArgument => "invalid command".to_owned(),
            CmdError::PathNotFound => "path does not exist".to_owned(),
            CmdError::IOError(m) => "io error: ".to_owned().concat(m.as_str()),
            CmdError::InvalidFormat => "invalid format".to_owned(),
            CmdError::UnsupportedUnit => "unsupported time unit, use s or ms".to_owned(),
        }
    }
}

} // verus!
