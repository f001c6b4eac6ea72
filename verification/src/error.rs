//! The errors that the runtime reports.
use vstd::prelude::*;

verus! {

/// A failure of an operation of the runtime.
#[derive(Debug)]
pub enum Error {
    /// A directory or file could not be created or removed.
    FileError(String),
    /// The backing store refused or failed an operation.
    DatabaseError(String),
    /// The operation needs an open connection and there is none.
    NoConnectionError,
    /// A registration contradicts an earlier one, such as a second table of
    /// the same name.
    ConfigurationError(String),
    /// The command line names no registered command, or could not be read.
    UnknownError,
}

} // verus!
