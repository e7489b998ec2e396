//! The failure taxonomy shared by every engine operation.

use vstd::prelude::*;

verus! {

/// Why an engine operation failed.
#[derive(Clone, Copy, Debug, PartialEq, Eq, Structural)]
pub enum FileError {
    /// The target file was absent at load time, or a required environment
    /// variable was unset.
    NotFound,
    /// The path has no parent directory (for example an empty path).
    InvalidInput,
    /// Text was present but not decodable under the bound strategy.
    InvalidData,
    /// Permission, device, or other OS-level failure.
    Io,
    /// The external editor exited with a failure status.
    Subprocess,
}

impl FileError {
    /// A short human-readable label for the failure.
    pub fn describe(&self) -> (r: &'static str)
        ensures
            r@ == match *self {
                FileError::NotFound => "not found"@,
                FileError::InvalidInput => "invalid input"@,
                FileError::InvalidData => "invalid data"@,
                FileError::Io => "i/o failure"@,
                FileError::Subprocess => "subprocess failure"@,
            },
    {
        match *self {
            FileError::NotFound => "not found",
            FileError::InvalidInput => "invalid input",
            FileError::InvalidData => "invalid data",
            FileError::Io => "i/o failure",
            FileError::Subprocess => "subprocess failure",
        }
    }
}

} // verus!
