//! Recoverable failures of the asynchronous file operations: a dialog closed
//! without a selection, or an I/O failure with a coarse OS classification.

use vstd::prelude::*;

verus! {

/// Coarse classification of an operating-system I/O failure.
#[derive(Clone, Copy, Debug, PartialEq, Eq, Structural)]
pub enum IoErrorKind {
    NotFound,
    PermissionDenied,
    AlreadyExists,
    InvalidData,
    Other,
}

/// The last recoverable failure of an asynchronous operation.
#[derive(Clone, Copy, Debug, PartialEq, Eq, Structural)]
pub enum Error {
    /// A file dialog was closed without choosing a file.
    DialogClosed,
    /// A file read or write failed, with the OS classification.
    IO(IoErrorKind),
}

impl IoErrorKind {
    /// The human-readable rendering of this classification.
    pub open spec fn describe_spec(&self) -> Seq<char> {
        match self {
            IoErrorKind::NotFound => "entity not found"@,
            IoErrorKind::PermissionDenied => "permission denied"@,
            IoErrorKind::AlreadyExists => "entity already exists"@,
            IoErrorKind::InvalidData => "invalid data"@,
            IoErrorKind::Other => "other error"@,
        }
    }

    /// Render this classification for the status bar.
    pub fn describe(&self) -> (r: String)
        ensures
            r@ == self.describe_spec(),
    {
        match self {
            IoErrorKind::NotFound => String::from_str("entity not found"),
            IoErrorKind::PermissionDenied => String::from_str("permission denied"),
            IoErrorKind::AlreadyExists => String::from_str("entity already exists"),
            IoErrorKind::InvalidData => String::from_str("invalid data"),
            IoErrorKind::Other => String::from_str("other error"),
        }
    }
}

} // verus!
