//! The kinds of failure that synchronisation knows.

use vstd::prelude::*;

verus! {

/// A failure of synchronisation, by kind, with what went wrong.
#[derive(Debug, PartialEq, Eq)]
pub enum SyncError {
    /// The shared folder cannot be reached or written to.
    OneDriveUnavailable(String),
    /// The network failed.
    NetworkError(String),
    /// A file could not be read, written, copied or deleted.
    FileSystemError(String),
    /// A database cannot be opened or lacks a required table.
    DatabaseError(String),
    /// Settings or a sidecar are not in the expected format.
    ConfigurationError(String),
    /// An operation took too long. No operation has a time limit yet.
    TimeoutError(String),
}

/// A kind of failure.
#[derive(Debug, Clone, Copy, PartialEq, Eq, Structural)]
pub enum ErrorKind {
    OneDriveUnavailable,
    Network,
    FileSystem,
    Database,
    Configuration,
    Timeout,
}

impl ErrorKind {
    /// The words that introduce a failure of this kind.
    pub open spec fn label(self) -> Seq<char> {
        match self {
            ErrorKind::OneDriveUnavailable => "OneDrive unavailable: "@,
            ErrorKind::Network => "Network error: "@,
            ErrorKind::FileSystem => "File system error: "@,
            ErrorKind::Database => "Database error: "@,
            ErrorKind::Configuration => "Configuration error: "@,
            ErrorKind::Timeout => "Timeout error: "@,
        }
    }
}

impl SyncError {
    /// The failure's kind.
    pub open spec fn kind(self) -> ErrorKind {
        match self {
            SyncError::OneDriveUnavailable(_) => ErrorKind::OneDriveUnavailable,
            SyncError::NetworkError(_) => ErrorKind::Network,
            SyncError::FileSystemError(_) => ErrorKind::FileSystem,
            SyncError::DatabaseError(_) => ErrorKind::Database,
            SyncError::ConfigurationError(_) => ErrorKind::Configuration,
            SyncError::TimeoutError(_) => ErrorKind::Timeout,
        }
    }

    /// What went wrong, as the failure carries it.
    pub open spec fn detail(self) -> Seq<char> {
        match self {
            SyncError::OneDriveUnavailable(message) => message@,
            SyncError::NetworkError(message) => message@,
            SyncError::FileSystemError(message) => message@,
            SyncError::DatabaseError(message) => message@,
            SyncError::ConfigurationError(message) => message@,
            SyncError::TimeoutError(message) => message@,
        }
    }

    /// The failure in words: its kind's label, then what went wrong.
    pub open spec fn text(self) -> Seq<char> {
        self.kind().label() + self.detail()
    }

    /// A failure of the given kind.
    pub fn new(kind: ErrorKind, message: String) -> (error: SyncError)
        ensures
            error.kind() == kind,
            error.detail() == message@,
    {
        match kind {
            ErrorKind::OneDriveUnavailable => SyncError::OneDriveUnavailable(message),
            ErrorKind::Network => SyncError::NetworkError(message),
            ErrorKind::FileSystem => SyncError::FileSystemError(message),
            ErrorKind::Database => SyncError::DatabaseError(message),
            ErrorKind::Configuration => SyncError::ConfigurationError(message),
            ErrorKind::Timeout => SyncError::TimeoutError(message),
        }
    }

    /// The failure in words.
    pub fn to_string(&self) -> (text: String)
        ensures
            text@ == self.text(),
    {
        match self {
            SyncError::OneDriveUnavailable(message) => String::from_str(
                "OneDrive unavailable: ",
            ).concat(message.as_str()),
            SyncError::NetworkError(message) => String::from_str("Network error: ").concat(
                message.as_str(),
            ),
            SyncError::FileSystemError(message) => String::from_str("File system error: ").concat(
                message.as_str(),
            ),
            SyncError::DatabaseError(message) => String::from_str("Database error: ").concat(
                message.as_str(),
            ),
            SyncError::ConfigurationError(message) => String::from_str(
                "Configuration error: ",
            ).concat(message.as_str()),
            SyncError::TimeoutError(message) => String::from_str("Timeout error: ").concat(
                message.as_str(),
            ),
        }
    }
}

} // verus!
