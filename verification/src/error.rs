//! The failures that cross the supervisor's boundary.

use vstd::prelude::*;
use vstd::string::*;

verus! {

/// What an operation on the process table can fail with.
#[derive(Debug, Clone, PartialEq)]
pub enum ProcessError {
    /// The identifier already has a record.
    AlreadyActive,
    /// The identifier has no record.
    NotRunning,
    /// The operating system did not create the process; its words follow.
    SpawnFailed(String),
    /// Whether the process still runs could not be found out.
    WaitFailed(String),
    /// The process could not be terminated.
    KillFailed(String),
}

/// A `ProcessError` as contracts see it.
pub enum ErrorState {
    AlreadyActive,
    NotRunning,
    SpawnFailed(Seq<char>),
    WaitFailed(Seq<char>),
    KillFailed(Seq<char>),
}

impl ProcessError {
    /// The failure as contracts see it.
    pub open spec fn view(&self) -> ErrorState {
        match *self {
            ProcessError::AlreadyActive => ErrorState::AlreadyActive,
            ProcessError::NotRunning => ErrorState::NotRunning,
            ProcessError::SpawnFailed(cause) => ErrorState::SpawnFailed(cause@),
            ProcessError::WaitFailed(cause) => ErrorState::WaitFailed(cause@),
            ProcessError::KillFailed(cause) => ErrorState::KillFailed(cause@),
        }
    }
}

/// A failure as it is reported to a client.
#[derive(Debug, Clone, PartialEq)]
pub enum AppError {
    NotFound(String),
    BadRequest(String),
    Unauthorized(String),
    Internal(String),
    Database(String),
}

/// The variant of an `AppError`, without its message.
pub enum AppErrorKind {
    NotFound,
    BadRequest,
    Unauthorized,
    Internal,
    Database,
}

impl AppError {
    /// The variant of the error.
    pub open spec fn kind(&self) -> AppErrorKind {
        match *self {
            AppError::NotFound(_) => AppErrorKind::NotFound,
            AppError::BadRequest(_) => AppErrorKind::BadRequest,
            AppError::Unauthorized(_) => AppErrorKind::Unauthorized,
            AppError::Internal(_) => AppErrorKind::Internal,
            AppError::Database(_) => AppErrorKind::Database,
        }
    }

    /// The message that the error carries.
    pub open spec fn message(&self) -> Seq<char> {
        match *self {
            AppError::NotFound(text) => text@,
            AppError::BadRequest(text) => text@,
            AppError::Unauthorized(text) => text@,
            AppError::Internal(text) => text@,
            AppError::Database(text) => text@,
        }
    }

    /// The words that introduce each kind of error when it is written out.
    pub open spec fn prefix(kind: AppErrorKind) -> Seq<char> {
        match kind {
            AppErrorKind::NotFound => "Not found: "@,
            AppErrorKind::BadRequest => "Bad request: "@,
            AppErrorKind::Unauthorized => "Unauthorized: "@,
            AppErrorKind::Internal => "Internal error: "@,
            AppErrorKind::Database => "Database error: "@,
        }
    }

    /// The error written out: the words for its kind, then its message.
    pub fn describe(&self) -> (text: String)
        ensures
            text@ == Self::prefix(self.kind()) + self.message(),
    {
        match self {
            AppError::NotFound(msg) => String::from_str("Not found: ").concat(msg.as_str()),
            AppError::BadRequest(msg) => String::from_str("Bad request: ").concat(msg.as_str()),
            AppError::Unauthorized(msg) => String::from_str("Unauthorized: ").concat(msg.as_str()),
            AppError::Internal(msg) => String::from_str("Internal error: ").concat(msg.as_str()),
            AppError::Database(msg) => String::from_str("Database error: ").concat(msg.as_str()),
        }
    }
}

impl ProcessError {
    /// The kind under which a client is told of this failure.
    pub open spec fn reported_kind(&self) -> AppErrorKind {
        match *self {
            ProcessError::AlreadyActive => AppErrorKind::BadRequest,
            ProcessError::NotRunning => AppErrorKind::NotFound,
            ProcessError::SpawnFailed(_) => AppErrorKind::Internal,
            ProcessError::WaitFailed(_) => AppErrorKind::Internal,
            ProcessError::KillFailed(_) => AppErrorKind::Internal,
        }
    }

    /// The message with which a client is told of this failure.
    pub open spec fn reported_message(&self) -> Seq<char> {
        match *self {
            ProcessError::AlreadyActive => "Server already running"@,
            ProcessError::NotRunning => "Server not running"@,
            ProcessError::SpawnFailed(cause) => "Failed to start server: "@ + cause@,
            ProcessError::WaitFailed(cause) => cause@,
            ProcessError::KillFailed(cause) => "Failed to kill server: "@ + cause@,
        }
    }

    /// The message with which a client is told that a registration of an
    /// installation failed this way: as for any other operation, but that a
    /// taken identifier is called active, since nothing need be running
    /// under it.
    pub open spec fn registration_message(&self) -> Seq<char> {
        match *self {
            ProcessError::AlreadyActive => "Server already active"@,
            _ => self.reported_message(),
        }
    }

    /// The failure of a registration of an installation as it is reported to
    /// a client.
    pub fn into_registration_error(self) -> (reported: AppError)
        ensures
            reported.kind() == self.reported_kind(),
            reported.message() == self.registration_message(),
    {
        match self {
            ProcessError::AlreadyActive => AppError::BadRequest(String::from_str("Server already active")),
            other => other.into_app_error(),
        }
    }

    /// The failure as it is reported to a client.
    pub fn into_app_error(self) -> (reported: AppError)
        ensures
            reported.kind() == self.reported_kind(),
            reported.message() == self.reported_message(),
    {
        match self {
            ProcessError::AlreadyActive => AppError::BadRequest(String::from_str("Server already running")),
            ProcessError::NotRunning => AppError::NotFound(String::from_str("Server not running")),
            ProcessError::SpawnFailed(cause) => AppError::Internal(
                String::from_str("Failed to start server: ").concat(cause.as_str()),
            ),
            ProcessError::WaitFailed(cause) => AppError::Internal(cause),
            ProcessError::KillFailed(cause) => AppError::Internal(
                String::from_str("Failed to kill server: ").concat(cause.as_str()),
            ),
        }
    }
}

} // verus!
