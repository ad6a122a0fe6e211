//! The error taxonomy of the daemonization sequence.
//!
//! Every fallible operation in the sequence maps to exactly one kind; there
//! is no catch-all variant.  An error optionally carries the OS error code
//! that the failing call reported, captured before any other call could
//! overwrite it.

use vstd::prelude::*;

verus! {

/// The closed set of failure kinds that the daemonization sequence can
/// surface.
#[derive(Clone, Copy, Debug, PartialEq, Eq, Structural)]
pub enum ErrorKind {
    /// A fork call returned a negative sentinel.
    ForkFailed,
    /// Creating a new session (becoming session leader) failed.
    SessionDetachFailed,
    /// Changing the working directory failed.
    DirectoryChangeFailed,
    /// Changing the filesystem root failed.
    RootChangeFailed,
    /// A symbolic group name did not resolve to a numeric id.
    GroupLookupFailed,
    /// Applying the target group id failed.
    GroupChangeFailed,
    /// A symbolic user name did not resolve to a numeric id.
    UserLookupFailed,
    /// Applying the target user id failed.
    UserChangeFailed,
    /// Creating or opening the pid file failed.
    PidFileOpenFailed,
    /// Acquiring the advisory lock on the pid file failed; when the carried
    /// OS code reports the lock as already held, another instance is running.
    PidFileLockFailed,
    /// Releasing the advisory lock on the pid file failed.
    PidFileUnlockFailed,
    /// Obtaining the process id or writing it to the pid file failed.
    PidFileWriteFailed,
    /// Re-owning the pid file to the dropped-to identities failed.
    PidFileOwnershipChangeFailed,
    /// Opening the null device or rebinding a standard stream failed.
    StreamRedirectFailed,
    /// A path or name holds an embedded terminator byte that the OS
    /// interface cannot represent.
    PathEncodingFailed,
}

/// A failure of one step of the sequence: its kind, the OS error code the
/// failing call reported (when one was reported), and an optional
/// caller-supplied description.
#[derive(Debug)]
pub struct Error {
    pub kind: ErrorKind,
    pub os_code: Option<i32>,
    pub description: Option<String>,
}

/// The ghost image of an [`Error`]: the same fields with the description as
/// a character sequence.
pub struct ErrorV {
    pub kind: ErrorKind,
    pub os_code: Option<i32>,
    pub description: Option<Seq<char>>,
}

impl View for Error {
    type V = ErrorV;

    open spec fn view(&self) -> ErrorV {
        ErrorV {
            kind: self.kind,
            os_code: self.os_code,
            description: match self.description {
                Some(d) => Some(d@),
                None => None,
            },
        }
    }
}

impl Error {
    /// An error built from the raw OS error code captured right after a
    /// failing system call.
    pub fn from_os(kind: ErrorKind, code: i32) -> (r: Error)
        ensures
            r.kind == kind,
            r.os_code == Some(code),
            r.description is None,
    {
        Error { kind, os_code: Some(code), description: None }
    }

    /// An error without an OS code, carrying a description instead.
    pub fn custom(kind: ErrorKind, description: String) -> (r: Error)
        ensures
            r.kind == kind,
            r.os_code is None,
            r.description == Some(description),
    {
        Error { kind, os_code: None, description: Some(description) }
    }

    /// An error carrying neither an OS code nor a description, for failures
    /// the OS never saw (lookup misses, encoding rejections).
    pub fn bare(kind: ErrorKind) -> (r: Error)
        ensures
            r.kind == kind,
            r.os_code is None,
            r.description is None,
    {
        Error { kind, os_code: None, description: None }
    }

    /// The kind of this error.
    pub fn kind(&self) -> (r: ErrorKind)
        ensures
            r == self.kind,
    {
        self.kind
    }

    /// Whether this error originated in a failing OS call, and hence carries
    /// that call's error code.
    pub fn is_io_error(&self) -> (r: bool)
        ensures
            r == (self.os_code is Some),
    {
        self.os_code.is_some()
    }

    /// The originating OS error code, when there is one.
    pub fn as_io_error(&self) -> (r: Option<i32>)
        ensures
            r == self.os_code,
    {
        self.os_code
    }

    /// An identical copy of this error.
    pub fn duplicate(&self) -> (r: Error)
        ensures
            r == *self,
    {
        Error {
            kind: self.kind,
            os_code: self.os_code,
            description: match &self.description {
                Some(d) => Some(d.clone()),
                None => None,
            },
        }
    }

    /// A short name for the kind, for composing operator-facing messages
    /// alongside the OS error string.
    pub fn kind_name(&self) -> (r: &'static str)
        ensures
            r@ == spec_kind_name(self.kind),
    {
        match self.kind {
            ErrorKind::ForkFailed => "fork failed",
            ErrorKind::SessionDetachFailed => "session detach failed",
            ErrorKind::DirectoryChangeFailed => "directory change failed",
            ErrorKind::RootChangeFailed => "root change failed",
            ErrorKind::GroupLookupFailed => "group lookup failed",
            ErrorKind::GroupChangeFailed => "group change failed",
            ErrorKind::UserLookupFailed => "user lookup failed",
            ErrorKind::UserChangeFailed => "user change failed",
            ErrorKind::PidFileOpenFailed => "pid file open failed",
            ErrorKind::PidFileLockFailed => "pid file lock failed",
            ErrorKind::PidFileUnlockFailed => "pid file unlock failed",
            ErrorKind::PidFileWriteFailed => "pid file write failed",
            ErrorKind::PidFileOwnershipChangeFailed => "pid file ownership change failed",
            ErrorKind::StreamRedirectFailed => "stream redirect failed",
            ErrorKind::PathEncodingFailed => "path encoding failed",
        }
    }
}

/// The name that [`Error::kind_name`] returns for each kind.
pub open spec fn spec_kind_name(k: ErrorKind) -> Seq<char> {
    match k {
        ErrorKind::ForkFailed => "fork failed"@,
        ErrorKind::SessionDetachFailed => "session detach failed"@,
        ErrorKind::DirectoryChangeFailed => "directory change failed"@,
        ErrorKind::RootChangeFailed => "root change failed"@,
        ErrorKind::GroupLookupFailed => "group lookup failed"@,
        ErrorKind::GroupChangeFailed => "group change failed"@,
        ErrorKind::UserLookupFailed => "user lookup failed"@,
        ErrorKind::UserChangeFailed => "user change failed"@,
        ErrorKind::PidFileOpenFailed => "pid file open failed"@,
        ErrorKind::PidFileLockFailed => "pid file lock failed"@,
        ErrorKind::PidFileUnlockFailed => "pid file unlock failed"@,
        ErrorKind::PidFileWriteFailed => "pid file write failed"@,
        ErrorKind::PidFileOwnershipChangeFailed => "pid file ownership change failed"@,
        ErrorKind::StreamRedirectFailed => "stream redirect failed"@,
        ErrorKind::PathEncodingFailed => "path encoding failed"@,
    }
}

} // verus!
