//! Why a run stops.

use vstd::prelude::*;
use vstd::string::*;

verus! {

/// The ways a run can fail.
#[derive(Debug)]
pub enum AppError {
    /// No snapshot could be had from the archive, or the settings are unusable.
    Archive(String),
    /// The repository refused an operation.
    Git(String),
    /// A file could not be read or written.
    Io(String),
    /// A request to the archive did not complete.
    Http(String),
    /// The package file names no version.
    VersionNotFound,
    /// The key was missing or rejected.
    SshAuthFailed,
    /// Local and remote history cannot be joined by a fast-forward.
    SyncConflict,
}

impl AppError {
    /// The text shown to the user for this error.
    pub open spec fn message_spec(self) -> Seq<char> {
        match self {
            AppError::Archive(m) => "Archive error: "@ + m@,
            AppError::Git(m) => "Git error: "@ + m@,
            AppError::Io(m) => "IO error: "@ + m@,
            AppError::Http(m) => "HTTP error: "@ + m@,
            AppError::VersionNotFound => "Package version not found in PKGBUILD"@,
            AppError::SshAuthFailed => "SSH authentication failed"@,
            AppError::SyncConflict => "Repository history has diverged"@,
        }
    }

    /// The text shown to the user for this error.
    pub fn message(&self) -> (r: String)
        ensures
            r@ == self.message_spec(),
    {
        match self {
            AppError::Archive(m) => String::from_str("Archive error: ").concat(m.as_str()),
            AppError::Git(m) => String::from_str("Git error: ").concat(m.as_str()),
            AppError::Io(m) => String::from_str("IO error: ").concat(m.as_str()),
            AppError::Http(m) => String::from_str("HTTP error: ").concat(m.as_str()),
            AppError::VersionNotFound => String::from_str("Package version not found in PKGBUILD"),
            AppError::SshAuthFailed => String::from_str("SSH authentication failed"),
            AppError::SyncConflict => String::from_str("Repository history has diverged"),
        }
    }
}

} // verus!
