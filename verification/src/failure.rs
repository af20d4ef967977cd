//! What can go wrong during an installation, and the exact wording shown to
//! the user for each case.

use vstd::prelude::*;
use vstd::string::*;

verus! {

/// Joins a fixed label and a detail into one line of text.
pub fn labelled(label: &str, detail: &str) -> (line: String)
    ensures
        line@ == label@ + detail@,
{
    let mut line = String::from_str(label);
    line.append(detail);
    line
}

/// A failure inside the background pipeline. Each one ends the run.
#[derive(Debug, PartialEq, Eq)]
pub enum InstallFailure {
    /// The request for the package could not be made or was refused.
    FetchFailed,
    /// The local file that receives the package could not be created.
    SaveFileNotCreated { reason: String },
    /// A chunk could not be appended to the local file.
    WriteFailed { reason: String },
    /// The body broke off before its end.
    StreamInterrupted { reason: String },
    /// The saved package is not of the one accepted format.
    UnsupportedFormat { extension: String },
    /// The saved package could not be opened for unpacking.
    ArchiveNotOpened { reason: String },
    /// Unpacking stopped on an entry or on the file system.
    ExtractionFailed { reason: String },
    /// The uninstall or firewall registration could not be written.
    RegistryWriteFailed { reason: String },
    /// The desktop shortcut could not be created.
    ShortcutCreationFailed { reason: String },
}

impl InstallFailure {
    /// The wording of this failure.
    pub open spec fn text(self) -> Seq<char> {
        match self {
            InstallFailure::FetchFailed => "API request failed"@,
            InstallFailure::SaveFileNotCreated { reason } => "Failed to create file: "@ + reason@,
            InstallFailure::WriteFailed { reason } => "Failed to write file: "@ + reason@,
            InstallFailure::StreamInterrupted { reason } => "Download interrupted: "@ + reason@,
            InstallFailure::UnsupportedFormat { extension } => "Unsupported file ext: "@
                + extension@,
            InstallFailure::ArchiveNotOpened { reason } => "Failed to open zip: "@ + reason@,
            InstallFailure::ExtractionFailed { reason } => "Failed to extract zip: "@ + reason@,
            InstallFailure::RegistryWriteFailed { reason } => "Failed to write reg: "@ + reason@,
            InstallFailure::ShortcutCreationFailed { reason } => "Failed to create shortcut: "@
                + reason@,
        }
    }

    /// Writes the failure out as the line of text shown to the user.
    pub fn message(&self) -> (msg: String)
        ensures
            msg@ == self.text(),
    {
        match self {
            InstallFailure::FetchFailed => String::from_str("API request failed"),
            InstallFailure::SaveFileNotCreated { reason } => labelled(
                "Failed to create file: ",
                reason.as_str(),
            ),
            InstallFailure::WriteFailed { reason } => labelled(
                "Failed to write file: ",
                reason.as_str(),
            ),
            InstallFailure::StreamInterrupted { reason } => labelled(
                "Download interrupted: ",
                reason.as_str(),
            ),
            InstallFailure::UnsupportedFormat { extension } => labelled(
                "Unsupported file ext: ",
                extension.as_str(),
            ),
            InstallFailure::ArchiveNotOpened { reason } => labelled(
                "Failed to open zip: ",
                reason.as_str(),
            ),
            InstallFailure::ExtractionFailed { reason } => labelled(
                "Failed to extract zip: ",
                reason.as_str(),
            ),
            InstallFailure::RegistryWriteFailed { reason } => labelled(
                "Failed to write reg: ",
                reason.as_str(),
            ),
            InstallFailure::ShortcutCreationFailed { reason } => labelled(
                "Failed to create shortcut: ",
                reason.as_str(),
            ),
        }
    }
}

/// The payload of the one error notification a failed run sends.
#[derive(Debug, PartialEq, Eq)]
pub struct InstallError {
    pub msg: String,
}

impl InstallError {
    /// The notification for a failure: its wording, unchanged.
    pub fn from_failure(failure: &InstallFailure) -> (notice: InstallError)
        ensures
            notice.msg@ == failure.text(),
    {
        InstallError { msg: failure.message() }
    }
}

/// Why an archive entry was turned away.
#[derive(Debug, PartialEq, Eq)]
pub enum EntryRejection {
    /// The stored path is not a well-formed relative path.
    InvalidArchiveEntry { name: String },
    /// The place the entry would be written to lies outside the target.
    PathTraversal { name: String },
}

impl EntryRejection {
    /// The wording of this rejection.
    pub open spec fn text(self) -> Seq<char> {
        match self {
            EntryRejection::InvalidArchiveEntry { name } =>
                "Illegal file path in archive (possible traversal): "@ + name@,
            EntryRejection::PathTraversal { name } => "Entry tries to escape target dir: "@ + name@,
        }
    }

    /// Writes the rejection out as text.
    pub fn message(&self) -> (msg: String)
        ensures
            msg@ == self.text(),
    {
        match self {
            EntryRejection::InvalidArchiveEntry { name } => labelled(
                "Illegal file path in archive (possible traversal): ",
                name.as_str(),
            ),
            EntryRejection::PathTraversal { name } => labelled(
                "Entry tries to escape target dir: ",
                name.as_str(),
            ),
        }
    }
}

/// Why the place for the desktop shortcut could not be told.
#[derive(Clone, Copy, Debug, PartialEq, Eq, Structural)]
pub enum ShortcutFailure {
    /// The operating system names no desktop directory for the user.
    NoDesktopDirectory,
}

impl ShortcutFailure {
    /// The wording of this failure.
    pub open spec fn text(self) -> Seq<char> {
        "Failed to get desktop directory"@
    }

    /// Writes the failure out as text.
    pub fn message(&self) -> (msg: String)
        ensures
            msg@ == self.text(),
    {
        String::from_str("Failed to get desktop directory")
    }
}

/// A failure while the target directory is made ready, before any
/// background work starts. It is handed straight back to the caller.
#[derive(Debug, PartialEq, Eq)]
pub enum PreflightFailure {
    /// What was in the target directory could not be removed.
    CleanupFailed { reason: String },
    /// The target directory could not be created.
    DirectoryCreateFailed { reason: String },
}

impl PreflightFailure {
    /// The wording of this failure.
    pub open spec fn text(self) -> Seq<char> {
        match self {
            PreflightFailure::CleanupFailed { reason } =>
                "Failed to clear installation directory: "@ + reason@,
            PreflightFailure::DirectoryCreateFailed { reason } =>
                "Failed to create installation directory: "@ + reason@,
        }
    }

    /// Writes the failure out as text.
    pub fn message(&self) -> (msg: String)
        ensures
            msg@ == self.text(),
    {
        match self {
            PreflightFailure::CleanupFailed { reason } => labelled(
                "Failed to clear installation directory: ",
                reason.as_str(),
            ),
            PreflightFailure::DirectoryCreateFailed { reason } => labelled(
                "Failed to create installation directory: ",
                reason.as_str(),
            ),
        }
    }
}

/// Why the installed program could not be started.
#[derive(Clone, Copy, Debug, PartialEq, Eq, Structural)]
pub enum LaunchFailure {
    /// The path names a root, or nothing: there is no directory to run in.
    MissingParentDirectory,
}

impl LaunchFailure {
    /// The wording of this failure.
    pub open spec fn text(self) -> Seq<char> {
        "Failed to launch the application: missing parent directory"@
    }

    /// Writes the failure out as text.
    pub fn message(&self) -> (msg: String)
        ensures
            msg@ == self.text(),
    {
        String::from_str("Failed to launch the application: missing parent directory")
    }
}

} // verus!
