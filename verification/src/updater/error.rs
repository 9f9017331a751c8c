//! The failures of the update manager and the messages they are shown with.

use vstd::prelude::*;
use vstd::string::StringExecFns;

verus! {

/// An outside operation of the update manager that can fail.
#[derive(Debug, Clone, Copy, PartialEq, Eq, Structural)]
pub enum Operation {
    /// Obtaining the handle to the release source.
    GetUpdater,
    /// Querying the release source during a check.
    CheckForUpdates,
    /// Downloading the artifact.
    DownloadUpdate,
    /// Querying the release source again before an install.
    RecheckForInstall,
    /// Applying the artifact.
    InstallUpdate,
}

impl Operation {
    /// The words that introduce a failure of this operation.
    pub open spec fn prefix(self) -> Seq<char> {
        match self {
            Operation::GetUpdater => "Failed to get updater: "@,
            Operation::CheckForUpdates => "Failed to check for updates: "@,
            Operation::DownloadUpdate => "Failed to download update: "@,
            Operation::RecheckForInstall => "Failed to get updater for install: "@,
            Operation::InstallUpdate => "Failed to install update: "@,
        }
    }

    /// The message for a failure of this operation: the operation's prefix,
    /// then the detail that the collaborator reported.
    pub fn describe_failure(self, detail: &str) -> (message: String)
        ensures
            message@ == self.prefix() + detail@,
    {
        let prefix = match self {
            Operation::GetUpdater => "Failed to get updater: ",
            Operation::CheckForUpdates => "Failed to check for updates: ",
            Operation::DownloadUpdate => "Failed to download update: ",
            Operation::RecheckForInstall => "Failed to get updater for install: ",
            Operation::InstallUpdate => "Failed to install update: ",
        };
        String::from_str(prefix).concat(detail)
    }
}

/// Why a step of the update manager failed.
///
/// The three variants that come from a collaborator carry the message under
/// which the failure is shown.
#[derive(Debug, Clone, PartialEq, Eq)]
pub enum UpdateError {
    /// Fetching the manifest or the artifact failed or timed out.
    TransportError(String),
    /// The manifest was malformed.
    ParseError(String),
    /// An install was attempted with nothing downloaded.
    NoUpdateAvailable,
    /// An install found the cached artifact already taken.
    ArtifactAlreadyConsumed,
    /// The artifact could not be applied.
    InstallError(String),
}

/// What an [`UpdateError`] is, mathematically.
pub enum Failure {
    TransportError(Seq<char>),
    ParseError(Seq<char>),
    NoUpdateAvailable,
    ArtifactAlreadyConsumed,
    InstallError(Seq<char>),
}

impl Failure {
    /// The one human-readable message of this failure.
    pub open spec fn message(self) -> Seq<char> {
        match self {
            Failure::TransportError(m) => m,
            Failure::ParseError(m) => m,
            Failure::NoUpdateAvailable => "No update has been downloaded"@,
            Failure::ArtifactAlreadyConsumed => "Downloaded update not found"@,
            Failure::InstallError(m) => m,
        }
    }
}

impl View for UpdateError {
    type V = Failure;

    open spec fn view(&self) -> Failure {
        match self {
            UpdateError::TransportError(m) => Failure::TransportError(m@),
            UpdateError::ParseError(m) => Failure::ParseError(m@),
            UpdateError::NoUpdateAvailable => Failure::NoUpdateAvailable,
            UpdateError::ArtifactAlreadyConsumed => Failure::ArtifactAlreadyConsumed,
            UpdateError::InstallError(m) => Failure::InstallError(m@),
        }
    }
}

impl UpdateError {
    /// The message under which this failure is shown to the user.
    pub fn message(&self) -> (message: String)
        ensures
            message@ == self@.message(),
    {
        match self {
            UpdateError::TransportError(m) => m.clone(),
            UpdateError::ParseError(m) => m.clone(),
            UpdateError::NoUpdateAvailable => String::from_str("No update has been downloaded"),
            UpdateError::ArtifactAlreadyConsumed => String::from_str("Downloaded update not found"),
            UpdateError::InstallError(m) => m.clone(),
        }
    }
}

} // verus!
