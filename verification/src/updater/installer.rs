//! The install protocol: taking the cached artifact exactly once, and holding
//! on to it when the release source has moved on.

use vstd::prelude::*;
use vstd::string::StringExecFns;

use crate::updater::checker::fetched_view;
use crate::updater::error::{Failure, Operation, UpdateError};
use crate::updater::release::{Release, ReleaseInfo};
use crate::updater::state::{Artifact, DownloadedUpdate, UpdaterModel, UpdaterState};

verus! {

impl UpdaterModel {
    /// Whether an install can begin: an artifact is marked downloaded and is
    /// in the cache.
    pub open spec fn installable(self) -> bool {
        self.update_downloaded && self.cached is Some
    }

    /// The state after an install was requested: where it can begin, the
    /// artifact leaves the cache and the download mark is cleared; where it
    /// cannot, nothing changes.
    pub open spec fn begin_install(self) -> UpdaterModel {
        if self.installable() {
            UpdaterModel { update_downloaded: false, ..self.take() }
        } else {
            self
        }
    }

    /// What a request to install yields: the cached artifact, or the reason
    /// why there is none to install.
    pub open spec fn install_request(self) -> Result<Artifact, Failure> {
        if !self.update_downloaded {
            Err(Failure::NoUpdateAvailable)
        } else if self.cached is None {
            Err(Failure::ArtifactAlreadyConsumed)
        } else {
            Ok(self.cached->0)
        }
    }
}

/// What is handed to the platform's install primitive.
#[derive(Debug, Clone, PartialEq, Eq)]
pub struct InstallPlan {
    /// The payload to apply: the cached one.
    pub bytes: Vec<u8>,
    /// The version of that payload.
    pub version: String,
    /// The warning to log where the release source now offers another version.
    pub warning: Option<String>,
}

/// What an [`InstallPlan`] is, mathematically.
pub struct PlanView {
    pub bytes: Seq<u8>,
    pub version: Seq<char>,
    pub warning: Option<Seq<char>>,
}

impl View for InstallPlan {
    type V = PlanView;

    open spec fn view(&self) -> PlanView {
        PlanView {
            bytes: self.bytes@,
            version: self.version@,
            warning: self.warning.deep_view(),
        }
    }
}

impl PlanView {
    /// The words of the warning for an artifact of version `downloaded` when
    /// the release source offers `found`.
    pub open spec fn mismatch_warning(downloaded: Seq<char>, found: Seq<char>) -> Seq<char> {
        "Update version mismatch: downloaded "@ + downloaded + " but found "@ + found
            + ". Proceeding with downloaded version."@
    }

    /// The message of the failure when the release source offers nothing to
    /// install through.
    pub open spec fn nothing_offered() -> Seq<char> {
        "No update available for installation"@
    }

    /// The plan for `artifact` given the release source's second answer. The
    /// cached bytes are installed whatever version is offered now; another
    /// version only adds a warning.
    pub open spec fn of(artifact: Artifact, requeried: Result<Option<Release>, Failure>) -> Result<
        PlanView,
        Failure,
    > {
        match requeried {
            Err(error) => Err(error),
            Ok(None) => Err(Failure::InstallError(PlanView::nothing_offered())),
            Ok(Some(release)) => Ok(
                PlanView {
                    bytes: artifact.bytes,
                    version: artifact.version,
                    warning: if release.version == artifact.version {
                        None
                    } else {
                        Some(PlanView::mismatch_warning(artifact.version, release.version))
                    },
                },
            ),
        }
    }
}

/// The process is to be restarted now.
#[derive(Debug, Clone, Copy, PartialEq, Eq, Structural)]
pub struct Restart;

/// What follows when the install primitive has returned: a restart where it
/// applied the artifact, and the failure where it did not.
pub open spec fn after_install(applied: Result<(), Seq<char>>) -> Result<Restart, Failure> {
    match applied {
        Ok(_) => Ok(Restart),
        Err(detail) => Err(Failure::InstallError(Operation::InstallUpdate.prefix() + detail)),
    }
}

/// What the install primitive handed back, mathematically.
pub open spec fn applied_view(applied: Result<(), String>) -> Result<(), Seq<char>> {
    match applied {
        Ok(_) => Ok(()),
        Err(detail) => Err(detail@),
    }
}

/// What a result of [`finish_install`] is, mathematically.
pub open spec fn finished_view(finished: Result<Restart, UpdateError>) -> Result<Restart, Failure> {
    match finished {
        Ok(restart) => Ok(restart),
        Err(error) => Err(error@),
    }
}

/// What a result of [`plan_install`] is, mathematically.
pub open spec fn planned_view(planned: Result<InstallPlan, UpdateError>) -> Result<
    PlanView,
    Failure,
> {
    match planned {
        Ok(plan) => Ok(plan@),
        Err(error) => Err(error@),
    }
}

/// What a result of [`install_update`] is, mathematically.
pub open spec fn taken_view(taken: Result<DownloadedUpdate, UpdateError>) -> Result<
    Artifact,
    Failure,
> {
    match taken {
        Ok(downloaded) => Ok(downloaded@),
        Err(error) => Err(error@),
    }
}

/// Begins an install: takes the cached artifact out of the state.
///
/// Fails with `NoUpdateAvailable`, leaving the state as it is, where no update
/// is marked downloaded; fails with `ArtifactAlreadyConsumed` where one is
/// marked but the cache is empty. Otherwise the artifact comes back, the cache
/// is empty and the download mark is cleared: a second install finds nothing.
pub fn install_update(state: &mut UpdaterState) -> (taken: Result<DownloadedUpdate, UpdateError>)
    ensures
        final(state)@ == old(state)@.begin_install(),
        taken_view(taken) == old(state)@.install_request(),
{
    if !state.is_update_downloaded() {
        return Err(UpdateError::NoUpdateAvailable);
    }
    match state.take_downloaded_update() {
        None => Err(UpdateError::ArtifactAlreadyConsumed),
        Some(downloaded) => {
            state.set_update_downloaded(false);
            Ok(downloaded)
        },
    }
}

/// Decides what to install once the release source has been queried again for
/// its install handle.
///
/// The cached artifact is authoritative: where the release source now offers
/// another version, the plan still holds the cached bytes and version, with a
/// warning. Where it offers nothing, or the query failed, the install fails
/// and the artifact is gone.
pub fn plan_install(
    downloaded: DownloadedUpdate,
    requeried: Result<Option<ReleaseInfo>, UpdateError>,
) -> (planned: Result<InstallPlan, UpdateError>)
    ensures
        planned_view(planned) == PlanView::of(downloaded@, fetched_view(requeried)),
{
    match requeried {
        Err(error) => Err(error),
        Ok(None) => Err(
            UpdateError::InstallError(String::from_str("No update available for installation")),
        ),
        Ok(Some(release)) => {
            let warning = if release.version == downloaded.version {
                None
            } else {
                Some(
                    String::from_str("Update version mismatch: downloaded ").concat(
                        downloaded.version.as_str(),
                    ).concat(" but found ").concat(release.version.as_str()).concat(
                        ". Proceeding with downloaded version.",
                    ),
                )
            };
            Ok(InstallPlan { bytes: downloaded.bytes, version: downloaded.version, warning })
        },
    }
}

/// Takes what the install primitive handed back. Where it applied the
/// artifact and returned all the same, the process is to be restarted by
/// hand. Where it failed, the attempt is over: the artifact was consumed, and
/// only a new check and download can bring another.
pub fn finish_install(applied: Result<(), String>) -> (finished: Result<Restart, UpdateError>)
    ensures
        finished_view(finished) == after_install(applied_view(applied)),
{
    match applied {
        Ok(_) => Ok(Restart),
        Err(detail) => Err(
            UpdateError::InstallError(Operation::InstallUpdate.describe_failure(detail.as_str())),
        ),
    }
}

} // verus!
