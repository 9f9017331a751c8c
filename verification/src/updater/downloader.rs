//! The download protocol: progress reports, and the hand-over of a completed
//! artifact to the shared state.

use vstd::prelude::*;

use crate::updater::cycle::{fail_cycle, CycleStep, FollowUp, FollowUpView, StepView};
use crate::updater::error::{Failure, UpdateError};
use crate::updater::events::{DownloadProgress, MenuState, Notification, Signal};
use crate::updater::release::{Release, ReleaseInfo};
use crate::updater::state::{Artifact, UpdaterModel, UpdaterState};

verus! {

/// What the transport handed back for a download, mathematically.
pub open spec fn downloaded_view(downloaded: Result<Vec<u8>, UpdateError>) -> Result<
    Seq<u8>,
    Failure,
> {
    match downloaded {
        Ok(bytes) => Ok(bytes@),
        Err(error) => Err(error@),
    }
}

impl Artifact {
    /// The artifact that pairs `bytes` with the versions of `release`.
    pub open spec fn of(release: Release, bytes: Seq<u8>) -> Artifact {
        Artifact { bytes, version: release.version, current_version: release.current_version }
    }
}

impl UpdaterModel {
    /// The state after `artifact` was downloaded in full: it is cached, in
    /// place of any earlier one, and marked downloaded.
    pub open spec fn complete_download(self, artifact: Artifact) -> UpdaterModel {
        UpdaterModel { update_downloaded: true, ..self.store(artifact) }
    }

    /// The state after the download of `release` ended.
    pub open spec fn leave_download(
        self,
        release: Release,
        downloaded: Result<Seq<u8>, Failure>,
    ) -> UpdaterModel {
        match downloaded {
            Ok(bytes) => self.complete_download(Artifact::of(release, bytes)),
            Err(_) => self.fail_cycle(),
        }
    }
}

impl StepView {
    /// The step after the artifact of `version` was cached: the download is
    /// reported complete, and the user is asked whether to restart.
    pub open spec fn downloaded(version: Seq<char>) -> StepView {
        StepView {
            notifications: seq![
                Signal::DownloadComplete(version),
                Signal::MenuState(MenuState::Ready),
                Signal::Tooltip(Signal::ready_tooltip()),
                Signal::RestartPrompt(version),
            ],
            outcome: Ok(FollowUpView::Nothing),
        }
    }

    /// The step that ends the download of `release`.
    pub open spec fn download_ended(
        release: Release,
        downloaded: Result<Seq<u8>, Failure>,
    ) -> StepView {
        match downloaded {
            Ok(_) => StepView::downloaded(release.version),
            Err(error) => StepView::failed(error),
        }
    }
}

/// The notification for a progress report of the transport: the bytes
/// received, and the total if it is known.
pub fn download_progress(downloaded: usize, total: Option<u64>) -> (progress: Notification)
    ensures
        progress@ == Signal::DownloadProgress(
            DownloadProgress { downloaded: downloaded as u64, total },
        ),
{
    Notification::DownloadProgress(DownloadProgress { downloaded: downloaded as u64, total })
}

/// Takes the end of the download of `release`.
///
/// * The bytes, complete: they are cached under the release's version, in
///   place of any earlier artifact, the state is marked downloaded, and the
///   user is asked whether to restart.
/// * A failure: nothing of the download is kept, and the cycle ends as
///   [`fail_cycle`] says.
pub fn download_update(
    state: &mut UpdaterState,
    release: ReleaseInfo,
    downloaded: Result<Vec<u8>, UpdateError>,
) -> (step: CycleStep)
    ensures
        final(state)@ == old(state)@.leave_download(release@, downloaded_view(downloaded)),
        step@ == StepView::download_ended(release@, downloaded_view(downloaded)),
{
    match downloaded {
        Err(error) => fail_cycle(state, error),
        Ok(bytes) => {
            let version = release.version.clone();
            state.store_downloaded_update(bytes, release.version, release.current_version);
            state.set_update_downloaded(true);
            let mut notifications: Vec<Notification> = Vec::new();
            notifications.push(Notification::DownloadComplete(version.clone()));
            notifications.push(Notification::MenuState(MenuState::Ready));
            notifications.push(Notification::ready_tooltip());
            notifications.push(Notification::RestartPrompt(version));
            assert(notifications.deep_view() =~= StepView::downloaded(release@.version).notifications);
            CycleStep { notifications, outcome: Ok(FollowUp::Nothing) }
        },
    }
}

} // verus!
