//! The state that the update manager shares between its tasks.
//!
//! `UpdaterState` holds four flags and one slot for the most recently
//! downloaded artifact. Its view is an [`UpdaterModel`], over which every
//! contract of the update manager is stated.
//!
//! The methods of `UpdaterState` are single reads and writes: each says what
//! it changes and changes nothing else. The protocols of the update manager
//! are made of them, and it is the protocols that keep the state
//! [consistent](UpdaterModel::consistent) from step to step. A host that
//! shares the state between tasks puts it behind a lock and takes each step of
//! a protocol under that lock.

use vstd::prelude::*;

verus! {

/// A fully downloaded release, waiting to be installed.
#[derive(Debug, Clone, PartialEq, Eq)]
pub struct DownloadedUpdate {
    /// The release payload.
    pub bytes: Vec<u8>,
    /// The version of the downloaded release.
    pub version: String,
    /// The version that was running when the download was made.
    pub current_version: String,
}

/// What a [`DownloadedUpdate`] is, mathematically.
pub struct Artifact {
    pub bytes: Seq<u8>,
    pub version: Seq<char>,
    pub current_version: Seq<char>,
}

impl View for DownloadedUpdate {
    type V = Artifact;

    open spec fn view(&self) -> Artifact {
        Artifact {
            bytes: self.bytes@,
            version: self.version@,
            current_version: self.current_version@,
        }
    }
}

impl DeepView for DownloadedUpdate {
    type V = Artifact;

    open spec fn deep_view(&self) -> Artifact {
        self@
    }
}

/// Current update status, as the host reports it.
#[derive(Debug, Clone, Copy, PartialEq, Eq, Structural)]
pub struct UpdateStatus {
    pub checking: bool,
    pub update_available: bool,
    pub update_downloaded: bool,
}

/// What an [`UpdaterState`] is, mathematically: its flags and its cache slot.
pub struct UpdaterModel {
    /// The scheduler has been activated.
    pub started: bool,
    /// A release newer than the running one is known.
    pub update_available: bool,
    /// An artifact has been downloaded and cached.
    pub update_downloaded: bool,
    /// A check is in flight.
    pub checking: bool,
    /// The cached artifact, if any.
    pub cached: Option<Artifact>,
}

impl UpdaterModel {
    /// The state at startup: nothing started, nothing known, nothing cached.
    pub open spec fn initial() -> UpdaterModel {
        UpdaterModel {
            started: false,
            update_available: false,
            update_downloaded: false,
            checking: false,
            cached: None,
        }
    }

    /// The flag `update_downloaded` tells whether the cache slot is filled.
    pub open spec fn cache_matches_flag(self) -> bool {
        self.update_downloaded <==> self.cached is Some
    }

    /// An update that has been downloaded is also marked available.
    pub open spec fn downloaded_implies_available(self) -> bool {
        self.update_downloaded ==> self.update_available
    }

    /// Both invariants that hold between the steps of the update protocols.
    pub open spec fn consistent(self) -> bool {
        self.cache_matches_flag() && self.downloaded_implies_available()
    }

    /// The three flags that the host reports.
    pub open spec fn status(self) -> UpdateStatus {
        UpdateStatus {
            checking: self.checking,
            update_available: self.update_available,
            update_downloaded: self.update_downloaded,
        }
    }

    /// This state with `artifact` in the cache slot, whatever was there before.
    pub open spec fn store(self, artifact: Artifact) -> UpdaterModel {
        UpdaterModel { cached: Some(artifact), ..self }
    }

    /// What a take finds in the cache slot: the cached artifact, if any.
    pub open spec fn taken(self) -> Option<Artifact> {
        self.cached
    }

    /// This state after a take: the cache slot is empty.
    pub open spec fn take(self) -> UpdaterModel {
        UpdaterModel { cached: None, ..self }
    }
}

/// State of the update manager.
pub struct UpdaterState {
    started: bool,
    update_available: bool,
    update_downloaded: bool,
    checking: bool,
    downloaded_update: Option<DownloadedUpdate>,
}

impl View for UpdaterState {
    type V = UpdaterModel;

    closed spec fn view(&self) -> UpdaterModel {
        UpdaterModel {
            started: self.started,
            update_available: self.update_available,
            update_downloaded: self.update_downloaded,
            checking: self.checking,
            cached: self.downloaded_update.deep_view(),
        }
    }
}

impl UpdaterState {
    /// A fresh state: every flag cleared and the cache slot empty.
    pub fn new() -> (state: UpdaterState)
        ensures
            state@ == UpdaterModel::initial(),
    {
        UpdaterState {
            started: false,
            update_available: false,
            update_downloaded: false,
            checking: false,
            downloaded_update: None,
        }
    }

    /// Whether the scheduler has been activated.
    pub fn is_started(&self) -> (started: bool)
        ensures
            started == self@.started,
    {
        self.started
    }

    /// Sets the mark that the scheduler has been activated; nothing else changes.
    pub fn set_started(&mut self, value: bool)
        ensures
            final(self)@ == (UpdaterModel { started: value, ..old(self)@ }),
    {
        self.started = value;
    }

    /// Whether a release newer than the running one is known.
    pub fn is_update_available(&self) -> (available: bool)
        ensures
            available == self@.update_available,
    {
        self.update_available
    }

    /// Sets the mark that a newer release is known; nothing else changes.
    pub fn set_update_available(&mut self, value: bool)
        ensures
            final(self)@ == (UpdaterModel { update_available: value, ..old(self)@ }),
    {
        self.update_available = value;
    }

    /// Whether an artifact is marked as downloaded.
    pub fn is_update_downloaded(&self) -> (downloaded: bool)
        ensures
            downloaded == self@.update_downloaded,
    {
        self.update_downloaded
    }

    /// Sets the mark that an artifact is downloaded; the cache slot itself is
    /// not touched.
    pub fn set_update_downloaded(&mut self, value: bool)
        ensures
            final(self)@ == (UpdaterModel { update_downloaded: value, ..old(self)@ }),
    {
        self.update_downloaded = value;
    }

    /// Whether a check is in flight.
    pub fn is_checking(&self) -> (checking: bool)
        ensures
            checking == self@.checking,
    {
        self.checking
    }

    /// Sets the mark that a check is in flight; nothing else changes.
    pub fn set_checking(&mut self, value: bool)
        ensures
            final(self)@ == (UpdaterModel { checking: value, ..old(self)@ }),
    {
        self.checking = value;
    }

    /// Caches a downloaded artifact, replacing any that was cached before.
    pub fn store_downloaded_update(
        &mut self,
        bytes: Vec<u8>,
        version: String,
        current_version: String,
    )
        ensures
            final(self)@ == old(self)@.store(
                Artifact { bytes: bytes@, version: version@, current_version: current_version@ },
            ),
    {
        self.downloaded_update = Some(DownloadedUpdate { bytes, version, current_version });
    }

    /// Moves the cached artifact out, leaving the slot empty.
    pub fn take_downloaded_update(&mut self) -> (taken: Option<DownloadedUpdate>)
        ensures
            taken.deep_view() == old(self)@.taken(),
            final(self)@ == old(self)@.take(),
    {
        self.downloaded_update.take()
    }
}

/// Reads the three flags that the host reports. The state is not changed.
pub fn get_update_status(state: &UpdaterState) -> (status: UpdateStatus)
    ensures
        status == state@.status(),
{
    UpdateStatus {
        checking: state.is_checking(),
        update_available: state.is_update_available(),
        update_downloaded: state.is_update_downloaded(),
    }
}

impl Default for UpdaterState {
    fn default() -> (state: UpdaterState)
        ensures
            state@ == UpdaterModel::initial(),
    {
        UpdaterState::new()
    }
}

} // verus!
