//! The notifications that the update manager hands to its host.
//!
//! The functions of the update manager return the notifications to emit, in
//! order; the host forwards each to the user interface under its
//! [`Notification::event_name`].

use vstd::prelude::*;
use vstd::string::StringExecFns;

use crate::updater::release::Release;

verus! {

/// What the tray menu shows about updates.
#[derive(Debug, Clone, Copy, PartialEq, Eq, Structural)]
pub enum MenuState {
    Checking,
    Available,
    NoUpdate,
    Ready,
    Idle,
}

impl MenuState {
    /// The word by which the user interface knows this menu state.
    pub open spec fn label(self) -> Seq<char> {
        match self {
            MenuState::Checking => "checking"@,
            MenuState::Available => "available"@,
            MenuState::NoUpdate => "no-update"@,
            MenuState::Ready => "ready"@,
            MenuState::Idle => "idle"@,
        }
    }

    pub fn as_str(self) -> (label: &'static str)
        ensures
            label@ == self.label(),
    {
        match self {
            MenuState::Checking => "checking",
            MenuState::Available => "available",
            MenuState::NoUpdate => "no-update",
            MenuState::Ready => "ready",
            MenuState::Idle => "idle",
        }
    }
}

/// Payload for the notification that an update is available.
#[derive(Debug, Clone, PartialEq, Eq)]
pub struct UpdateAvailablePayload {
    pub version: String,
    pub current_version: String,
    pub body: Option<String>,
}

/// What an [`UpdateAvailablePayload`] is, mathematically.
pub struct AvailableView {
    pub version: Seq<char>,
    pub current_version: Seq<char>,
    pub body: Option<Seq<char>>,
}

impl AvailableView {
    /// The payload that announces `release`.
    pub open spec fn of(release: Release) -> AvailableView {
        AvailableView {
            version: release.version,
            current_version: release.current_version,
            body: release.body,
        }
    }
}

impl View for UpdateAvailablePayload {
    type V = AvailableView;

    open spec fn view(&self) -> AvailableView {
        AvailableView {
            version: self.version@,
            current_version: self.current_version@,
            body: self.body.deep_view(),
        }
    }
}

/// How far a download has come: the bytes received, and the total if the
/// transport knows it.
#[derive(Debug, Clone, Copy, PartialEq, Eq, Structural)]
pub struct DownloadProgress {
    pub downloaded: u64,
    pub total: Option<u64>,
}

/// One notification from the update manager to its host.
#[derive(Debug, Clone, PartialEq, Eq)]
pub enum Notification {
    /// A check has started.
    CheckingStarted,
    /// A newer release was found.
    UpdateAvailable(UpdateAvailablePayload),
    /// No newer release exists.
    NotAvailable,
    /// Bytes of the artifact have arrived.
    DownloadProgress(DownloadProgress),
    /// The artifact of this version is downloaded and cached.
    DownloadComplete(String),
    /// Ask the user whether to restart into this version now.
    RestartPrompt(String),
    /// The cycle failed, with this message.
    Error(String),
    /// The tray menu is to show this state.
    MenuState(MenuState),
    /// The tray tooltip is to show this text.
    Tooltip(String),
}

/// What a [`Notification`] is, mathematically.
pub enum Signal {
    CheckingStarted,
    UpdateAvailable(AvailableView),
    NotAvailable,
    DownloadProgress(DownloadProgress),
    DownloadComplete(Seq<char>),
    RestartPrompt(Seq<char>),
    Error(Seq<char>),
    MenuState(MenuState),
    Tooltip(Seq<char>),
}

impl Signal {
    /// The name of the event that carries this notification.
    pub open spec fn event_name(self) -> Seq<char> {
        match self {
            Signal::CheckingStarted => "updater:checking"@,
            Signal::UpdateAvailable(_) => "updater:available"@,
            Signal::NotAvailable => "updater:not-available"@,
            Signal::DownloadProgress(_) => "updater:downloading"@,
            Signal::DownloadComplete(_) => "updater:downloaded"@,
            Signal::RestartPrompt(_) => "updater:show-restart-dialog"@,
            Signal::Error(_) => "updater:error"@,
            Signal::MenuState(_) => "updater:menu-state"@,
            Signal::Tooltip(_) => "updater:tooltip"@,
        }
    }

    /// The tooltip that announces the release `version`.
    pub open spec fn available_tooltip(version: Seq<char>) -> Seq<char> {
        "Update "@ + version + " available"@
    }

    /// The tooltip that tells of a downloaded update.
    pub open spec fn ready_tooltip() -> Seq<char> {
        "Update ready to install"@
    }
}

impl View for Notification {
    type V = Signal;

    open spec fn view(&self) -> Signal {
        match self {
            Notification::CheckingStarted => Signal::CheckingStarted,
            Notification::UpdateAvailable(p) => Signal::UpdateAvailable(p@),
            Notification::NotAvailable => Signal::NotAvailable,
            Notification::DownloadProgress(p) => Signal::DownloadProgress(*p),
            Notification::DownloadComplete(v) => Signal::DownloadComplete(v@),
            Notification::RestartPrompt(v) => Signal::RestartPrompt(v@),
            Notification::Error(m) => Signal::Error(m@),
            Notification::MenuState(s) => Signal::MenuState(*s),
            Notification::Tooltip(t) => Signal::Tooltip(t@),
        }
    }
}

impl DeepView for Notification {
    type V = Signal;

    open spec fn deep_view(&self) -> Signal {
        self@
    }
}

impl Notification {
    /// The name of the event under which the host emits this notification.
    pub fn event_name(&self) -> (name: &'static str)
        ensures
            name@ == self@.event_name(),
    {
        match self {
            Notification::CheckingStarted => "updater:checking",
            Notification::UpdateAvailable(_) => "updater:available",
            Notification::NotAvailable => "updater:not-available",
            Notification::DownloadProgress(_) => "updater:downloading",
            Notification::DownloadComplete(_) => "updater:downloaded",
            Notification::RestartPrompt(_) => "updater:show-restart-dialog",
            Notification::Error(_) => "updater:error",
            Notification::MenuState(_) => "updater:menu-state",
            Notification::Tooltip(_) => "updater:tooltip",
        }
    }

    /// The tooltip notification that announces the release `version`.
    pub fn available_tooltip(version: &str) -> (tooltip: Notification)
        ensures
            tooltip@ == Signal::Tooltip(Signal::available_tooltip(version@)),
    {
        let text = String::from_str("Update ").concat(version).concat(" available");
        Notification::Tooltip(text)
    }

    /// The tooltip notification that tells of a downloaded update.
    pub fn ready_tooltip() -> (tooltip: Notification)
        ensures
            tooltip@ == Signal::Tooltip(Signal::ready_tooltip()),
    {
        Notification::Tooltip(String::from_str("Update ready to install"))
    }
}

} // verus!
