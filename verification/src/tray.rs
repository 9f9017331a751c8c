//! The tray icon: which picture stands for which state.

use vstd::prelude::*;
use vstd::string::StringExecFns;

use crate::text::same_text;

verus! {

/// Tray icon state
#[derive(Debug, Clone, Copy, PartialEq, Eq, Structural)]
pub enum TrayState {
    Idle,
    Active,
    Error,
    Update,
    Offline,
}

impl TrayState {
    /// The state that the user interface means by `name`. A name that is not
    /// known means idle.
    pub open spec fn named(name: Seq<char>) -> TrayState {
        if name == "idle"@ {
            TrayState::Idle
        } else if name == "active"@ {
            TrayState::Active
        } else if name == "error"@ {
            TrayState::Error
        } else if name == "update"@ {
            TrayState::Update
        } else if name == "offline"@ {
            TrayState::Offline
        } else {
            TrayState::Idle
        }
    }

    /// Reads a state from its name.
    pub fn parse(name: &str) -> (state: TrayState)
        ensures
            state == TrayState::named(name@),
    {
        if same_text(name, "idle") {
            TrayState::Idle
        } else if same_text(name, "active") {
            TrayState::Active
        } else if same_text(name, "error") {
            TrayState::Error
        } else if same_text(name, "update") {
            TrayState::Update
        } else if same_text(name, "offline") {
            TrayState::Offline
        } else {
            TrayState::Idle
        }
    }
}

/// A picture of the tray.
#[derive(Debug, Clone, Copy, PartialEq, Eq, Structural)]
pub enum TrayIcon {
    Idle,
    IdleAlternate,
    Active,
    Error,
    Update,
    Offline,
}

impl TrayIcon {
    /// The icon for `state`. Idle has an alternate picture; activity is shown
    /// only where unread notifications are to be shown, and looks like idle
    /// otherwise.
    pub open spec fn of(state: TrayState, use_alternate_idle: bool, use_unread_active: bool) -> TrayIcon {
        match state {
            TrayState::Active if use_unread_active => TrayIcon::Active,
            TrayState::Idle | TrayState::Active => if use_alternate_idle {
                TrayIcon::IdleAlternate
            } else {
                TrayIcon::Idle
            },
            TrayState::Error => TrayIcon::Error,
            TrayState::Update => TrayIcon::Update,
            TrayState::Offline => TrayIcon::Offline,
        }
    }

    /// The name of the icon's file.
    pub open spec fn file(self) -> Seq<char> {
        match self {
            TrayIcon::Idle => "idle.png"@,
            TrayIcon::IdleAlternate => "idle-alternate.png"@,
            TrayIcon::Active => "active.png"@,
            TrayIcon::Error => "error.png"@,
            TrayIcon::Update => "update.png"@,
            TrayIcon::Offline => "offline.png"@,
        }
    }

    /// The name of the icon's file.
    pub fn file_name(self) -> (name: &'static str)
        ensures
            name@ == self.file(),
    {
        match self {
            TrayIcon::Idle => "idle.png",
            TrayIcon::IdleAlternate => "idle-alternate.png",
            TrayIcon::Active => "active.png",
            TrayIcon::Error => "error.png",
            TrayIcon::Update => "update.png",
            TrayIcon::Offline => "offline.png",
        }
    }

    /// Where the icon's file lies below the resource directory.
    pub fn resource_path(self) -> (path: String)
        ensures
            path@ == "icons/tray/"@ + self.file(),
    {
        String::from_str("icons/tray/").concat(self.file_name())
    }

    /// Whether the picture adapts to the menu bar's theme: only the plain idle
    /// icon does.
    pub fn is_template(self) -> (template: bool)
        ensures
            template == (self == TrayIcon::Idle),
    {
        match self {
            TrayIcon::Idle => true,
            _ => false,
        }
    }
}

/// Tray configuration state
#[derive(Debug)]
pub struct TrayConfig {
    pub use_alternate_idle: bool,
    pub use_unread_active: bool,
    pub current_state: TrayState,
}

impl TrayConfig {
    /// The configuration at startup: plain icons, idle.
    pub fn new() -> (config: TrayConfig)
        ensures
            config == (TrayConfig {
                use_alternate_idle: false,
                use_unread_active: false,
                current_state: TrayState::Idle,
            }),
    {
        TrayConfig {
            use_alternate_idle: false,
            use_unread_active: false,
            current_state: TrayState::Idle,
        }
    }

    /// The icon that this configuration shows for `state`.
    pub open spec fn shows(self, state: TrayState) -> TrayIcon {
        TrayIcon::of(state, self.use_alternate_idle, self.use_unread_active)
    }

    /// The icon that this configuration shows for `state`.
    pub fn icon(&self, state: TrayState) -> (icon: TrayIcon)
        ensures
            icon == self.shows(state),
    {
        match state {
            TrayState::Idle => {
                if self.use_alternate_idle {
                    TrayIcon::IdleAlternate
                } else {
                    TrayIcon::Idle
                }
            },
            TrayState::Active => {
                if self.use_unread_active {
                    TrayIcon::Active
                } else if self.use_alternate_idle {
                    TrayIcon::IdleAlternate
                } else {
                    TrayIcon::Idle
                }
            },
            TrayState::Error => TrayIcon::Error,
            TrayState::Update => TrayIcon::Update,
            TrayState::Offline => TrayIcon::Offline,
        }
    }
}

/// Takes the state that the user interface names and says which icon to show.
/// The state is remembered as the current one.
pub fn update_tray_icon(state: &str, config: &mut TrayConfig) -> (icon: TrayIcon)
    ensures
        *final(config) == (TrayConfig { current_state: TrayState::named(state@), ..*old(config) }),
        icon == old(config).shows(TrayState::named(state@)),
{
    let tray_state = TrayState::parse(state);
    config.current_state = tray_state;
    config.icon(tray_state)
}

/// Chooses between the plain and the alternate idle icon. Where the tray is
/// idle the icon to show now comes back; otherwise nothing is to be redrawn.
pub fn set_alternate_idle_icon(enabled: bool, config: &mut TrayConfig) -> (redraw: Option<TrayIcon>)
    ensures
        *final(config) == (TrayConfig { use_alternate_idle: enabled, ..*old(config) }),
        redraw == if old(config).current_state == TrayState::Idle {
            Some(final(config).shows(TrayState::Idle))
        } else {
            None
        },
{
    config.use_alternate_idle = enabled;
    match config.current_state {
        TrayState::Idle => Some(config.icon(TrayState::Idle)),
        _ => None,
    }
}

/// Chooses whether activity has an icon of its own. Where the tray is active
/// the icon to show now comes back; otherwise nothing is to be redrawn.
pub fn set_unread_active_icon(enabled: bool, config: &mut TrayConfig) -> (redraw: Option<TrayIcon>)
    ensures
        *final(config) == (TrayConfig { use_unread_active: enabled, ..*old(config) }),
        redraw == if old(config).current_state == TrayState::Active {
            Some(final(config).shows(TrayState::Active))
        } else {
            None
        },
{
    config.use_unread_active = enabled;
    match config.current_state {
        TrayState::Active => Some(config.icon(TrayState::Active)),
        _ => None,
    }
}

/// The tooltip that stands in for a tray title where the platform has none:
/// the application's name, and the title after it unless it is empty.
pub fn title_tooltip(title: &str) -> (tooltip: String)
    ensures
        tooltip@ == if title@.len() == 0 {
            "Gitify"@
        } else {
            "Gitify - "@ + title@
        },
{
    if title.is_empty() {
        String::from_str("Gitify")
    } else {
        String::from_str("Gitify - ").concat(title)
    }
}

} // verus!
