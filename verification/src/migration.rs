//! Taking over the settings that the Electron app left behind.

use vstd::prelude::*;

use crate::text::{contains, occurs_in, same_text};

verus! {

/// The name of the file that marks the migration as done, in the
/// application's data directory.
pub const MIGRATION_FLAG_FILE: &'static str = ".migration_complete";

/// What the flag file holds.
pub const MIGRATION_FLAG_CONTENT: &'static str = "true";

/// Whether `text` is one JSON value and nothing else, as `serde_json` reads it.
pub uninterp spec fn is_json(text: Seq<char>) -> bool;

/// `serde_json::from_str` at the type `serde_json::Value`: whether `text`
/// parses. Nothing is claimed of the answer but that it depends on the text
/// alone.
#[verifier::external_body]
fn parses_as_json(text: &str) -> (valid: bool)
    ensures
        valid == is_json(text@),
{
    serde_json::from_str::<serde_json::Value>(text).is_ok()
}

/// Where the Electron app kept its data, below the home directory, on the
/// operating system of the given name.
pub open spec fn storage_dir(os: Seq<char>) -> Seq<char> {
    if os == "macos"@ {
        "Library/Application Support/Gitify"@
    } else if os == "windows"@ {
        "AppData/Roaming/Gitify"@
    } else {
        ".config/Gitify"@
    }
}

/// Where the Electron app kept its data, below the home directory.
/// `os` is the operating system's name as Rust has it; any name but `macos`
/// and `windows` is taken as Linux.
pub fn electron_storage_dir(os: &str) -> (dir: &'static str)
    ensures
        dir@ == storage_dir(os@),
{
    if same_text(os, "macos") {
        "Library/Application Support/Gitify"
    } else if same_text(os, "windows") {
        "AppData/Roaming/Gitify"
    } else {
        ".config/Gitify"
    }
}

/// The part of the settings that a file holds.
#[derive(Debug, Clone, Copy, PartialEq, Eq, Structural)]
pub enum SettingsKind {
    Accounts,
    Settings,
    Notifications,
}

impl SettingsKind {
    /// The part that a file of this name holds, if any. The name is searched
    /// for `account`, then `setting`, then `notification`.
    pub open spec fn of(file_name: Seq<char>) -> Option<SettingsKind> {
        if occurs_in(file_name, "account"@) {
            Some(SettingsKind::Accounts)
        } else if occurs_in(file_name, "setting"@) {
            Some(SettingsKind::Settings)
        } else if occurs_in(file_name, "notification"@) {
            Some(SettingsKind::Notifications)
        } else {
            None
        }
    }

    /// Tells from a file's name which part of the settings it holds.
    pub fn classify(file_name: &str) -> (kind: Option<SettingsKind>)
        ensures
            kind == SettingsKind::of(file_name@),
    {
        if contains(file_name, "account") {
            Some(SettingsKind::Accounts)
        } else if contains(file_name, "setting") {
            Some(SettingsKind::Settings)
        } else if contains(file_name, "notification") {
            Some(SettingsKind::Notifications)
        } else {
            None
        }
    }
}

/// The settings of the Electron app, each part as the JSON text of the
/// file that held it.
#[derive(Debug, Clone, PartialEq, Eq)]
pub struct ElectronSettings {
    pub accounts: Option<String>,
    pub settings: Option<String>,
    pub notifications: Option<String>,
}

/// What an [`ElectronSettings`] is, mathematically.
pub struct SettingsView {
    pub accounts: Option<Seq<char>>,
    pub settings: Option<Seq<char>>,
    pub notifications: Option<Seq<char>>,
}

impl View for ElectronSettings {
    type V = SettingsView;

    open spec fn view(&self) -> SettingsView {
        SettingsView {
            accounts: self.accounts.deep_view(),
            settings: self.settings.deep_view(),
            notifications: self.notifications.deep_view(),
        }
    }
}

impl SettingsView {
    /// No part found.
    pub open spec fn empty() -> SettingsView {
        SettingsView { accounts: None, settings: None, notifications: None }
    }

    /// These settings after the file `file_name` with `content` was read:
    /// where the content is valid and the name tells a part, the content takes
    /// that part's place; otherwise nothing changes.
    pub open spec fn record(self, file_name: Seq<char>, content: Seq<char>, valid: bool) -> SettingsView {
        if !valid {
            self
        } else {
            match SettingsKind::of(file_name) {
                Some(SettingsKind::Accounts) => SettingsView { accounts: Some(content), ..self },
                Some(SettingsKind::Settings) => SettingsView { settings: Some(content), ..self },
                Some(SettingsKind::Notifications) => SettingsView {
                    notifications: Some(content),
                    ..self
                },
                None => self,
            }
        }
    }

    /// The settings found in `files`, each a name and a content, read in
    /// order: of two files for one part, the later one stays.
    pub open spec fn collected(files: Seq<(Seq<char>, Seq<char>)>) -> SettingsView
        decreases files.len(),
    {
        if files.len() == 0 {
            SettingsView::empty()
        } else {
            SettingsView::collected(files.drop_last()).record(
                files.last().0,
                files.last().1,
                is_json(files.last().1),
            )
        }
    }
}

impl ElectronSettings {
    /// Settings with no part found.
    pub fn new() -> (settings: ElectronSettings)
        ensures
            settings@ == SettingsView::empty(),
    {
        ElectronSettings { accounts: None, settings: None, notifications: None }
    }

    /// Takes in one file, given whether its content is valid JSON.
    pub fn record(&mut self, file_name: &str, content: String, valid: bool)
        ensures
            final(self)@ == old(self)@.record(file_name@, content@, valid),
    {
        if !valid {
            return ;
        }
        match SettingsKind::classify(file_name) {
            Some(SettingsKind::Accounts) => {
                self.accounts = Some(content);
            },
            Some(SettingsKind::Settings) => {
                self.settings = Some(content);
            },
            Some(SettingsKind::Notifications) => {
                self.notifications = Some(content);
            },
            None => {},
        }
    }
}

/// Gathers the settings from the JSON files of the Electron data directory.
/// `files` holds each file's name and content, in the order in which the
/// directory lists them. A file whose content is not valid JSON is passed over.
pub fn migrate_electron_data(files: &Vec<(String, String)>) -> (settings: ElectronSettings)
    ensures
        settings@ == SettingsView::collected(files.deep_view()),
{
    let mut settings = ElectronSettings::new();
    let mut i: usize = 0;
    assert(files.deep_view().take(0) =~= Seq::empty());
    while i < files.len()
        invariant
            i <= files.len(),
            settings@ == SettingsView::collected(files.deep_view().take(i as int)),
        decreases files.len() - i,
    {
        let file = &files[i];
        let content = file.1.clone();
        let valid = parses_as_json(content.as_str());
        settings.record(file.0.as_str(), content, valid);
        proof {
            let seen = files.deep_view().take(i + 1);
            assert(seen.drop_last() =~= files.deep_view().take(i as int));
            assert(seen.last() == files.deep_view()[i as int]);
        }
        i += 1;
    }
    assert(files.deep_view().take(files.len() as int) =~= files.deep_view());
    settings
}

} // verus!
