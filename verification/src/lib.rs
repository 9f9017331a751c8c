//! Core logic of the Gitify desktop shell.
//!
//! The heart of the crate is the update manager in [`updater`]: the state it
//! shares between background tasks, and the decisions of its check, download and
//! install protocols. Around it stand the smaller decisions of the shell:
//!
//! * [`tray`]: which icon stands for which state;
//! * [`shell`]: tray menu entries, tray clicks, deep links, second instances;
//! * [`auth`]: the token endpoint and what its answer means;
//! * [`first_run`]: whether and how to move the application on macOS;
//! * [`migration`]: the settings that the Electron app left behind;
//! * [`text`]: searching and trimming text.
//!
//! Every function here is a decision over plain values. The host performs the
//! network requests, timers and platform calls, and hands the results back.

pub mod auth;
pub mod first_run;
pub mod migration;
pub mod shell;
pub mod text;
pub mod tray;
pub mod updater;
