//! The software update manager.
//!
//! * [`state`]: the shared `UpdaterState` and its mathematical model.
//! * [`scheduler`]: whether and when background checks run.
//! * [`checker`]: single-flight entry and the answer to a check.
//! * [`downloader`]: progress, and the hand-over of a completed artifact.
//! * [`installer`]: taking the cached artifact and deciding what to install.
//! * [`cycle`]: what a step hands back to the host, and the error path.
//! * [`events`]: the notifications handed to the host.
//! * [`release`]: what the release source reports.
//! * [`error`]: the failures and their messages.
//! * [`trace`]: histories of steps on the shared state.
//! * [`invariants`]: what holds of each step and of every history.
//! * [`ordering`]: the order of a cycle's notifications.

pub mod checker;
pub mod cycle;
pub mod downloader;
pub mod error;
pub mod events;
pub mod installer;
pub mod invariants;
pub mod ordering;
pub mod release;
pub mod scheduler;
pub mod state;
pub mod trace;
