//! The scheduler: whether background checks are to run, and when.

use vstd::prelude::*;

use crate::updater::state::{UpdaterModel, UpdaterState};

verus! {

/// Seconds between activation and the first check, so that the user interface
/// can attach its listeners first.
pub const INITIAL_CHECK_DELAY_SECS: u64 = 5;

/// Seconds between two scheduled checks: one day.
pub const UPDATE_CHECK_INTERVAL_SECS: u64 = 86_400;

/// Seconds after which a request to the release source is given up.
pub const REQUEST_TIMEOUT_SECS: u64 = 30;

/// When the background checks run.
#[derive(Debug, Clone, Copy, PartialEq, Eq, Structural)]
pub struct Schedule {
    /// Seconds to wait before the one initial check.
    pub initial_delay_secs: u64,
    /// Seconds to wait before each recurring check.
    pub interval_secs: u64,
}

/// What a request to start the updater came to.
#[derive(Debug, Clone, Copy, PartialEq, Eq, Structural)]
pub enum StartDecision {
    /// The updater was started before: nothing to do.
    AlreadyStarted,
    /// Development builds do not update themselves: nothing to do.
    SkippedInDevelopment,
    /// The updater is now started: run two independent background tasks, the
    /// initial check and the recurring one, as the schedule says.
    Scheduled(Schedule),
}

impl UpdaterModel {
    /// Whether a request to start activates the scheduler.
    pub open spec fn starts(self, development: bool) -> bool {
        !self.started && !development
    }

    /// The state after a request to start.
    pub open spec fn start(self, development: bool) -> UpdaterModel {
        if self.starts(development) {
            UpdaterModel { started: true, ..self }
        } else {
            self
        }
    }
}

/// The schedule of the background checks.
pub open spec fn standard_schedule() -> Schedule {
    Schedule {
        initial_delay_secs: INITIAL_CHECK_DELAY_SECS,
        interval_secs: UPDATE_CHECK_INTERVAL_SECS,
    }
}

/// What a request to start comes to in `state` for a build of the given kind.
pub open spec fn start_decision(state: UpdaterModel, development: bool) -> StartDecision {
    if state.started {
        StartDecision::AlreadyStarted
    } else if development {
        StartDecision::SkippedInDevelopment
    } else {
        StartDecision::Scheduled(standard_schedule())
    }
}

/// Starts the updater, once. A second request, and any request in a
/// development build, changes nothing.
pub fn start_updater(state: &mut UpdaterState, development: bool) -> (decision: StartDecision)
    ensures
        final(state)@ == old(state)@.start(development),
        decision == start_decision(old(state)@, development),
{
    if state.is_started() {
        return StartDecision::AlreadyStarted;
    }
    if development {
        return StartDecision::SkippedInDevelopment;
    }
    state.set_started(true);
    StartDecision::Scheduled(
        Schedule {
            initial_delay_secs: INITIAL_CHECK_DELAY_SECS,
            interval_secs: UPDATE_CHECK_INTERVAL_SECS,
        },
    )
}

} // verus!
