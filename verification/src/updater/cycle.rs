//! What one step of a check-and-download cycle hands back to the host.

use vstd::prelude::*;

use crate::updater::error::{Failure, UpdateError};
use crate::updater::events::{MenuState, Notification, Signal};
use crate::updater::release::{Release, ReleaseInfo};
use crate::updater::state::{UpdaterModel, UpdaterState};

verus! {

/// What the host is to do once it has emitted a step's notifications.
#[derive(Debug, Clone, PartialEq, Eq)]
pub enum FollowUp {
    /// Nothing: the cycle is over.
    Nothing,
    /// Download the artifact of this release now.
    Download(ReleaseInfo),
    /// Emit `notification` once `delay_secs` seconds have passed.
    EmitAfter { delay_secs: u64, notification: Notification },
}

/// What a [`FollowUp`] is, mathematically.
pub enum FollowUpView {
    Nothing,
    Download(Release),
    EmitAfter { delay_secs: u64, signal: Signal },
}

impl View for FollowUp {
    type V = FollowUpView;

    open spec fn view(&self) -> FollowUpView {
        match self {
            FollowUp::Nothing => FollowUpView::Nothing,
            FollowUp::Download(release) => FollowUpView::Download(release@),
            FollowUp::EmitAfter { delay_secs, notification } => FollowUpView::EmitAfter {
                delay_secs: *delay_secs,
                signal: notification@,
            },
        }
    }
}

/// The result of one step of a cycle: the notifications to emit, in order, and
/// then either what to do next or the failure that ended the cycle.
#[derive(Debug, PartialEq, Eq)]
pub struct CycleStep {
    pub notifications: Vec<Notification>,
    pub outcome: Result<FollowUp, UpdateError>,
}

/// What a [`CycleStep`] is, mathematically.
pub struct StepView {
    pub notifications: Seq<Signal>,
    pub outcome: Result<FollowUpView, Failure>,
}

impl View for CycleStep {
    type V = StepView;

    open spec fn view(&self) -> StepView {
        StepView {
            notifications: self.notifications.deep_view(),
            outcome: match self.outcome {
                Ok(follow_up) => Ok(follow_up@),
                Err(error) => Err(error@),
            },
        }
    }
}

impl UpdaterModel {
    /// The state after a cycle has failed: idle, with nothing available and
    /// nothing cached.
    pub open spec fn fail_cycle(self) -> UpdaterModel {
        UpdaterModel {
            checking: false,
            update_available: false,
            update_downloaded: false,
            cached: None,
            ..self
        }
    }
}

impl StepView {
    /// The step that ends a cycle in `error`: the error's message, then the
    /// menu back to idle.
    pub open spec fn failed(error: Failure) -> StepView {
        StepView {
            notifications: seq![
                Signal::Error(error.message()),
                Signal::MenuState(MenuState::Idle),
            ],
            outcome: Err(error),
        }
    }
}

/// Ends the running cycle in `error`: the state falls back to idle, the cached
/// artifact is dropped, and the error's message is the one thing shown.
pub fn fail_cycle(state: &mut UpdaterState, error: UpdateError) -> (step: CycleStep)
    ensures
        final(state)@ == old(state)@.fail_cycle(),
        step@ == StepView::failed(error@),
{
    state.set_checking(false);
    state.set_update_available(false);
    state.set_update_downloaded(false);
    let _ = state.take_downloaded_update();
    let mut notifications: Vec<Notification> = Vec::new();
    notifications.push(Notification::Error(error.message()));
    notifications.push(Notification::MenuState(MenuState::Idle));
    let step = CycleStep { notifications, outcome: Err(error) };
    assert(step@.notifications =~= StepView::failed(error@).notifications);
    step
}

} // verus!
