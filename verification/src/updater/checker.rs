//! The check protocol: single-flight entry, and what follows from the
//! release source's answer.
//!
//! A cycle enters through [`check_for_updates_internal`], which admits one
//! check at a time. The host then queries the release source and hands the
//! answer to [`do_update_check`], which leaves the checking phase before any
//! further work, so that a download never keeps later checks out.

use vstd::prelude::*;

use crate::updater::cycle::{fail_cycle, CycleStep, FollowUp, FollowUpView, StepView};
use crate::updater::error::{Failure, UpdateError};
use crate::updater::events::{
    AvailableView, MenuState, Notification, Signal, UpdateAvailablePayload,
};
use crate::updater::release::{Release, ReleaseInfo};
use crate::updater::state::{UpdaterModel, UpdaterState};

verus! {

/// Seconds for which a manual check keeps "no updates available" on display.
pub const NO_UPDATE_DISPLAY_SECS: u64 = 60;

/// Proof of entry into the checking phase, to be handed back with the
/// release source's answer.
#[derive(Debug)]
pub struct CheckTicket {
    manual: bool,
}

impl CheckTicket {
    /// Whether the user asked for this check.
    pub closed spec fn manual(&self) -> bool {
        self.manual
    }

    /// Whether the user asked for this check.
    pub fn is_manual(&self) -> (manual: bool)
        ensures
            manual == self.manual(),
    {
        self.manual
    }
}

/// An admitted check: its ticket, and the notifications that announce it.
#[derive(Debug)]
pub struct CheckStart {
    pub ticket: CheckTicket,
    pub notifications: Vec<Notification>,
}

/// What the release source answered, mathematically.
pub open spec fn fetched_view(
    fetched: Result<Option<ReleaseInfo>, UpdateError>,
) -> Result<Option<Release>, Failure> {
    match fetched {
        Ok(Some(release)) => Ok(Some(release@)),
        Ok(None) => Ok(None),
        Err(error) => Err(error@),
    }
}

impl UpdaterModel {
    /// The state after a check was requested: a check is now marked in flight.
    /// Where one was in flight already, nothing changes.
    pub open spec fn enter_check(self) -> UpdaterModel {
        if self.checking {
            self
        } else {
            UpdaterModel { checking: true, ..self }
        }
    }

    /// The state after the release source reported a newer release.
    pub open spec fn found_release(self) -> UpdaterModel {
        UpdaterModel { checking: false, update_available: true, ..self }
    }

    /// The state after the release source reported nothing newer: idle, with
    /// nothing available and nothing cached.
    pub open spec fn found_nothing(self) -> UpdaterModel {
        UpdaterModel {
            checking: false,
            update_available: false,
            update_downloaded: false,
            cached: None,
            ..self
        }
    }

    /// The state after the release source answered a check.
    pub open spec fn leave_check(self, fetched: Result<Option<Release>, Failure>) -> UpdaterModel {
        match fetched {
            Ok(Some(_)) => self.found_release(),
            Ok(None) => self.found_nothing(),
            Err(_) => self.fail_cycle(),
        }
    }
}

impl StepView {
    /// The notifications that announce an admitted check.
    pub open spec fn check_started() -> Seq<Signal> {
        seq![Signal::CheckingStarted, Signal::MenuState(MenuState::Checking)]
    }

    /// The step after the release source reported `release`: it is announced,
    /// and its download begins at once.
    pub open spec fn available(release: Release) -> StepView {
        StepView {
            notifications: seq![
                Signal::UpdateAvailable(AvailableView::of(release)),
                Signal::MenuState(MenuState::Available),
                Signal::Tooltip(Signal::available_tooltip(release.version)),
            ],
            outcome: Ok(FollowUpView::Download(release)),
        }
    }

    /// The step after the release source reported nothing newer. A manual check
    /// leaves "no update" on display for a while; an automatic one resets the
    /// menu at once.
    pub open spec fn not_available(manual: bool) -> StepView {
        if manual {
            StepView {
                notifications: seq![Signal::NotAvailable, Signal::MenuState(MenuState::NoUpdate)],
                outcome: Ok(
                    FollowUpView::EmitAfter {
                        delay_secs: NO_UPDATE_DISPLAY_SECS,
                        signal: Signal::MenuState(MenuState::Idle),
                    },
                ),
            }
        } else {
            StepView {
                notifications: seq![
                    Signal::NotAvailable,
                    Signal::MenuState(MenuState::NoUpdate),
                    Signal::MenuState(MenuState::Idle),
                ],
                outcome: Ok(FollowUpView::Nothing),
            }
        }
    }

    /// The step that answers a check.
    pub open spec fn checked(manual: bool, fetched: Result<Option<Release>, Failure>) -> StepView {
        match fetched {
            Ok(Some(release)) => StepView::available(release),
            Ok(None) => StepView::not_available(manual),
            Err(error) => StepView::failed(error),
        }
    }
}

/// Requests a check. While one is in flight the request is dropped: nothing
/// changes and nothing is returned. Otherwise the state enters the checking
/// phase, and the ticket and the opening notifications come back.
pub fn check_for_updates_internal(state: &mut UpdaterState, manual: bool) -> (started: Option<
    CheckStart,
>)
    ensures
        final(state)@ == old(state)@.enter_check(),
        old(state)@.checking ==> started is None,
        !old(state)@.checking ==> started is Some && started->0.ticket.manual() == manual
            && started->0.notifications.deep_view() == StepView::check_started(),
{
    if state.is_checking() {
        return None;
    }
    state.set_checking(true);
    let mut notifications: Vec<Notification> = Vec::new();
    notifications.push(Notification::CheckingStarted);
    notifications.push(Notification::MenuState(MenuState::Checking));
    assert(notifications.deep_view() =~= StepView::check_started());
    Some(CheckStart { ticket: CheckTicket { manual }, notifications })
}

/// Requests a check on the user's behalf.
pub fn check_for_updates(state: &mut UpdaterState) -> (started: Option<CheckStart>)
    ensures
        final(state)@ == old(state)@.enter_check(),
        old(state)@.checking ==> started is None,
        !old(state)@.checking ==> started is Some && started->0.ticket.manual()
            && started->0.notifications.deep_view() == StepView::check_started(),
{
    check_for_updates_internal(state, true)
}

fn copy_of(text: &Option<String>) -> (copy: Option<String>)
    ensures
        copy.deep_view() == text.deep_view(),
{
    match text {
        Some(text) => Some(text.clone()),
        None => None,
    }
}

/// Takes the release source's answer to the check that `ticket` stands for,
/// and leaves the checking phase.
///
/// * A newer release: it is marked available and announced, and the host is
///   told to download it.
/// * Nothing newer: the state falls back to idle with nothing cached, and
///   "not available" is announced.
/// * A failure: the cycle ends as [`fail_cycle`] says.
pub fn do_update_check(
    state: &mut UpdaterState,
    ticket: CheckTicket,
    fetched: Result<Option<ReleaseInfo>, UpdateError>,
) -> (step: CycleStep)
    ensures
        final(state)@ == old(state)@.leave_check(fetched_view(fetched)),
        step@ == StepView::checked(ticket.manual(), fetched_view(fetched)),
{
    match fetched {
        Err(error) => fail_cycle(state, error),
        Ok(Some(release)) => {
            state.set_checking(false);
            state.set_update_available(true);
            let payload = UpdateAvailablePayload {
                version: release.version.clone(),
                current_version: release.current_version.clone(),
                body: copy_of(&release.body),
            };
            let mut notifications: Vec<Notification> = Vec::new();
            notifications.push(Notification::UpdateAvailable(payload));
            notifications.push(Notification::MenuState(MenuState::Available));
            notifications.push(Notification::available_tooltip(release.version.as_str()));
            assert(notifications.deep_view() =~= StepView::available(release@).notifications);
            CycleStep { notifications, outcome: Ok(FollowUp::Download(release)) }
        },
        Ok(None) => {
            state.set_checking(false);
            state.set_update_available(false);
            state.set_update_downloaded(false);
            let _ = state.take_downloaded_update();
            let mut notifications: Vec<Notification> = Vec::new();
            notifications.push(Notification::NotAvailable);
            notifications.push(Notification::MenuState(MenuState::NoUpdate));
            if ticket.manual {
                assert(notifications.deep_view() =~= StepView::not_available(true).notifications);
                CycleStep {
                    notifications,
                    outcome: Ok(
                        FollowUp::EmitAfter {
                            delay_secs: NO_UPDATE_DISPLAY_SECS,
                            notification: Notification::MenuState(MenuState::Idle),
                        },
                    ),
                }
            } else {
                notifications.push(Notification::MenuState(MenuState::Idle));
                assert(notifications.deep_view() =~= StepView::not_available(false).notifications);
                CycleStep { notifications, outcome: Ok(FollowUp::Nothing) }
            }
        },
    }
}

} // verus!
