//! Histories of the update manager: the steps that its protocols take on the
//! shared state, one after another, and the cycles that are under way.
//!
//! The steps here are the state changes of `start_updater`,
//! `check_for_updates_internal`, `do_update_check`, `download_update` and
//! `install_update`, as their contracts state them.

use vstd::prelude::*;

use crate::updater::error::Failure;
use crate::updater::release::Release;
use crate::updater::state::UpdaterModel;

verus! {

/// One step of a protocol on the shared state.
pub enum Step {
    /// The updater is asked to start.
    Start { development: bool },
    /// A check is requested, by the scheduler or by the user.
    RequestCheck,
    /// The release source answers a cycle that is checking.
    AnswerCheck { fetched: Result<Option<Release>, Failure> },
    /// The download of a cycle ends.
    EndDownload { release: Release, downloaded: Result<Seq<u8>, Failure> },
    /// An install is requested.
    RequestInstall,
}

impl Step {
    /// A check request.
    pub open spec fn requests_check(self) -> bool {
        self is RequestCheck
    }

    /// The end of a download that failed.
    pub open spec fn fails_download(self) -> bool {
        self matches Step::EndDownload { downloaded, .. } && downloaded is Err
    }

    /// A step that takes the mark of an available update away: an answer
    /// other than a release, or a download that failed.
    pub open spec fn withdraws(self) -> bool {
        ||| self matches Step::AnswerCheck { fetched } && !(fetched matches Ok(Some(_)))
        ||| self.fails_download()
    }

    /// The end of a download that delivered its bytes.
    pub open spec fn completes_download(self) -> bool {
        self matches Step::EndDownload { downloaded, .. } && downloaded is Ok
    }
}

impl UpdaterModel {
    /// The state after `step`.
    pub open spec fn step(self, step: Step) -> UpdaterModel {
        match step {
            Step::Start { development } => self.start(development),
            Step::RequestCheck => self.enter_check(),
            Step::AnswerCheck { fetched } => self.leave_check(fetched),
            Step::EndDownload { release, downloaded } => self.leave_download(release, downloaded),
            Step::RequestInstall => self.begin_install(),
        }
    }
}

/// The shared state, with the number of cycles in each phase.
pub struct Run {
    pub state: UpdaterModel,
    /// Cycles that have entered the checking phase and not left it.
    pub checking: nat,
    /// Cycles whose download is under way.
    pub downloading: nat,
}

impl Run {
    /// Startup: the initial state, and no cycle under way.
    pub open spec fn initial() -> Run {
        Run { state: UpdaterModel::initial(), checking: 0, downloading: 0 }
    }

    /// Whether `step` can happen now: only a cycle that is checking can be
    /// answered, and only a download that is under way can end.
    pub open spec fn admits(self, step: Step) -> bool {
        match step {
            Step::AnswerCheck { .. } => self.checking > 0,
            Step::EndDownload { .. } => self.downloading > 0,
            _ => true,
        }
    }

    /// The run after `step`. A check request that finds no check marked in flight starts
    /// a cycle; an answer ends the checking phase of one, and begins its
    /// download where a release was found; the end of a download ends a cycle.
    pub open spec fn step(self, step: Step) -> Run {
        let state = self.state.step(step);
        match step {
            Step::RequestCheck => Run {
                state,
                checking: if self.state.checking {
                    self.checking
                } else {
                    self.checking + 1
                },
                ..self
            },
            Step::AnswerCheck { fetched } => Run {
                state,
                checking: if self.checking > 0 {
                    (self.checking - 1) as nat
                } else {
                    0
                },
                downloading: if fetched matches Ok(Some(_)) {
                    self.downloading + 1
                } else {
                    self.downloading
                },
            },
            Step::EndDownload { .. } => Run {
                state,
                downloading: if self.downloading > 0 {
                    (self.downloading - 1) as nat
                } else {
                    0
                },
                ..self
            },
            _ => Run { state, ..self },
        }
    }

    /// The run after `steps`, taken in order.
    pub open spec fn after(self, steps: Seq<Step>) -> Run
        decreases steps.len(),
    {
        if steps.len() == 0 {
            self
        } else {
            self.after(steps.drop_last()).step(steps.last())
        }
    }

    /// Whether `steps` is a history from here: each step can happen when its
    /// turn comes.
    pub open spec fn admits_all(self, steps: Seq<Step>) -> bool {
        forall|i: int| 0 <= i < steps.len() ==> #[trigger] self.after(steps.take(i)).admits(steps[i])
    }

    /// No cycle is under way.
    pub open spec fn at_rest(self) -> bool {
        self.checking == 0 && self.downloading == 0
    }

    /// At most one cycle is checking, and a check is marked in flight only
    /// while a cycle is checking.
    pub open spec fn single_flight(self) -> bool {
        self.checking <= 1 && (self.state.checking ==> self.checking == 1)
    }

    /// A cycle is checking while no check is marked in flight.
    pub open spec fn exposed(self) -> bool {
        self.checking > 0 && !self.state.checking
    }
}

/// The run after the first `i + 1` steps is the run after the first `i`,
/// advanced by step `i`.
pub proof fn after_unfolds(start: Run, steps: Seq<Step>, i: int)
    requires
        0 <= i < steps.len(),
    ensures
        start.after(steps.take(i + 1)) == start.after(steps.take(i)).step(steps[i]),
{
    let longer = steps.take(i + 1);
    assert(longer.drop_last() =~= steps.take(i));
    assert(longer.last() == steps[i]);
}

} // verus!
