//! The order of a cycle's notifications.
//!
//! A cycle emits what `check_for_updates_internal`, `do_update_check`,
//! `download_progress` and `download_update` return, in this order. Among
//! these, the menu states and tooltips tell the tray what to show; the others
//! are the cycle's milestones.

use vstd::prelude::*;

use crate::updater::cycle::StepView;
use crate::updater::error::Failure;
use crate::updater::events::{AvailableView, DownloadProgress, Signal};
use crate::updater::release::Release;

verus! {

impl Signal {
    /// Whether this notification marks a milestone of a cycle, rather than
    /// telling the tray what to show.
    pub open spec fn is_milestone(self) -> bool {
        !(self is MenuState) && !(self is Tooltip)
    }
}

/// The milestones among `signals`, in order.
pub open spec fn milestones(signals: Seq<Signal>) -> Seq<Signal>
    decreases signals.len(),
{
    if signals.len() == 0 {
        Seq::empty()
    } else if signals.last().is_milestone() {
        milestones(signals.drop_last()).push(signals.last())
    } else {
        milestones(signals.drop_last())
    }
}

/// The notifications for the progress reports `progress`.
pub open spec fn progress_reports(progress: Seq<DownloadProgress>) -> Seq<Signal> {
    Seq::new(progress.len(), |i: int| Signal::DownloadProgress(progress[i]))
}

/// Everything that one admitted cycle emits, from its request to its end:
/// the opening, the answer to the check and, where a release was found, the
/// progress reports and the end of the download.
pub open spec fn cycle_notifications(
    manual: bool,
    fetched: Result<Option<Release>, Failure>,
    progress: Seq<DownloadProgress>,
    downloaded: Result<Seq<u8>, Failure>,
) -> Seq<Signal> {
    let checked = StepView::check_started() + StepView::checked(manual, fetched).notifications;
    match fetched {
        Ok(Some(release)) => checked + progress_reports(progress) + StepView::download_ended(
            release,
            downloaded,
        ).notifications,
        _ => checked,
    }
}

/// The milestones of one cycle: the start of the check, and then exactly one
/// of three courses. A release is announced, its progress reported, and then
/// either its download completed and the restart offered, or an error
/// reported; or no release is available; or an error is reported.
pub open spec fn cycle_milestones(
    fetched: Result<Option<Release>, Failure>,
    progress: Seq<DownloadProgress>,
    downloaded: Result<Seq<u8>, Failure>,
) -> Seq<Signal> {
    match fetched {
        Ok(Some(release)) => seq![
            Signal::CheckingStarted,
            Signal::UpdateAvailable(AvailableView::of(release)),
        ] + progress_reports(progress) + match downloaded {
            Ok(_) => seq![
                Signal::DownloadComplete(release.version),
                Signal::RestartPrompt(release.version),
            ],
            Err(error) => seq![Signal::Error(error.message())],
        },
        Ok(None) => seq![Signal::CheckingStarted, Signal::NotAvailable],
        Err(error) => seq![Signal::CheckingStarted, Signal::Error(error.message())],
    }
}

/// The milestones of two runs of notifications, one after the other, are the
/// milestones of the first and then those of the second.
pub proof fn milestones_of_both(first: Seq<Signal>, second: Seq<Signal>)
    ensures
        milestones(first + second) == milestones(first) + milestones(second),
    decreases second.len(),
{
    if second.len() == 0 {
        assert(first + second =~= first);
        assert(milestones(first) + milestones(second) =~= milestones(first));
    } else {
        milestones_of_both(first, second.drop_last());
        assert((first + second).drop_last() =~= first + second.drop_last());
        assert((first + second).last() == second.last());
        if second.last().is_milestone() {
            assert(milestones(first + second) =~= milestones(first) + milestones(second));
        }
    }
}

/// Every progress report is a milestone.
pub proof fn progress_reports_are_milestones(progress: Seq<DownloadProgress>)
    ensures
        milestones(progress_reports(progress)) == progress_reports(progress),
    decreases progress.len(),
{
    let reports = progress_reports(progress);
    if progress.len() > 0 {
        progress_reports_are_milestones(progress.drop_last());
        assert(reports.drop_last() =~= progress_reports(progress.drop_last()));
        assert(reports.last().is_milestone());
        assert(milestones(reports) =~= reports);
    } else {
        assert(milestones(reports) =~= reports);
    }
}

/// The notification at position `at` if it is a milestone, and nothing
/// otherwise.
spec fn milestone_at(signals: Seq<Signal>, at: int) -> Seq<Signal> {
    if at < signals.len() && signals[at].is_milestone() {
        seq![signals[at]]
    } else {
        seq![]
    }
}

/// The milestones of a run of at most four notifications, one by one.
proof fn milestones_of_few(signals: Seq<Signal>)
    requires
        signals.len() <= 4,
    ensures
        milestones(signals) == milestone_at(signals, 0) + milestone_at(signals, 1) + milestone_at(
            signals,
            2,
        ) + milestone_at(signals, 3),
    decreases signals.len(),
{
    if signals.len() > 0 {
        milestones_of_few(signals.drop_last());
    }
    assert(milestones(signals) =~= milestone_at(signals, 0) + milestone_at(signals, 1)
        + milestone_at(signals, 2) + milestone_at(signals, 3));
}

/// The order of a cycle. Whatever the release source answers and however the
/// download ends, the milestones among a cycle's notifications are the start
/// of the check followed by exactly one of its three courses.
pub proof fn cycle_runs_in_order(
    manual: bool,
    fetched: Result<Option<Release>, Failure>,
    progress: Seq<DownloadProgress>,
    downloaded: Result<Seq<u8>, Failure>,
)
    ensures
        milestones(cycle_notifications(manual, fetched, progress, downloaded)) == cycle_milestones(
            fetched,
            progress,
            downloaded,
        ),
{
    let opening = StepView::check_started();
    let answer = StepView::checked(manual, fetched).notifications;
    milestones_of_few(opening);
    milestones_of_few(answer);
    milestones_of_both(opening, answer);
    assert(milestones(opening) =~= seq![Signal::CheckingStarted]);
    match fetched {
        Ok(Some(release)) => {
            let reports = progress_reports(progress);
            let ending = StepView::download_ended(release, downloaded).notifications;
            milestones_of_few(ending);
            progress_reports_are_milestones(progress);
            milestones_of_both(opening + answer, reports);
            milestones_of_both(opening + answer + reports, ending);
            assert(milestones(answer) =~= seq![
                Signal::UpdateAvailable(AvailableView::of(release)),
            ]);
            assert(milestones(cycle_notifications(manual, fetched, progress, downloaded))
                =~= cycle_milestones(fetched, progress, downloaded));
        },
        Ok(None) => {
            assert(milestones(answer) =~= seq![Signal::NotAvailable]);
            assert(milestones(cycle_notifications(manual, fetched, progress, downloaded))
                =~= cycle_milestones(fetched, progress, downloaded));
        },
        Err(error) => {
            assert(milestones(answer) =~= seq![Signal::Error(error.message())]);
            assert(milestones(cycle_notifications(manual, fetched, progress, downloaded))
                =~= cycle_milestones(fetched, progress, downloaded));
        },
    }
}

} // verus!
