use gitify::updater::checker::{
    check_for_updates, check_for_updates_internal, do_update_check, NO_UPDATE_DISPLAY_SECS,
};
use gitify::updater::cycle::{fail_cycle, CycleStep, FollowUp};
use gitify::updater::downloader::{download_progress, download_update};
use gitify::updater::error::{Operation, UpdateError};
use gitify::updater::events::{
    DownloadProgress, MenuState, Notification, UpdateAvailablePayload,
};
use gitify::updater::installer::{
    finish_install, install_update, plan_install, InstallPlan, Restart,
};
use gitify::updater::release::ReleaseInfo;
use gitify::updater::scheduler::{
    start_updater, Schedule, StartDecision, INITIAL_CHECK_DELAY_SECS, REQUEST_TIMEOUT_SECS,
    UPDATE_CHECK_INTERVAL_SECS,
};
use gitify::updater::state::{get_update_status, DownloadedUpdate, UpdateStatus, UpdaterState};

fn release(version: &str, current: &str, body: Option<&str>) -> ReleaseInfo {
    ReleaseInfo {
        version: version.to_string(),
        current_version: current.to_string(),
        body: body.map(|b| b.to_string()),
        size: None,
    }
}

fn status(checking: bool, update_available: bool, update_downloaded: bool) -> UpdateStatus {
    UpdateStatus { checking, update_available, update_downloaded }
}

/// The notifications of the event sink's ordering rule: everything but menu
/// states and tooltips.
fn primary(notifications: &[Notification]) -> Vec<Notification> {
    notifications
        .iter()
        .filter(|n| !matches!(n, Notification::MenuState(_) | Notification::Tooltip(_)))
        .cloned()
        .collect()
}

fn timed_out() -> UpdateError {
    UpdateError::TransportError(
        Operation::CheckForUpdates.describe_failure("operation timed out"),
    )
}

#[test]
fn newer_release_is_announced_downloaded_and_offered_for_restart() {
    let mut state = UpdaterState::new();
    let mut emitted: Vec<Notification> = Vec::new();

    let started = check_for_updates_internal(&mut state, false).unwrap();
    assert_eq!(get_update_status(&state), status(true, false, false));
    emitted.extend(started.notifications);

    let found = release("1.1.0", "1.0.0", Some("Fixes"));
    let step = do_update_check(&mut state, started.ticket, Ok(Some(found.clone())));
    assert_eq!(get_update_status(&state), status(false, true, false));
    assert_eq!(step.outcome, Ok(FollowUp::Download(found.clone())));
    emitted.extend(step.notifications);

    emitted.push(download_progress(512, Some(2048)));
    emitted.push(download_progress(2048, Some(2048)));

    let step = download_update(&mut state, found, Ok(vec![7; 2048]));
    assert_eq!(step.outcome, Ok(FollowUp::Nothing));
    emitted.extend(step.notifications);

    assert_eq!(
        emitted,
        vec![
            Notification::CheckingStarted,
            Notification::MenuState(MenuState::Checking),
            Notification::UpdateAvailable(UpdateAvailablePayload {
                version: "1.1.0".to_string(),
                current_version: "1.0.0".to_string(),
                body: Some("Fixes".to_string()),
            }),
            Notification::MenuState(MenuState::Available),
            Notification::Tooltip("Update 1.1.0 available".to_string()),
            Notification::DownloadProgress(DownloadProgress { downloaded: 512, total: Some(2048) }),
            Notification::DownloadProgress(DownloadProgress {
                downloaded: 2048,
                total: Some(2048),
            }),
            Notification::DownloadComplete("1.1.0".to_string()),
            Notification::MenuState(MenuState::Ready),
            Notification::Tooltip("Update ready to install".to_string()),
            Notification::RestartPrompt("1.1.0".to_string()),
        ]
    );
    assert_eq!(
        primary(&emitted)
            .iter()
            .map(|n| n.event_name())
            .collect::<Vec<_>>(),
        vec![
            "updater:checking",
            "updater:available",
            "updater:downloading",
            "updater:downloading",
            "updater:downloaded",
            "updater:show-restart-dialog",
        ]
    );
    assert_eq!(get_update_status(&state), status(false, true, true));
    assert_eq!(
        state.take_downloaded_update(),
        Some(DownloadedUpdate {
            bytes: vec![7; 2048],
            version: "1.1.0".to_string(),
            current_version: "1.0.0".to_string(),
        })
    );
}

#[test]
fn manual_check_without_newer_release_shows_no_update_for_a_while() {
    let mut state = UpdaterState::new();
    let started = check_for_updates(&mut state).unwrap();
    assert!(started.ticket.is_manual());
    assert_eq!(
        started.notifications,
        vec![Notification::CheckingStarted, Notification::MenuState(MenuState::Checking)]
    );
    let step = do_update_check(&mut state, started.ticket, Ok(None));
    assert_eq!(
        step,
        CycleStep {
            notifications: vec![
                Notification::NotAvailable,
                Notification::MenuState(MenuState::NoUpdate),
            ],
            outcome: Ok(FollowUp::EmitAfter {
                delay_secs: 60,
                notification: Notification::MenuState(MenuState::Idle),
            }),
        }
    );
    assert_eq!(NO_UPDATE_DISPLAY_SECS, 60);
    assert_eq!(get_update_status(&state), status(false, false, false));
}

#[test]
fn automatic_check_without_newer_release_resets_the_menu_at_once() {
    let mut state = UpdaterState::new();
    let started = check_for_updates_internal(&mut state, false).unwrap();
    assert!(!started.ticket.is_manual());
    let step = do_update_check(&mut state, started.ticket, Ok(None));
    assert_eq!(
        step,
        CycleStep {
            notifications: vec![
                Notification::NotAvailable,
                Notification::MenuState(MenuState::NoUpdate),
                Notification::MenuState(MenuState::Idle),
            ],
            outcome: Ok(FollowUp::Nothing),
        }
    );
    assert_eq!(get_update_status(&state), status(false, false, false));
}

#[test]
fn manifest_timeout_gives_one_error_and_an_idle_state() {
    let mut state = UpdaterState::new();
    let started = check_for_updates_internal(&mut state, false).unwrap();
    let step = do_update_check(&mut state, started.ticket, Err(timed_out()));
    assert_eq!(
        primary(&step.notifications),
        vec![Notification::Error(
            "Failed to check for updates: operation timed out".to_string()
        )]
    );
    assert_eq!(
        step.notifications,
        vec![
            Notification::Error("Failed to check for updates: operation timed out".to_string()),
            Notification::MenuState(MenuState::Idle),
        ]
    );
    assert_eq!(step.outcome, Err(timed_out()));
    assert_eq!(get_update_status(&state), status(false, false, false));
}

#[test]
fn malformed_manifest_ends_the_cycle_with_a_parse_error() {
    let mut state = UpdaterState::new();
    let started = check_for_updates(&mut state).unwrap();
    let error = UpdateError::ParseError(
        Operation::CheckForUpdates.describe_failure("expected value at line 1"),
    );
    let step = do_update_check(&mut state, started.ticket, Err(error.clone()));
    assert_eq!(step.outcome, Err(error));
    assert_eq!(
        step.notifications[0],
        Notification::Error("Failed to check for updates: expected value at line 1".to_string())
    );
    assert_eq!(get_update_status(&state), status(false, false, false));
}

#[test]
fn check_request_is_dropped_while_a_check_is_in_flight() {
    let mut state = UpdaterState::new();
    let first = check_for_updates_internal(&mut state, false);
    assert!(first.is_some());
    assert!(check_for_updates(&mut state).is_none());
    assert!(check_for_updates_internal(&mut state, false).is_none());
    assert_eq!(get_update_status(&state), status(true, false, false));

    let step = do_update_check(&mut state, first.unwrap().ticket, Ok(None));
    assert!(step.outcome.is_ok());
    assert!(check_for_updates(&mut state).is_some());
}

#[test]
fn a_check_can_start_while_an_earlier_download_is_running() {
    let mut state = UpdaterState::new();
    let first = check_for_updates_internal(&mut state, false).unwrap();
    let step = do_update_check(&mut state, first.ticket, Ok(Some(release("1.1.0", "1.0.0", None))));
    assert!(matches!(step.outcome, Ok(FollowUp::Download(_))));
    assert_eq!(get_update_status(&state), status(false, true, false));
    assert!(check_for_updates(&mut state).is_some());
    assert_eq!(get_update_status(&state), status(true, true, false));
}

#[test]
fn download_failure_of_an_earlier_cycle_unmarks_a_later_check() {
    let mut state = UpdaterState::new();
    let first = check_for_updates_internal(&mut state, false).unwrap();
    let found = release("1.1.0", "1.0.0", None);
    let _ = do_update_check(&mut state, first.ticket, Ok(Some(found.clone())));
    let second = check_for_updates(&mut state);
    assert!(second.is_some());
    assert!(state.is_checking());
    let failed = UpdateError::TransportError(
        Operation::DownloadUpdate.describe_failure("connection reset"),
    );
    let _ = download_update(&mut state, found, Err(failed));
    assert!(!state.is_checking());
    let third = check_for_updates(&mut state);
    assert!(third.is_some());
}

#[test]
fn download_failure_discards_everything() {
    let mut state = UpdaterState::new();
    let started = check_for_updates_internal(&mut state, false).unwrap();
    let found = release("1.1.0", "1.0.0", None);
    let _ = do_update_check(&mut state, started.ticket, Ok(Some(found.clone())));
    let failed = UpdateError::TransportError(
        Operation::DownloadUpdate.describe_failure("connection reset"),
    );
    let step = download_update(&mut state, found, Err(failed.clone()));
    assert_eq!(
        step,
        CycleStep {
            notifications: vec![
                Notification::Error("Failed to download update: connection reset".to_string()),
                Notification::MenuState(MenuState::Idle),
            ],
            outcome: Err(failed),
        }
    );
    assert_eq!(get_update_status(&state), status(false, false, false));
    assert_eq!(state.take_downloaded_update(), None);
}

#[test]
fn a_failed_cycle_drops_an_artifact_cached_earlier() {
    let mut state = UpdaterState::new();
    let found = release("1.1.0", "1.0.0", None);
    let _ = download_update(&mut state, found, Ok(vec![1, 2]));
    state.set_update_available(true);
    assert_eq!(get_update_status(&state), status(false, true, true));

    let step = fail_cycle(&mut state, UpdateError::TransportError("offline".to_string()));
    assert_eq!(
        step.notifications,
        vec![
            Notification::Error("offline".to_string()),
            Notification::MenuState(MenuState::Idle),
        ]
    );
    assert_eq!(step.outcome, Err(UpdateError::TransportError("offline".to_string())));
    assert_eq!(get_update_status(&state), status(false, false, false));
    assert_eq!(state.take_downloaded_update(), None);
}

#[test]
fn not_available_drops_an_artifact_cached_earlier() {
    let mut state = UpdaterState::new();
    let first = check_for_updates_internal(&mut state, false).unwrap();
    let found = release("1.1.0", "1.0.0", None);
    let _ = do_update_check(&mut state, first.ticket, Ok(Some(found.clone())));
    let _ = download_update(&mut state, found, Ok(vec![1, 2]));
    assert_eq!(get_update_status(&state), status(false, true, true));

    let second = check_for_updates(&mut state).unwrap();
    let _ = do_update_check(&mut state, second.ticket, Ok(None));
    assert_eq!(get_update_status(&state), status(false, false, false));
    assert_eq!(state.take_downloaded_update(), None);
}

#[test]
fn failing_keeps_the_started_mark() {
    let mut state = UpdaterState::new();
    assert_eq!(
        start_updater(&mut state, false),
        StartDecision::Scheduled(Schedule { initial_delay_secs: 5, interval_secs: 86_400 })
    );
    let _ = fail_cycle(&mut state, UpdateError::ParseError("bad".to_string()));
    assert!(state.is_started());
}

#[test]
fn a_new_download_replaces_the_cached_artifact() {
    let mut state = UpdaterState::new();
    let _ = download_update(&mut state, release("1.1.0", "1.0.0", None), Ok(vec![1]));
    let step = download_update(&mut state, release("1.2.0", "1.0.0", None), Ok(vec![2, 2]));
    assert_eq!(
        step.notifications,
        vec![
            Notification::DownloadComplete("1.2.0".to_string()),
            Notification::MenuState(MenuState::Ready),
            Notification::Tooltip("Update ready to install".to_string()),
            Notification::RestartPrompt("1.2.0".to_string()),
        ]
    );
    assert!(state.is_update_downloaded());
    assert_eq!(
        state.take_downloaded_update(),
        Some(DownloadedUpdate {
            bytes: vec![2, 2],
            version: "1.2.0".to_string(),
            current_version: "1.0.0".to_string(),
        })
    );
}

#[test]
fn download_mark_and_cache_go_together_through_a_whole_life() {
    let mut state = UpdaterState::new();
    assert!(!state.is_update_downloaded());

    let started = check_for_updates(&mut state).unwrap();
    let found = release("1.1.0", "1.0.0", None);
    let _ = do_update_check(&mut state, started.ticket, Ok(Some(found.clone())));
    assert!(!state.is_update_downloaded());

    let _ = download_update(&mut state, found, Ok(vec![5]));
    assert!(state.is_update_downloaded());

    let taken = install_update(&mut state);
    assert!(taken.is_ok());
    assert!(!state.is_update_downloaded());
    assert_eq!(state.take_downloaded_update(), None);
    assert_eq!(install_update(&mut state), Err(UpdateError::NoUpdateAvailable));
}

#[test]
fn progress_reports_bytes_and_total() {
    assert_eq!(
        download_progress(0, None),
        Notification::DownloadProgress(DownloadProgress { downloaded: 0, total: None })
    );
    assert_eq!(
        download_progress(1500, Some(3000)),
        Notification::DownloadProgress(DownloadProgress { downloaded: 1500, total: Some(3000) })
    );
    assert_eq!(
        download_progress(usize::MAX, Some(0)),
        Notification::DownloadProgress(DownloadProgress {
            downloaded: usize::MAX as u64,
            total: Some(0),
        })
    );
}

#[test]
fn install_without_download_fails_and_changes_nothing() {
    let mut state = UpdaterState::new();
    state.set_started(true);
    state.set_update_available(true);
    assert_eq!(install_update(&mut state), Err(UpdateError::NoUpdateAvailable));
    assert!(state.is_started());
    assert_eq!(get_update_status(&state), status(false, true, false));
    assert_eq!(state.take_downloaded_update(), None);
}

#[test]
fn install_without_download_leaves_a_stray_artifact_in_place() {
    let mut state = UpdaterState::new();
    state.store_downloaded_update(vec![1], "1.1.0".to_string(), "1.0.0".to_string());
    assert_eq!(install_update(&mut state), Err(UpdateError::NoUpdateAvailable));
    assert_eq!(get_update_status(&state), status(false, false, false));
    assert!(state.take_downloaded_update().is_some());
}

#[test]
fn install_finds_the_artifact_already_consumed() {
    let mut state = UpdaterState::new();
    state.set_update_downloaded(true);
    assert_eq!(install_update(&mut state), Err(UpdateError::ArtifactAlreadyConsumed));
    assert_eq!(get_update_status(&state), status(false, false, true));
}

#[test]
fn install_takes_the_artifact_exactly_once() {
    let mut state = UpdaterState::new();
    let _ = download_update(&mut state, release("1.2.0", "1.1.0", None), Ok(vec![4, 2]));
    state.set_update_available(true);
    assert_eq!(
        install_update(&mut state),
        Ok(DownloadedUpdate {
            bytes: vec![4, 2],
            version: "1.2.0".to_string(),
            current_version: "1.1.0".to_string(),
        })
    );
    assert_eq!(get_update_status(&state), status(false, true, false));
    assert_eq!(install_update(&mut state), Err(UpdateError::NoUpdateAvailable));
}

#[test]
fn install_proceeds_with_cached_bytes_when_a_newer_release_appeared() {
    let mut state = UpdaterState::new();
    let _ = download_update(&mut state, release("1.2.0", "1.1.0", None), Ok(vec![1, 2, 0]));
    let cached = install_update(&mut state).unwrap();
    let plan = plan_install(cached, Ok(Some(release("1.3.0", "1.1.0", Some("newer")))));
    assert_eq!(
        plan,
        Ok(InstallPlan {
            bytes: vec![1, 2, 0],
            version: "1.2.0".to_string(),
            warning: Some(
                "Update version mismatch: downloaded 1.2.0 but found 1.3.0. Proceeding with downloaded version."
                    .to_string()
            ),
        })
    );
}

#[test]
fn install_of_the_offered_version_has_no_warning() {
    let cached = DownloadedUpdate {
        bytes: vec![8],
        version: "1.2.0".to_string(),
        current_version: "1.1.0".to_string(),
    };
    assert_eq!(
        plan_install(cached, Ok(Some(release("1.2.0", "1.1.0", None)))),
        Ok(InstallPlan { bytes: vec![8], version: "1.2.0".to_string(), warning: None })
    );
}

#[test]
fn install_fails_when_nothing_is_offered_any_more() {
    let cached = DownloadedUpdate {
        bytes: vec![8],
        version: "1.2.0".to_string(),
        current_version: "1.1.0".to_string(),
    };
    let planned = plan_install(cached, Ok(None));
    assert_eq!(
        planned,
        Err(UpdateError::InstallError("No update available for installation".to_string()))
    );
    assert_eq!(planned.unwrap_err().message(), "No update available for installation");
}

#[test]
fn install_passes_on_the_failure_of_the_second_query() {
    let cached = DownloadedUpdate {
        bytes: vec![8],
        version: "1.2.0".to_string(),
        current_version: "1.1.0".to_string(),
    };
    let failure = UpdateError::TransportError(
        Operation::RecheckForInstall.describe_failure("dns error"),
    );
    assert_eq!(plan_install(cached, Err(failure.clone())), Err(failure));
}

#[test]
fn a_successful_install_is_followed_by_a_restart() {
    assert_eq!(finish_install(Ok(())), Ok(Restart));
}

#[test]
fn a_failed_install_is_reported_as_such() {
    let finished = finish_install(Err("signature mismatch".to_string()));
    assert_eq!(
        finished,
        Err(UpdateError::InstallError(
            "Failed to install update: signature mismatch".to_string()
        ))
    );
    assert_eq!(
        finished.unwrap_err().message(),
        "Failed to install update: signature mismatch"
    );
}

#[test]
fn a_failed_install_has_consumed_the_artifact() {
    let mut state = UpdaterState::new();
    let _ = download_update(&mut state, release("1.2.0", "1.1.0", None), Ok(vec![4, 2]));
    let cached = install_update(&mut state).unwrap();
    let plan = plan_install(cached, Ok(Some(release("1.2.0", "1.1.0", None)))).unwrap();
    assert_eq!(plan.bytes, vec![4, 2]);
    assert!(finish_install(Err("disk full".to_string())).is_err());
    assert_eq!(install_update(&mut state), Err(UpdateError::NoUpdateAvailable));
    assert_eq!(get_update_status(&state), status(false, false, false));
}

#[test]
fn updater_starts_once() {
    let mut state = UpdaterState::new();
    assert_eq!(
        start_updater(&mut state, false),
        StartDecision::Scheduled(Schedule {
            initial_delay_secs: INITIAL_CHECK_DELAY_SECS,
            interval_secs: UPDATE_CHECK_INTERVAL_SECS,
        })
    );
    assert!(state.is_started());
    assert_eq!(start_updater(&mut state, false), StartDecision::AlreadyStarted);
    assert_eq!(start_updater(&mut state, true), StartDecision::AlreadyStarted);
    assert!(state.is_started());
    assert_eq!(get_update_status(&state), status(false, false, false));
}

#[test]
fn updater_does_not_start_in_development() {
    let mut state = UpdaterState::new();
    assert_eq!(start_updater(&mut state, true), StartDecision::SkippedInDevelopment);
    assert!(!state.is_started());
    assert_eq!(start_updater(&mut state, true), StartDecision::SkippedInDevelopment);
    assert_eq!(
        start_updater(&mut state, false),
        StartDecision::Scheduled(Schedule { initial_delay_secs: 5, interval_secs: 86_400 })
    );
}

#[test]
fn timing_constants_have_their_values() {
    assert_eq!(INITIAL_CHECK_DELAY_SECS, 5);
    assert_eq!(UPDATE_CHECK_INTERVAL_SECS, 24 * 60 * 60);
    assert_eq!(NO_UPDATE_DISPLAY_SECS, 60);
    assert_eq!(REQUEST_TIMEOUT_SECS, 30);
}
