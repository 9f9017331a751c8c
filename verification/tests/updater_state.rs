use gitify::updater::state::{get_update_status, DownloadedUpdate, UpdateStatus, UpdaterState};

fn status_of(state: &UpdaterState) -> (bool, bool, bool, bool) {
    (
        state.is_started(),
        state.is_checking(),
        state.is_update_available(),
        state.is_update_downloaded(),
    )
}

#[test]
fn new_state_has_every_flag_cleared_and_nothing_cached() {
    let mut state = UpdaterState::new();
    assert_eq!(status_of(&state), (false, false, false, false));
    assert_eq!(state.take_downloaded_update(), None);
}

#[test]
fn default_state_is_the_new_state() {
    let mut state = UpdaterState::default();
    assert_eq!(status_of(&state), (false, false, false, false));
    assert_eq!(state.take_downloaded_update(), None);
}

#[test]
fn each_setter_changes_its_own_flag_only() {
    let mut state = UpdaterState::new();
    state.set_started(true);
    assert_eq!(status_of(&state), (true, false, false, false));
    state.set_checking(true);
    assert_eq!(status_of(&state), (true, true, false, false));
    state.set_update_available(true);
    assert_eq!(status_of(&state), (true, true, true, false));
    state.set_update_downloaded(true);
    assert_eq!(status_of(&state), (true, true, true, true));
    state.set_started(false);
    assert_eq!(status_of(&state), (false, true, true, true));
    state.set_checking(false);
    assert_eq!(status_of(&state), (false, false, true, true));
    state.set_update_available(false);
    assert_eq!(status_of(&state), (false, false, false, true));
    state.set_update_downloaded(false);
    assert_eq!(status_of(&state), (false, false, false, false));
    assert_eq!(state.take_downloaded_update(), None);
}

#[test]
fn store_then_take_returns_what_was_stored() {
    let mut state = UpdaterState::new();
    state.store_downloaded_update(vec![1, 2, 3], "1.1.0".to_string(), "1.0.0".to_string());
    assert_eq!(status_of(&state), (false, false, false, false));
    assert_eq!(
        state.take_downloaded_update(),
        Some(DownloadedUpdate {
            bytes: vec![1, 2, 3],
            version: "1.1.0".to_string(),
            current_version: "1.0.0".to_string(),
        })
    );
}

#[test]
fn take_twice_yields_the_artifact_once() {
    let mut state = UpdaterState::new();
    state.store_downloaded_update(vec![9; 4], "2.0.0".to_string(), "1.9.0".to_string());
    let first = state.take_downloaded_update();
    let second = state.take_downloaded_update();
    assert!(first.is_some());
    assert_eq!(first.unwrap().bytes, vec![9, 9, 9, 9]);
    assert_eq!(second, None);
}

#[test]
fn a_second_store_overwrites_the_first() {
    let mut state = UpdaterState::new();
    state.store_downloaded_update(vec![1], "1.1.0".to_string(), "1.0.0".to_string());
    state.store_downloaded_update(vec![2, 2], "1.2.0".to_string(), "1.0.0".to_string());
    let taken = state.take_downloaded_update().unwrap();
    assert_eq!(taken.bytes, vec![2, 2]);
    assert_eq!(taken.version, "1.2.0");
    assert_eq!(taken.current_version, "1.0.0");
    assert_eq!(state.take_downloaded_update(), None);
}

#[test]
fn store_after_take_fills_the_slot_again() {
    let mut state = UpdaterState::new();
    state.store_downloaded_update(vec![1], "1.1.0".to_string(), "1.0.0".to_string());
    assert!(state.take_downloaded_update().is_some());
    state.store_downloaded_update(vec![3], "1.3.0".to_string(), "1.0.0".to_string());
    assert_eq!(state.take_downloaded_update().unwrap().version, "1.3.0");
}

#[test]
fn an_empty_artifact_is_still_an_artifact() {
    let mut state = UpdaterState::new();
    state.store_downloaded_update(Vec::new(), String::new(), String::new());
    assert_eq!(
        state.take_downloaded_update(),
        Some(DownloadedUpdate {
            bytes: Vec::new(),
            version: String::new(),
            current_version: String::new(),
        })
    );
}

#[test]
fn status_reads_the_three_flags() {
    let mut state = UpdaterState::new();
    assert_eq!(
        get_update_status(&state),
        UpdateStatus { checking: false, update_available: false, update_downloaded: false }
    );
    state.set_started(true);
    state.set_checking(true);
    assert_eq!(
        get_update_status(&state),
        UpdateStatus { checking: true, update_available: false, update_downloaded: false }
    );
    state.set_update_available(true);
    state.set_checking(false);
    assert_eq!(
        get_update_status(&state),
        UpdateStatus { checking: false, update_available: true, update_downloaded: false }
    );
    state.set_update_downloaded(true);
    assert_eq!(
        get_update_status(&state),
        UpdateStatus { checking: false, update_available: true, update_downloaded: true }
    );
    assert_eq!(status_of(&state), (true, false, true, true));
}
