use gitify::tray::{
    set_alternate_idle_icon, set_unread_active_icon, title_tooltip, update_tray_icon, TrayConfig,
    TrayIcon, TrayState,
};

#[test]
fn tray_config_starts_plain_and_idle() {
    let config = TrayConfig::new();
    assert!(!config.use_alternate_idle);
    assert!(!config.use_unread_active);
    assert_eq!(config.current_state, TrayState::Idle);
}

#[test]
fn tray_state_is_read_from_its_name() {
    assert_eq!(TrayState::parse("idle"), TrayState::Idle);
    assert_eq!(TrayState::parse("active"), TrayState::Active);
    assert_eq!(TrayState::parse("error"), TrayState::Error);
    assert_eq!(TrayState::parse("update"), TrayState::Update);
    assert_eq!(TrayState::parse("offline"), TrayState::Offline);
}

#[test]
fn unknown_tray_state_means_idle() {
    assert_eq!(TrayState::parse(""), TrayState::Idle);
    assert_eq!(TrayState::parse("Active"), TrayState::Idle);
    assert_eq!(TrayState::parse("active "), TrayState::Idle);
    assert_eq!(TrayState::parse("busy"), TrayState::Idle);
}

#[test]
fn icon_follows_state_and_preferences() {
    let mut config = TrayConfig::new();
    assert_eq!(config.icon(TrayState::Idle), TrayIcon::Idle);
    assert_eq!(config.icon(TrayState::Active), TrayIcon::Idle);
    assert_eq!(config.icon(TrayState::Error), TrayIcon::Error);
    assert_eq!(config.icon(TrayState::Update), TrayIcon::Update);
    assert_eq!(config.icon(TrayState::Offline), TrayIcon::Offline);

    config.use_alternate_idle = true;
    assert_eq!(config.icon(TrayState::Idle), TrayIcon::IdleAlternate);
    assert_eq!(config.icon(TrayState::Active), TrayIcon::IdleAlternate);
    assert_eq!(config.icon(TrayState::Error), TrayIcon::Error);

    config.use_unread_active = true;
    assert_eq!(config.icon(TrayState::Idle), TrayIcon::IdleAlternate);
    assert_eq!(config.icon(TrayState::Active), TrayIcon::Active);

    config.use_alternate_idle = false;
    assert_eq!(config.icon(TrayState::Idle), TrayIcon::Idle);
    assert_eq!(config.icon(TrayState::Active), TrayIcon::Active);
}

#[test]
fn icons_have_their_files() {
    assert_eq!(TrayIcon::Idle.file_name(), "idle.png");
    assert_eq!(TrayIcon::IdleAlternate.file_name(), "idle-alternate.png");
    assert_eq!(TrayIcon::Active.file_name(), "active.png");
    assert_eq!(TrayIcon::Error.file_name(), "error.png");
    assert_eq!(TrayIcon::Update.file_name(), "update.png");
    assert_eq!(TrayIcon::Offline.file_name(), "offline.png");
    assert_eq!(TrayIcon::Idle.resource_path(), "icons/tray/idle.png");
    assert_eq!(TrayIcon::IdleAlternate.resource_path(), "icons/tray/idle-alternate.png");
    assert_eq!(TrayIcon::Offline.resource_path(), "icons/tray/offline.png");
}

#[test]
fn only_the_plain_idle_icon_is_a_template() {
    assert!(TrayIcon::Idle.is_template());
    assert!(!TrayIcon::IdleAlternate.is_template());
    assert!(!TrayIcon::Active.is_template());
    assert!(!TrayIcon::Error.is_template());
    assert!(!TrayIcon::Update.is_template());
    assert!(!TrayIcon::Offline.is_template());
}

#[test]
fn updating_the_icon_remembers_the_state() {
    let mut config = TrayConfig::new();
    assert_eq!(update_tray_icon("error", &mut config), TrayIcon::Error);
    assert_eq!(config.current_state, TrayState::Error);
    assert_eq!(update_tray_icon("active", &mut config), TrayIcon::Idle);
    assert_eq!(config.current_state, TrayState::Active);
    assert_eq!(update_tray_icon("nonsense", &mut config), TrayIcon::Idle);
    assert_eq!(config.current_state, TrayState::Idle);
    assert!(!config.use_alternate_idle);
    assert!(!config.use_unread_active);
}

#[test]
fn alternate_idle_redraws_only_while_idle() {
    let mut config = TrayConfig::new();
    assert_eq!(set_alternate_idle_icon(true, &mut config), Some(TrayIcon::IdleAlternate));
    assert!(config.use_alternate_idle);
    assert_eq!(set_alternate_idle_icon(false, &mut config), Some(TrayIcon::Idle));
    assert!(!config.use_alternate_idle);

    update_tray_icon("active", &mut config);
    assert_eq!(set_alternate_idle_icon(true, &mut config), None);
    assert!(config.use_alternate_idle);
    assert_eq!(config.current_state, TrayState::Active);
}

#[test]
fn unread_active_redraws_only_while_active() {
    let mut config = TrayConfig::new();
    assert_eq!(set_unread_active_icon(true, &mut config), None);
    assert!(config.use_unread_active);

    update_tray_icon("active", &mut config);
    assert_eq!(set_unread_active_icon(false, &mut config), Some(TrayIcon::Idle));
    assert_eq!(set_unread_active_icon(true, &mut config), Some(TrayIcon::Active));
    config.use_alternate_idle = true;
    assert_eq!(set_unread_active_icon(false, &mut config), Some(TrayIcon::IdleAlternate));
    assert_eq!(config.current_state, TrayState::Active);
}

#[test]
fn title_becomes_a_tooltip() {
    assert_eq!(title_tooltip(""), "Gitify");
    assert_eq!(title_tooltip("3"), "Gitify - 3");
    assert_eq!(title_tooltip(" "), "Gitify -  ");
}
