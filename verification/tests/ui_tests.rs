use tjvox::config::UiConfig;
use tjvox::ui::{NotifyBackend, UiManager};

#[test]
fn test_ui_manager_new() {
    let manager = UiManager::new();
    assert!(manager.is_ok());
}

#[test]
fn test_ui_manager_default() {
    let manager = UiManager::default();
    assert!(!manager.config.show_notifications);
}

#[test]
fn test_ui_manager_with_config() {
    let config = UiConfig { show_notifications: true, notification_timeout_ms: 5000 };
    let manager = UiManager::with_config(&config);
    assert!(manager.config.show_notifications);
    assert_eq!(manager.config.notification_timeout_ms, 5000);
}

fn manager(show: bool, notify_send: bool, kdialog: bool, zenity: bool) -> UiManager {
    UiManager {
        config: UiConfig { show_notifications: show, notification_timeout_ms: 3000 },
        has_notify_send: notify_send,
        has_kdialog: kdialog,
        has_zenity: zenity,
    }
}

#[test]
fn notification_backend_follows_priority() {
    assert_eq!(manager(false, true, true, true).notification_backend(), NotifyBackend::Silent);
    assert_eq!(manager(true, true, true, true).notification_backend(), NotifyBackend::LibNotify);
    assert_eq!(manager(true, false, true, true).notification_backend(), NotifyBackend::KDialog);
    assert_eq!(manager(true, false, false, true).notification_backend(), NotifyBackend::Zenity);
    assert_eq!(manager(true, false, false, false).notification_backend(), NotifyBackend::Console);
}

#[test]
fn notify_send_args_carry_timeout_title_message() {
    let m = manager(true, true, false, false);
    assert_eq!(
        m.notify_send_args("TJvox", "Recording..."),
        vec!["--expire-time", "3000", "TJvox", "Recording..."],
    );
}

#[test]
fn kdialog_popup_lasts_at_least_one_second() {
    let mut m = manager(true, false, true, false);
    m.config.notification_timeout_ms = 500;
    assert_eq!(
        m.kdialog_args("TJvox", "Ready"),
        vec!["--passivepopup", "Ready", "1", "--title", "TJvox"],
    );
    m.config.notification_timeout_ms = 4000;
    assert_eq!(
        m.kdialog_args("TJvox", "Ready"),
        vec!["--passivepopup", "Ready", "4", "--title", "TJvox"],
    );
}

#[test]
fn zenity_args_carry_timeout_in_seconds() {
    let m = manager(true, false, false, true);
    assert_eq!(
        m.zenity_args("TJvox", "Ready"),
        vec!["--info", "--title", "TJvox", "--text", "Ready", "--timeout", "3"],
    );
}

#[test]
fn error_args_are_critical() {
    let m = manager(true, true, false, false);
    assert_eq!(
        m.error_args("TJvox", "capture failed"),
        vec!["--urgency", "critical", "TJvox", "capture failed"],
    );
}
