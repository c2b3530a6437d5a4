use installer_tui::catalog::InstallOption;
use installer_tui::config::InstalledSet;
use installer_tui::dispatch::{Controller, Key, KeyPress, StoreChange, OUTPUT_WINDOW};
use installer_tui::installer::InstallerEvent;
use installer_tui::state::{ActionChoice, AppMode, AppState};

fn option(id: &str, name: &str) -> InstallOption {
    InstallOption {
        id: id.to_string(),
        name: name.to_string(),
        description: String::new(),
        requires_reboot: false,
    }
}

fn two_options() -> Vec<InstallOption> {
    vec![option("a", "Alpha"), option("b", "Beta")]
}

fn controller(installed: &[&str]) -> Controller {
    let ids: Vec<String> = installed.iter().map(|s| s.to_string()).collect();
    Controller::new(AppState::new(InstalledSet::from_ids(ids)), two_options())
}

fn press(key: Key) -> KeyPress {
    KeyPress { key, ctrl: false }
}

fn ctrl_c() -> KeyPress {
    KeyPress { key: Key::Char('c'), ctrl: true }
}

#[test]
fn enter_on_uninstalled_option_starts_install() {
    let mut c = controller(&[]);
    let request = c.handle_key_event(press(Key::Enter)).expect("an action starts");
    assert_eq!(c.state.mode, AppMode::Installing);
    assert_eq!(c.state.current_action.as_deref(), Some("Installing Alpha"));
    assert_eq!(c.state.status_message, "Installing Alpha");
    assert!(c.state.show_output);
    assert!(c.channel_open);
    assert_eq!(request.option_id, "a");
    assert!(!request.uninstall);
}

#[test]
fn enter_on_installed_option_opens_popup_then_uninstalls() {
    let mut c = controller(&["a"]);
    assert!(c.handle_key_event(press(Key::Enter)).is_none());
    assert_eq!(c.state.mode, AppMode::ConfirmAction);
    assert_eq!(c.state.popup_choice, ActionChoice::Reinstall);
    assert_eq!(c.state.status_message, "Alpha is installed - choose action");
    assert!(c.handle_key_event(press(Key::Down)).is_none());
    assert_eq!(c.state.popup_choice, ActionChoice::Uninstall);
    let request = c.handle_key_event(press(Key::Enter)).expect("an action starts");
    assert_eq!(c.state.mode, AppMode::Installing);
    assert!(request.uninstall);
    assert_eq!(request.option_id, "a");
    assert_eq!(c.state.current_action.as_deref(), Some("Uninstalling Alpha"));
}

#[test]
fn popup_up_chooses_reinstall_and_esc_cancels() {
    let mut c = controller(&["a"]);
    c.handle_key_event(press(Key::Enter));
    c.handle_key_event(press(Key::Char('j')));
    c.handle_key_event(press(Key::Char('k')));
    assert_eq!(c.state.popup_choice, ActionChoice::Reinstall);
    assert!(c.handle_key_event(press(Key::Esc)).is_none());
    assert_eq!(c.state.mode, AppMode::Normal);
    assert_eq!(c.state.status_message, "Press Enter to uninstall Alpha");
    assert!(!c.channel_open);
}

#[test]
fn ctrl_c_quits_in_every_mode() {
    let mut normal = controller(&[]);
    normal.handle_key_event(ctrl_c());
    assert!(normal.state.should_quit);

    let mut popup = controller(&["a"]);
    popup.handle_key_event(press(Key::Enter));
    assert_eq!(popup.state.mode, AppMode::ConfirmAction);
    assert!(popup.handle_key_event(ctrl_c()).is_none());
    assert!(popup.state.should_quit);

    let mut running = controller(&[]);
    running.handle_key_event(press(Key::Enter));
    assert_eq!(running.state.mode, AppMode::Installing);
    assert!(running.handle_key_event(ctrl_c()).is_none());
    assert!(running.state.should_quit);
    assert_eq!(running.state.mode, AppMode::Installing);

    let mut completed = controller(&[]);
    completed.state.mode = AppMode::Completed;
    completed.handle_key_event(ctrl_c());
    assert!(completed.state.should_quit);
}

#[test]
fn keys_other_than_ctrl_c_are_ignored_while_installing() {
    let mut c = controller(&[]);
    c.handle_key_event(press(Key::Enter));
    for key in [Key::Up, Key::Down, Key::Enter, Key::Esc, Key::Char('q')] {
        assert!(c.handle_key_event(press(key)).is_none());
    }
    assert_eq!(c.state.mode, AppMode::Installing);
    assert_eq!(c.state.selected_index, 0);
    assert!(!c.state.should_quit);
}

#[test]
fn q_quits_in_normal_mode() {
    let mut c = controller(&[]);
    c.handle_key_event(press(Key::Char('q')));
    assert!(c.state.should_quit);
}

#[test]
fn navigation_wraps_and_updates_status() {
    let mut c = controller(&["b"]);
    c.handle_key_event(press(Key::Up));
    assert_eq!(c.state.selected_index, 1);
    assert_eq!(c.state.status_message, "Press Enter to uninstall Beta");
    c.handle_key_event(press(Key::Down));
    assert_eq!(c.state.selected_index, 0);
    assert_eq!(c.state.status_message, "Press Enter to install Alpha");
    c.handle_key_event(press(Key::Char('j')));
    assert_eq!(c.state.selected_index, 1);
}

#[test]
fn completed_mode_takes_keys_like_normal_mode() {
    let mut c = controller(&[]);
    c.state.mode = AppMode::Completed;
    c.handle_key_event(press(Key::Down));
    assert_eq!(c.state.selected_index, 1);
    let request = c.handle_key_event(press(Key::Enter)).expect("an action starts");
    assert_eq!(request.option_id, "b");
}

#[test]
fn esc_clears_and_hides_output() {
    let mut c = controller(&[]);
    c.handle_key_event(press(Key::Enter));
    c.handle_installer_event(InstallerEvent::OutputLine("x".to_string()));
    c.handle_installer_event(InstallerEvent::Completed(1));
    assert_eq!(c.state.last_exit_code, Some(1));
    c.handle_key_event(press(Key::Esc));
    assert!(c.state.output_lines.is_empty());
    assert_eq!(c.state.last_exit_code, None);
    assert_eq!(c.state.output_scroll, 0);
    assert!(!c.state.show_output);
}

#[test]
fn successful_install_adds_id() {
    let mut c = controller(&[]);
    c.handle_key_event(press(Key::Enter));
    let change = c.handle_installer_event(InstallerEvent::Completed(0));
    assert!(matches!(change, Some(StoreChange::Installed(ref id)) if id == "a"));
    assert!(c.state.is_installed("a"));
    assert_eq!(c.state.mode, AppMode::Normal);
    assert_eq!(c.state.last_exit_code, Some(0));
    assert_eq!(c.state.status_message, "Installed Alpha - Press Enter on another option");
    assert!(!c.channel_open);
}

#[test]
fn successful_uninstall_removes_id() {
    let mut c = controller(&["a", "b"]);
    c.handle_key_event(press(Key::Enter));
    c.handle_key_event(press(Key::Down));
    c.handle_key_event(press(Key::Enter));
    let change = c.handle_installer_event(InstallerEvent::Completed(0));
    assert!(matches!(change, Some(StoreChange::Uninstalled(ref id)) if id == "a"));
    assert!(!c.state.is_installed("a"));
    assert!(c.state.is_installed("b"));
    assert_eq!(c.state.status_message, "Uninstalled Alpha - Press Enter on another option");
    assert!(!c.channel_open);
}

#[test]
fn failed_action_keeps_installed_ids() {
    let mut c = controller(&["a"]);
    c.handle_key_event(press(Key::Enter));
    c.handle_key_event(press(Key::Down));
    c.handle_key_event(press(Key::Enter));
    let change = c.handle_installer_event(InstallerEvent::Completed(3));
    assert!(change.is_none());
    assert!(c.state.is_installed("a"));
    assert_eq!(c.state.status_message, "Failed with exit code 3 - Esc to close output");
    assert_eq!(c.state.mode, AppMode::Normal);
    assert!(!c.channel_open);
}

#[test]
fn negative_exit_code_is_reported_with_sign() {
    let mut c = controller(&[]);
    c.handle_key_event(press(Key::Enter));
    c.handle_installer_event(InstallerEvent::Completed(-12));
    assert_eq!(c.state.status_message, "Failed with exit code -12 - Esc to close output");
    assert!(!c.state.is_installed("a"));
}

#[test]
fn error_event_is_shown_as_output() {
    let mut c = controller(&[]);
    c.handle_key_event(press(Key::Enter));
    c.handle_installer_event(InstallerEvent::OutputLine("first".to_string()));
    let change = c.handle_installer_event(InstallerEvent::Error("no such file".to_string()));
    assert!(change.is_none());
    assert_eq!(c.state.output_lines, vec!["first".to_string(), "Error: no such file".to_string()]);
    assert_eq!(c.state.last_exit_code, Some(-1));
    assert_eq!(c.state.mode, AppMode::Normal);
    assert_eq!(c.state.status_message, "Error occurred - Esc to close output");
    assert!(!c.state.is_installed("a"));
    assert!(!c.channel_open);
}

#[test]
fn output_follows_the_last_lines() {
    let mut c = controller(&[]);
    c.handle_key_event(press(Key::Enter));
    for i in 0..OUTPUT_WINDOW {
        c.handle_installer_event(InstallerEvent::OutputLine(format!("line {}", i)));
    }
    assert_eq!(c.state.output_scroll, 0);
    for i in 0..5 {
        c.handle_installer_event(InstallerEvent::OutputLine(format!("more {}", i)));
    }
    assert_eq!(OUTPUT_WINDOW, 20);
    assert_eq!(c.state.output_lines.len(), 25);
    assert_eq!(c.state.output_scroll, 5);
    assert!(c.channel_open);
}

#[test]
fn disconnected_channel_is_closed() {
    let mut c = controller(&[]);
    c.handle_key_event(press(Key::Enter));
    c.channel_disconnected();
    assert!(!c.channel_open);
    assert_eq!(c.state.mode, AppMode::Installing);
}

#[test]
fn empty_catalog_ignores_navigation_and_enter() {
    let mut c = Controller::new(AppState::new(InstalledSet::new()), Vec::new());
    c.handle_key_event(press(Key::Up));
    c.handle_key_event(press(Key::Down));
    assert_eq!(c.state.selected_index, 0);
    assert!(c.handle_key_event(press(Key::Enter)).is_none());
    assert_eq!(c.state.mode, AppMode::Normal);
    assert_eq!(c.state.status_message, "Ready - Press Enter to install/uninstall");
}
