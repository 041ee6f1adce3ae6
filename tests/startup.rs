use desktop_shell::capability::{plugins, Capability};
use desktop_shell::startup::{
    exit_message, main_window_label, run_failure_message, setup_action, SetupAction,
};

#[test]
fn plugins_register_each_capability_once_in_order() {
    let p = plugins();
    assert_eq!(p, vec![Capability::Shell, Capability::Dialog, Capability::Fs]);
    for c in [Capability::Shell, Capability::Dialog, Capability::Fs] {
        assert_eq!(p.iter().filter(|x| **x == c).count(), 1);
    }
}

#[test]
fn main_window_is_labelled_main() {
    assert_eq!(main_window_label(), "main");
}

#[test]
fn existing_main_window_gets_focus() {
    assert_eq!(setup_action(true), SetupAction::FocusMainWindow);
}

#[test]
fn missing_main_window_is_no_error() {
    assert_eq!(setup_action(false), SetupAction::Nothing);
}

#[test]
fn normal_run_exits_without_message() {
    assert_eq!(exit_message(true), None);
}

#[test]
fn failed_run_aborts_with_message() {
    assert_eq!(run_failure_message(), "error while running tauri application");
    assert_eq!(exit_message(false), Some("error while running tauri application"));
}
