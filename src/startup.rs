use vstd::prelude::*;

verus! {

/// The label of the window that is brought to the front once setup is done.
pub fn main_window_label() -> (r: &'static str)
    ensures
        r@ == "main"@,
{
    "main"
}

/// What the setup hook does once the plugins are in place.
#[derive(Clone, Copy, Debug, PartialEq, Eq, Structural)]
pub enum SetupAction {
    /// Give input focus to the main window. Whether that succeeds does not
    /// matter: setup completes either way.
    FocusMainWindow,
    /// Do nothing: there is no main window.
    Nothing,
}

/// Chooses the setup action from whether the window labelled
/// `main_window_label()` exists. Setup never fails: a missing window is no
/// error.
pub fn setup_action(main_window_found: bool) -> (r: SetupAction)
    ensures
        main_window_found ==> r == SetupAction::FocusMainWindow,
        !main_window_found ==> r == SetupAction::Nothing,
{
    if main_window_found {
        SetupAction::FocusMainWindow
    } else {
        SetupAction::Nothing
    }
}

/// The message with which the process aborts when the event loop cannot run.
pub fn run_failure_message() -> (r: &'static str)
    ensures
        r@ == "error while running tauri application"@,
{
    "error while running tauri application"
}

/// How the process ends once the event loop has returned: normally when it
/// ran, otherwise by aborting with `run_failure_message`.
pub fn exit_message(run_succeeded: bool) -> (r: Option<&'static str>)
    ensures
        run_succeeded <==> r is None,
        r matches Some(m) ==> m@ == "error while running tauri application"@,
{
    if run_succeeded {
        None
    } else {
        Some(run_failure_message())
    }
}

} // verus!
