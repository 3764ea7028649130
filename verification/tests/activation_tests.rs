use pal::activation::{ToggleAction, action_commands, decide, decide_observed};
use pal::window::WindowCommand;

#[test]
fn hidden_window_is_shown() {
    assert_eq!(decide(false, false), ToggleAction::Show);
    assert_eq!(decide(false, true), ToggleAction::Show);
}

#[test]
fn focused_window_is_hidden() {
    assert_eq!(decide(true, true), ToggleAction::Hide);
}

#[test]
fn unfocused_window_is_focused() {
    assert_eq!(decide(true, false), ToggleAction::Focus);
}

#[test]
fn unreadable_state_degrades_to_show() {
    assert_eq!(decide_observed(None, None), ToggleAction::Show);
    assert_eq!(decide_observed(None, Some(true)), ToggleAction::Show);
}

#[test]
fn readable_state_decides_as_usual() {
    assert_eq!(decide_observed(Some(true), Some(true)), ToggleAction::Hide);
    assert_eq!(decide_observed(Some(true), None), ToggleAction::Focus);
    assert_eq!(decide_observed(Some(true), Some(false)), ToggleAction::Focus);
    assert_eq!(decide_observed(Some(false), Some(false)), ToggleAction::Show);
}

#[test]
fn show_action_shows_then_focuses() {
    assert_eq!(
        action_commands(ToggleAction::Show),
        vec![WindowCommand::Show, WindowCommand::SetFocus]
    );
}

#[test]
fn hide_and_focus_actions_are_single_commands() {
    assert_eq!(action_commands(ToggleAction::Hide), vec![WindowCommand::Hide]);
    assert_eq!(action_commands(ToggleAction::Focus), vec![WindowCommand::SetFocus]);
}
