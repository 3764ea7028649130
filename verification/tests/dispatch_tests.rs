use pal::dispatch::{DispatchError, MenuAction, Trigger, dispatch, dispatch_set_mode,
    menu_action, on_close_requested, settle_mode_change};
use pal::modes::Mode;
use pal::window::{ApplyError, WindowCommand, WindowModel, run_commands};

fn hidden_window() -> WindowModel {
    WindowModel {
        visible: false,
        focused: false,
        width: 800,
        height: 600,
        always_on_top: false,
        decorated: true,
        resizable: true,
    }
}

#[test]
fn shortcut_toggle_shows_hidden_window() {
    let mut w = hidden_window();
    let p = dispatch(Trigger::ShortcutToggle, w.visible, w.focused);
    assert_eq!(p.event, None);
    run_commands(&mut w, &p.commands);
    assert!(w.visible);
    assert!(w.focused);
}

#[test]
fn shortcut_toggle_hides_focused_window() {
    let mut w = hidden_window();
    w.visible = true;
    w.focused = true;
    let p = dispatch(Trigger::ShortcutToggle, w.visible, w.focused);
    assert_eq!(p.event, None);
    run_commands(&mut w, &p.commands);
    assert!(!w.visible);
}

#[test]
fn shortcut_toggle_focuses_unfocused_window() {
    let mut w = hidden_window();
    w.visible = true;
    let p = dispatch(Trigger::ShortcutToggle, w.visible, w.focused);
    run_commands(&mut w, &p.commands);
    assert!(w.visible);
    assert!(w.focused);
}

#[test]
fn menu_select_widget_shows_resizes_and_announces() {
    let mut w = hidden_window();
    let p = dispatch(Trigger::MenuSelect(Mode::Widget), w.visible, w.focused);
    assert_eq!(p.event, Some(Mode::Widget));
    run_commands(&mut w, &p.commands);
    assert!(w.visible);
    assert!(w.focused);
    assert_eq!(w.width, 220);
    assert_eq!(w.height, 180);
    assert!(w.always_on_top);
    assert!(!w.decorated);
    assert!(!w.resizable);
}

#[test]
fn tray_and_api_mode_triggers_plan_like_the_menu() {
    let menu = dispatch(Trigger::MenuSelect(Mode::Floating), true, true);
    let tray = dispatch(Trigger::TraySelect(Mode::Floating), true, true);
    let api = dispatch(Trigger::ApiSetMode(Mode::Floating), true, true);
    assert_eq!(menu.commands, tray.commands);
    assert_eq!(menu.commands, api.commands);
    assert_eq!(tray.event, Some(Mode::Floating));
    assert_eq!(api.event, Some(Mode::Floating));
}

#[test]
fn api_show_and_hide_change_no_mode() {
    let show = dispatch(Trigger::ApiShow, false, false);
    assert_eq!(show.commands, vec![WindowCommand::Show, WindowCommand::SetFocus]);
    assert_eq!(show.event, None);
    let hide = dispatch(Trigger::ApiHide, true, true);
    assert_eq!(hide.commands, vec![WindowCommand::Hide]);
    assert_eq!(hide.event, None);
}

#[test]
fn set_mode_from_bad_string_is_a_parse_error() {
    let r = dispatch_set_mode("fullscreen", true, false);
    match r {
        Err(DispatchError::Parse(e)) => assert_eq!(e.input, "fullscreen"),
        _ => panic!("expected a parse error"),
    }
}

#[test]
fn set_mode_from_good_string_plans_the_mode() {
    let p = dispatch_set_mode("full", false, false).unwrap();
    assert_eq!(p.event, Some(Mode::Full));
    let direct = dispatch(Trigger::ApiSetMode(Mode::Full), false, false);
    assert_eq!(p.commands, direct.commands);
}

#[test]
fn confirmed_mode_change_is_announced() {
    assert_eq!(settle_mode_change(Mode::Widget, Ok(())), Ok(Mode::Widget));
}

#[test]
fn failed_mode_change_is_propagated_without_event() {
    let e = ApplyError { cause: "handle gone".to_string() };
    let r = settle_mode_change(Mode::Widget, Err(e.clone()));
    assert_eq!(r, Err(DispatchError::Apply(e)));
}

#[test]
fn menu_ids_route_to_their_actions() {
    assert_eq!(menu_action("show"), MenuAction::ShowWindow);
    assert_eq!(menu_action("quit"), MenuAction::Quit);
    assert_eq!(menu_action("full"), MenuAction::SetMode(Mode::Full));
    assert_eq!(menu_action("widget"), MenuAction::SetMode(Mode::Widget));
    assert_eq!(menu_action("floating"), MenuAction::SetMode(Mode::Floating));
    assert_eq!(menu_action("bogus"), MenuAction::Ignore);
    assert_eq!(menu_action(""), MenuAction::Ignore);
}

#[test]
fn close_request_hides_and_never_quits() {
    let r = on_close_requested();
    assert!(r.prevent_close);
    assert_eq!(r.commands, vec![WindowCommand::Hide]);
    let mut w = hidden_window();
    w.visible = true;
    w.focused = true;
    run_commands(&mut w, &r.commands);
    assert!(!w.visible);
}
