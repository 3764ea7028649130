use vstd::prelude::*;

use crate::activation::{action_commands, decide, spec_action_commands, spec_decide};
use crate::modes::{Mode, ParseError, parse_mode, spec_mode_of};
use crate::window::{ApplyError, WindowCommand, WindowModel, lemma_mode_commands_apply,
    lemma_run_append, lemma_run_one, lemma_run_two, mode_commands, spec_apply_mode,
    spec_mode_commands, spec_run};

verus! {

/// An activation event: a tray-menu choice, a tray click, the global
/// shortcut, or an explicit API call. All of them funnel through `dispatch`.
#[derive(Clone, Copy, PartialEq, Eq, Structural, Debug)]
pub enum Trigger {
    MenuSelect(Mode),
    TraySelect(Mode),
    ShortcutToggle,
    ApiSetMode(Mode),
    ApiShow,
    ApiHide,
}

/// What a trigger resolves to: the window mutations to run, in order and
/// stopping at the first failure, and the mode-changed event to emit once
/// every mutation has succeeded. `event` names the mode whose change is to be
/// announced exactly once; `None` means no event.
pub struct DispatchPlan {
    pub commands: Vec<WindowCommand>,
    pub event: Option<Mode>,
}

/// Why a dispatched command failed: the boundary string did not name a mode,
/// or a window mutation failed.
#[derive(Clone, PartialEq, Eq, Debug)]
pub enum DispatchError {
    Parse(ParseError),
    Apply(ApplyError),
}

/// The mutations a trigger asks for, given the visibility and focus read at
/// dispatch time. A mode trigger shows, focuses, then applies the mode; the
/// shortcut toggle follows the activation decision table; the direct API
/// calls show-and-focus or hide.
pub open spec fn spec_plan_commands(t: Trigger, visible: bool, focused: bool) -> Seq<
    WindowCommand,
> {
    match t {
        Trigger::MenuSelect(m) => seq![WindowCommand::Show, WindowCommand::SetFocus]
            + spec_mode_commands(m),
        Trigger::TraySelect(m) => seq![WindowCommand::Show, WindowCommand::SetFocus]
            + spec_mode_commands(m),
        Trigger::ApiSetMode(m) => seq![WindowCommand::Show, WindowCommand::SetFocus]
            + spec_mode_commands(m),
        Trigger::ShortcutToggle => spec_action_commands(spec_decide(visible, focused)),
        Trigger::ApiShow => seq![WindowCommand::Show, WindowCommand::SetFocus],
        Trigger::ApiHide => seq![WindowCommand::Hide],
    }
}

/// The mode-changed event a trigger announces on success: the selected mode
/// for the mode triggers, nothing for toggle, show and hide.
pub open spec fn spec_plan_event(t: Trigger) -> Option<Mode> {
    match t {
        Trigger::MenuSelect(m) => Some(m),
        Trigger::TraySelect(m) => Some(m),
        Trigger::ApiSetMode(m) => Some(m),
        Trigger::ShortcutToggle => None,
        Trigger::ApiShow => None,
        Trigger::ApiHide => None,
    }
}

/// Resolve a trigger to its plan. `visible` and `focused` are the window
/// state read fresh at dispatch time; only the shortcut toggle consults them.
pub fn dispatch(t: Trigger, visible: bool, focused: bool) -> (p: DispatchPlan)
    ensures
        p.commands@ == spec_plan_commands(t, visible, focused),
        p.event == spec_plan_event(t),
{
    match t {
        Trigger::MenuSelect(m) => mode_change_plan(m),
        Trigger::TraySelect(m) => mode_change_plan(m),
        Trigger::ApiSetMode(m) => mode_change_plan(m),
        Trigger::ShortcutToggle => {
            let a = decide(visible, focused);
            DispatchPlan { commands: action_commands(a), event: None }
        },
        Trigger::ApiShow => {
            let mut cs: Vec<WindowCommand> = Vec::new();
            cs.push(WindowCommand::Show);
            cs.push(WindowCommand::SetFocus);
            proof {
                assert(cs@ =~= seq![WindowCommand::Show, WindowCommand::SetFocus]);
            }
            DispatchPlan { commands: cs, event: None }
        },
        Trigger::ApiHide => {
            let mut cs: Vec<WindowCommand> = Vec::new();
            cs.push(WindowCommand::Hide);
            proof {
                assert(cs@ =~= seq![WindowCommand::Hide]);
            }
            DispatchPlan { commands: cs, event: None }
        },
    }
}

/// The shared plan of the three mode triggers: show, focus, apply the mode,
/// and announce the change on success.
fn mode_change_plan(m: Mode) -> (p: DispatchPlan)
    ensures
        p.commands@ == seq![WindowCommand::Show, WindowCommand::SetFocus]
            + spec_mode_commands(m),
        p.event == Some(m),
{
    let mut cs: Vec<WindowCommand> = Vec::new();
    cs.push(WindowCommand::Show);
    cs.push(WindowCommand::SetFocus);
    let mut rest = mode_commands(m);
    cs.append(&mut rest);
    proof {
        assert(cs@ =~= seq![WindowCommand::Show, WindowCommand::SetFocus]
            + spec_mode_commands(m));
    }
    DispatchPlan { commands: cs, event: Some(m) }
}

/// Resolve an explicit set-mode command from its boundary string: the plan
/// for the named mode, or the parse error for any other string. The window
/// controller is never consulted for a rejected string.
pub fn dispatch_set_mode(mode: &str, visible: bool, focused: bool) -> (r: Result<
    DispatchPlan,
    DispatchError,
>)
    ensures
        spec_mode_of(mode@) matches Some(m) ==> r matches Ok(p)
            && p.commands@ == spec_plan_commands(Trigger::ApiSetMode(m), visible, focused)
            && p.event == Some(m),
        r is Ok <==> spec_mode_of(mode@) is Some,
        r matches Err(e) ==> (e matches DispatchError::Parse(pe) && pe.input@ == mode@),
{
    match parse_mode(mode) {
        Ok(m) => Ok(dispatch(Trigger::ApiSetMode(m), visible, focused)),
        Err(e) => Err(DispatchError::Parse(e)),
    }
}

/// Conclude a dispatched mode change from the executor's report: on success
/// the mode to announce, on failure the propagated error and no event — the
/// mode-changed notification only ever reflects confirmed state.
pub fn settle_mode_change(m: Mode, applied: Result<(), ApplyError>) -> (r: Result<
    Mode,
    DispatchError,
>)
    ensures
        applied is Ok ==> r == Ok::<Mode, DispatchError>(m),
        applied matches Err(e) ==> r == Err::<Mode, DispatchError>(DispatchError::Apply(e)),
{
    match applied {
        Ok(()) => Ok(m),
        Err(e) => Err(DispatchError::Apply(e)),
    }
}

/// What a tray-menu (or tray) item resolves to.
#[derive(Clone, Copy, PartialEq, Eq, Structural, Debug)]
pub enum MenuAction {
    /// Show the window and focus it.
    ShowWindow,
    /// Switch to the named mode.
    SetMode(Mode),
    /// Terminate the process immediately, without cleanup. This is the one
    /// intentional way the application exits; the shell performs it outside
    /// the dispatcher's error path.
    Quit,
    /// An identifier the menu does not know; do nothing.
    Ignore,
}

/// Which action a menu identifier names.
pub open spec fn spec_menu_action(id: Seq<char>) -> MenuAction {
    if id == "show"@ {
        MenuAction::ShowWindow
    } else if id == "quit"@ {
        MenuAction::Quit
    } else {
        match spec_mode_of(id) {
            Some(m) => MenuAction::SetMode(m),
            None => MenuAction::Ignore,
        }
    }
}

/// Route a tray-menu item identifier to its action.
pub fn menu_action(id: &str) -> (a: MenuAction)
    ensures
        a == spec_menu_action(id@),
{
    if crate::text::str_eq(id, "show") {
        MenuAction::ShowWindow
    } else if crate::text::str_eq(id, "quit") {
        MenuAction::Quit
    } else {
        match parse_mode(id) {
            Ok(m) => MenuAction::SetMode(m),
            Err(_) => MenuAction::Ignore,
        }
    }
}

/// The shell's answer to an OS close request.
pub struct CloseResponse {
    /// Mutations to run: always exactly a hide.
    pub commands: Vec<WindowCommand>,
    /// Always true: the close is suppressed and the process keeps running.
    pub prevent_close: bool,
}

/// The standing close-interception rule: every close request is turned into a
/// hide and suppressed. The process is never terminated by a close request —
/// no window command can terminate it at all.
pub fn on_close_requested() -> (r: CloseResponse)
    ensures
        r.prevent_close,
        r.commands@ == seq![WindowCommand::Hide],
{
    let mut cs: Vec<WindowCommand> = Vec::new();
    cs.push(WindowCommand::Hide);
    proof {
        assert(cs@ =~= seq![WindowCommand::Hide]);
    }
    CloseResponse { commands: cs, prevent_close: true }
}

/// Close interception: after the close response's mutations run, the window
/// is hidden, whatever state it was in.
pub proof fn lemma_close_hides(w: WindowModel)
    ensures
        !spec_run(w, seq![WindowCommand::Hide]).visible,
{
    lemma_run_one(w, WindowCommand::Hide);
}

/// A hidden window and a shortcut toggle: the window becomes visible and
/// focused.
pub proof fn lemma_toggle_when_hidden(w: WindowModel)
    requires
        !w.visible,
    ensures
        spec_run(w, spec_plan_commands(Trigger::ShortcutToggle, w.visible, w.focused)).visible,
        spec_run(w, spec_plan_commands(Trigger::ShortcutToggle, w.visible, w.focused)).focused,
{
    lemma_run_two(w, WindowCommand::Show, WindowCommand::SetFocus);
}

/// A visible, focused window and a shortcut toggle: the window becomes
/// hidden.
pub proof fn lemma_toggle_when_focused(w: WindowModel)
    requires
        w.visible,
        w.focused,
    ensures
        !spec_run(w, spec_plan_commands(Trigger::ShortcutToggle, w.visible, w.focused)).visible,
{
    lemma_run_one(w, WindowCommand::Hide);
}

/// A visible, unfocused window and a shortcut toggle: the window stays
/// visible and becomes focused.
pub proof fn lemma_toggle_when_unfocused(w: WindowModel)
    requires
        w.visible,
        !w.focused,
    ensures
        spec_run(w, spec_plan_commands(Trigger::ShortcutToggle, w.visible, w.focused)).visible,
        spec_run(w, spec_plan_commands(Trigger::ShortcutToggle, w.visible, w.focused)).focused,
{
    lemma_run_one(w, WindowCommand::SetFocus);
}

/// A mode chosen from the menu (and likewise from the tray or the API):
/// whatever the window's prior state, it ends shown, focused, and with the
/// chosen mode's profile applied; the plan announces exactly that mode.
pub proof fn lemma_menu_select(w: WindowModel, m: Mode)
    ensures
        ({
            let w2 = spec_run(w, spec_plan_commands(Trigger::MenuSelect(m), w.visible, w.focused));
            &&& w2.visible
            &&& w2.focused
            &&& w2 == spec_apply_mode(WindowModel { visible: true, focused: true, ..w }, m)
        }),
        spec_plan_event(Trigger::MenuSelect(m)) == Some(m),
{
    let head = seq![WindowCommand::Show, WindowCommand::SetFocus];
    lemma_run_append(w, head, spec_mode_commands(m));
    lemma_run_two(w, WindowCommand::Show, WindowCommand::SetFocus);
    lemma_mode_commands_apply(WindowModel { visible: true, focused: true, ..w }, m);
}

} // verus!
