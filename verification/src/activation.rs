use vstd::prelude::*;

use crate::window::WindowCommand;

verus! {

/// What the global-shortcut toggle (and the tray left-click) does to the
/// window, decided afresh from its visibility and focus at each invocation.
#[derive(Clone, Copy, PartialEq, Eq, Structural, Debug)]
pub enum ToggleAction {
    /// Show the window, then set focus.
    Show,
    /// Hide the window.
    Hide,
    /// Set focus only; visibility is left alone.
    Focus,
}

/// The toggle decision table: hidden shows, visible-and-focused hides,
/// visible-but-unfocused focuses. Total over both booleans.
pub open spec fn spec_decide(visible: bool, focused: bool) -> ToggleAction {
    if !visible {
        ToggleAction::Show
    } else if focused {
        ToggleAction::Hide
    } else {
        ToggleAction::Focus
    }
}

/// An unreadable visibility or focus counts as false, so a failed read
/// degrades the toggle to Show: showing an already-visible window is safe.
pub open spec fn spec_read_or_false(r: Option<bool>) -> bool {
    match r {
        Some(b) => b,
        None => false,
    }
}

/// Decide the toggle action from freshly read visibility and focus.
pub fn decide(visible: bool, focused: bool) -> (a: ToggleAction)
    ensures
        a == spec_decide(visible, focused),
{
    if !visible {
        ToggleAction::Show
    } else if focused {
        ToggleAction::Hide
    } else {
        ToggleAction::Focus
    }
}

/// Decide the toggle action from possibly failed state reads: each unreadable
/// dimension is treated as false rather than propagated as an error.
pub fn decide_observed(visible: Option<bool>, focused: Option<bool>) -> (a: ToggleAction)
    ensures
        a == spec_decide(spec_read_or_false(visible), spec_read_or_false(focused)),
{
    let v = match visible {
        Some(b) => b,
        None => false,
    };
    let f = match focused {
        Some(b) => b,
        None => false,
    };
    decide(v, f)
}

/// The window mutations that carry out a toggle action.
pub open spec fn spec_action_commands(a: ToggleAction) -> Seq<WindowCommand> {
    match a {
        ToggleAction::Show => seq![WindowCommand::Show, WindowCommand::SetFocus],
        ToggleAction::Hide => seq![WindowCommand::Hide],
        ToggleAction::Focus => seq![WindowCommand::SetFocus],
    }
}

/// The command plan that carries out a toggle action.
pub fn action_commands(a: ToggleAction) -> (cs: Vec<WindowCommand>)
    ensures
        cs@ == spec_action_commands(a),
{
    let mut cs: Vec<WindowCommand> = Vec::new();
    match a {
        ToggleAction::Show => {
            cs.push(WindowCommand::Show);
            cs.push(WindowCommand::SetFocus);
        },
        ToggleAction::Hide => {
            cs.push(WindowCommand::Hide);
        },
        ToggleAction::Focus => {
            cs.push(WindowCommand::SetFocus);
        },
    }
    proof {
        assert(cs@ =~= spec_action_commands(a));
    }
    cs
}

/// The decision table is total and deterministic: a hidden window is shown
/// whatever its focus, a focused visible window is hidden, and an unfocused
/// visible window is focused.
pub proof fn lemma_decide_table()
    ensures
        forall|f: bool| spec_decide(false, f) == ToggleAction::Show,
        spec_decide(true, true) == ToggleAction::Hide,
        spec_decide(true, false) == ToggleAction::Focus,
{
}

} // verus!
