use vstd::prelude::*;

use crate::modes::{Mode, ParseError, parse_mode, profile_for, spec_mode_of, spec_profile};

verus! {

/// What the host window looks like: visibility, focus, and the attributes the
/// mode profiles govern. The host windowing system owns the real window; this
/// model mirrors the attributes the library decides about, so every decision
/// is stated and proved against it.
#[derive(Clone, Copy, PartialEq, Eq, Structural, Debug)]
pub struct WindowModel {
    pub visible: bool,
    pub focused: bool,
    pub width: u32,
    pub height: u32,
    pub always_on_top: bool,
    pub decorated: bool,
    pub resizable: bool,
}

/// One mutation of the host window. Plans are sequences of these; the shell
/// runs them in order against the real window handle and stops at the first
/// failure (fail fast, no rollback). There is no command that terminates the
/// process: no plan can ever quit it.
#[derive(Clone, Copy, PartialEq, Eq, Structural, Debug)]
pub enum WindowCommand {
    Show,
    Hide,
    SetFocus,
    SetSize(u32, u32),
    SetAlwaysOnTop(bool),
    SetDecorations(bool),
    SetResizable(bool),
}

/// How one command changes the window. Hiding drops focus: a hidden window is
/// never the focused one. Focusing leaves visibility alone.
pub open spec fn spec_step(w: WindowModel, c: WindowCommand) -> WindowModel {
    match c {
        WindowCommand::Show => WindowModel { visible: true, ..w },
        WindowCommand::Hide => WindowModel { visible: false, focused: false, ..w },
        WindowCommand::SetFocus => WindowModel { focused: true, ..w },
        WindowCommand::SetSize(width, height) => WindowModel { width, height, ..w },
        WindowCommand::SetAlwaysOnTop(b) => WindowModel { always_on_top: b, ..w },
        WindowCommand::SetDecorations(b) => WindowModel { decorated: b, ..w },
        WindowCommand::SetResizable(b) => WindowModel { resizable: b, ..w },
    }
}

/// A sequence of commands applied in order, first to last.
pub open spec fn spec_run(w: WindowModel, cs: Seq<WindowCommand>) -> WindowModel
    decreases cs.len(),
{
    if cs.len() == 0 {
        w
    } else {
        spec_run(spec_step(w, cs[0]), cs.subrange(1, cs.len() as int))
    }
}

/// Apply one command to the model window.
pub fn apply_command(w: &mut WindowModel, c: WindowCommand)
    ensures
        *final(w) == spec_step(*old(w), c),
{
    match c {
        WindowCommand::Show => {
            w.visible = true;
        },
        WindowCommand::Hide => {
            w.visible = false;
            w.focused = false;
        },
        WindowCommand::SetFocus => {
            w.focused = true;
        },
        WindowCommand::SetSize(width, height) => {
            w.width = width;
            w.height = height;
        },
        WindowCommand::SetAlwaysOnTop(b) => {
            w.always_on_top = b;
        },
        WindowCommand::SetDecorations(b) => {
            w.decorated = b;
        },
        WindowCommand::SetResizable(b) => {
            w.resizable = b;
        },
    }
}

/// Apply a whole plan to the model window, in order.
pub fn run_commands(w: &mut WindowModel, cs: &Vec<WindowCommand>)
    ensures
        *final(w) == spec_run(*old(w), cs@),
{
    let ghost w0 = *w;
    proof {
        assert(cs@.subrange(0, cs@.len() as int) =~= cs@);
    }
    let mut i: usize = 0;
    while i < cs.len()
        invariant
            i <= cs.len(),
            spec_run(w0, cs@) == spec_run(*w, cs@.subrange(i as int, cs@.len() as int)),
        decreases cs.len() - i,
    {
        let c = cs[i];
        proof {
            let rest = cs@.subrange(i as int, cs@.len() as int);
            assert(rest[0] == c);
            assert(rest.subrange(1, rest.len() as int)
                =~= cs@.subrange(i + 1, cs@.len() as int));
        }
        apply_command(w, c);
        i += 1;
    }
    proof {
        assert(cs@.subrange(cs@.len() as int, cs@.len() as int) =~= Seq::<
            WindowCommand,
        >::empty());
    }
}

/// Running a single command is one step.
pub proof fn lemma_run_one(w: WindowModel, c: WindowCommand)
    ensures
        spec_run(w, seq![c]) == spec_step(w, c),
{
    reveal_with_fuel(spec_run, 2);
    assert(seq![c].subrange(1, 1) =~= Seq::<WindowCommand>::empty());
}

/// Running two commands is two steps in order.
pub proof fn lemma_run_two(w: WindowModel, c1: WindowCommand, c2: WindowCommand)
    ensures
        spec_run(w, seq![c1, c2]) == spec_step(spec_step(w, c1), c2),
{
    assert(seq![c1, c2].subrange(1, 2) =~= seq![c2]);
    lemma_run_one(spec_step(w, c1), c2);
}

/// Running a concatenated plan runs its first half, then its second.
pub proof fn lemma_run_append(w: WindowModel, a: Seq<WindowCommand>, b: Seq<WindowCommand>)
    ensures
        spec_run(w, a + b) == spec_run(spec_run(w, a), b),
    decreases a.len(),
{
    if a.len() == 0 {
        assert(a + b =~= b);
    } else {
        assert((a + b)[0] == a[0]);
        assert((a + b).subrange(1, (a + b).len() as int) =~= a.subrange(1, a.len() as int)
            + b);
        lemma_run_append(spec_step(w, a[0]), a.subrange(1, a.len() as int), b);
    }
}

/// The four mutations a mode prescribes, in the fixed order the controller
/// issues them: resize, always-on-top, decorations, resizability.
pub open spec fn spec_mode_commands(m: Mode) -> Seq<WindowCommand> {
    let p = spec_profile(m);
    seq![
        WindowCommand::SetSize(p.width, p.height),
        WindowCommand::SetAlwaysOnTop(p.always_on_top),
        WindowCommand::SetDecorations(p.decorated),
        WindowCommand::SetResizable(p.resizable),
    ]
}

/// The window after a mode is applied: the profile's attributes, with
/// visibility and focus untouched.
pub open spec fn spec_apply_mode(w: WindowModel, m: Mode) -> WindowModel {
    let p = spec_profile(m);
    WindowModel {
        width: p.width,
        height: p.height,
        always_on_top: p.always_on_top,
        decorated: p.decorated,
        resizable: p.resizable,
        ..w
    }
}

/// Running a mode's command plan does exactly what applying the mode says.
pub proof fn lemma_mode_commands_apply(w: WindowModel, m: Mode)
    ensures
        spec_run(w, spec_mode_commands(m)) == spec_apply_mode(w, m),
{
    reveal_with_fuel(spec_run, 5);
    assert(spec_run(w, spec_mode_commands(m)) =~= spec_apply_mode(w, m));
}

/// The command plan for a mode, for a shell that drives a real window.
pub fn mode_commands(m: Mode) -> (cs: Vec<WindowCommand>)
    ensures
        cs@ == spec_mode_commands(m),
{
    let p = profile_for(m);
    let mut cs: Vec<WindowCommand> = Vec::new();
    cs.push(WindowCommand::SetSize(p.width, p.height));
    cs.push(WindowCommand::SetAlwaysOnTop(p.always_on_top));
    cs.push(WindowCommand::SetDecorations(p.decorated));
    cs.push(WindowCommand::SetResizable(p.resizable));
    proof {
        assert(cs@ =~= spec_mode_commands(m));
    }
    cs
}

/// Resolve a boundary mode string and apply it to the window: on a known mode
/// the window takes that mode's profile, on any other string nothing changes
/// and the parse error carries the rejected string.
pub fn apply_window_mode(w: &mut WindowModel, mode: &str) -> (r: Result<(), ParseError>)
    ensures
        spec_mode_of(mode@) matches Some(m) ==> r is Ok && *final(w) == spec_apply_mode(
            *old(w),
            m,
        ),
        r is Ok <==> spec_mode_of(mode@) is Some,
        r matches Err(e) ==> *final(w) == *old(w) && e.input@ == mode@,
{
    match parse_mode(mode) {
        Ok(m) => {
            let cs = mode_commands(m);
            run_commands(w, &cs);
            proof {
                lemma_mode_commands_apply(*old(w), m);
            }
            Ok(())
        },
        Err(e) => Err(e),
    }
}

/// Applying a mode settles the window's attributes at that mode's profile
/// exactly: same geometry, stacking, decoration and resizability.
pub proof fn lemma_apply_matches_profile(w: WindowModel, m: Mode)
    ensures
        spec_apply_mode(w, m).width == spec_profile(m).width,
        spec_apply_mode(w, m).height == spec_profile(m).height,
        spec_apply_mode(w, m).always_on_top == spec_profile(m).always_on_top,
        spec_apply_mode(w, m).decorated == spec_profile(m).decorated,
        spec_apply_mode(w, m).resizable == spec_profile(m).resizable,
        spec_apply_mode(w, m).visible == w.visible,
        spec_apply_mode(w, m).focused == w.focused,
{
}

/// Applying the same mode twice leaves exactly what applying it once leaves:
/// every mutation in the plan is idempotent, so a retry converges.
pub proof fn lemma_apply_mode_idempotent(w: WindowModel, m: Mode)
    ensures
        spec_apply_mode(spec_apply_mode(w, m), m) == spec_apply_mode(w, m),
{
}

/// A window mutation against the real handle failed; carries the host's own
/// description of the cause.
#[derive(Clone, PartialEq, Eq, Debug)]
pub struct ApplyError {
    /// The underlying platform error, as the host reported it.
    pub cause: String,
}

} // verus!
