use vstd::prelude::*;
use vstd::string::StringExecFns;

use crate::text::str_eq;

verus! {

/// The three presentation modes the window can take.
#[derive(Clone, Copy, PartialEq, Eq, Structural, Debug)]
pub enum Mode {
    Full,
    Widget,
    Floating,
}

/// The geometry and behavior profile that a mode prescribes.
#[derive(Clone, Copy, PartialEq, Eq, Structural, Debug)]
pub struct ModeProfile {
    pub width: u32,
    pub height: u32,
    pub always_on_top: bool,
    pub decorated: bool,
    pub resizable: bool,
}

impl ModeProfile {
    /// Every profile prescribes a strictly positive size.
    pub open spec fn wf(self) -> bool {
        self.width > 0 && self.height > 0
    }
}

/// The fixed profile table: one immutable profile per mode.
pub open spec fn spec_profile(m: Mode) -> ModeProfile {
    match m {
        Mode::Full => ModeProfile {
            width: 400,
            height: 500,
            always_on_top: false,
            decorated: false,
            resizable: true,
        },
        Mode::Widget => ModeProfile {
            width: 220,
            height: 180,
            always_on_top: true,
            decorated: false,
            resizable: false,
        },
        Mode::Floating => ModeProfile {
            width: 150,
            height: 100,
            always_on_top: true,
            decorated: false,
            resizable: false,
        },
    }
}

/// Look up the profile for a mode; total over the enum, no "unknown mode" path.
pub fn profile_for(m: Mode) -> (p: ModeProfile)
    ensures
        p == spec_profile(m),
        p.wf(),
{
    match m {
        Mode::Full => ModeProfile {
            width: 400,
            height: 500,
            always_on_top: false,
            decorated: false,
            resizable: true,
        },
        Mode::Widget => ModeProfile {
            width: 220,
            height: 180,
            always_on_top: true,
            decorated: false,
            resizable: false,
        },
        Mode::Floating => ModeProfile {
            width: 150,
            height: 100,
            always_on_top: true,
            decorated: false,
            resizable: false,
        },
    }
}

/// A mode string outside {"full", "widget", "floating"} was rejected at the
/// boundary; it is never coerced and never reaches the window controller.
#[derive(Clone, PartialEq, Eq, Debug)]
pub struct ParseError {
    /// The rejected mode string, verbatim.
    pub input: String,
}

impl ParseError {
    /// The human-readable description of the rejection.
    pub fn message(&self) -> (r: String)
        ensures
            r@ == "Unknown mode: "@ + self.input@,
    {
        let mut s = String::from_str("Unknown mode: ");
        s.append(self.input.as_str());
        s
    }
}

/// Which mode, if any, a boundary string denotes.
pub open spec fn spec_mode_of(s: Seq<char>) -> Option<Mode> {
    if s == "full"@ {
        Some(Mode::Full)
    } else if s == "widget"@ {
        Some(Mode::Widget)
    } else if s == "floating"@ {
        Some(Mode::Floating)
    } else {
        None
    }
}

/// The identifier string of a mode, as used on the boundary and in events.
pub open spec fn spec_mode_name(m: Mode) -> Seq<char> {
    match m {
        Mode::Full => "full"@,
        Mode::Widget => "widget"@,
        Mode::Floating => "floating"@,
    }
}

/// Resolve a boundary string to a mode. Exactly "full", "widget" and
/// "floating" are accepted; any other string is rejected with a `ParseError`
/// that carries it verbatim.
pub fn parse_mode(s: &str) -> (r: Result<Mode, ParseError>)
    ensures
        spec_mode_of(s@) matches Some(m) ==> r == Ok::<Mode, ParseError>(m),
        r is Err <==> spec_mode_of(s@) is None,
        r matches Err(e) ==> e.input@ == s@,
{
    if str_eq(s, "full") {
        Ok(Mode::Full)
    } else if str_eq(s, "widget") {
        Ok(Mode::Widget)
    } else if str_eq(s, "floating") {
        Ok(Mode::Floating)
    } else {
        Err(ParseError { input: String::from_str(s) })
    }
}

/// The identifier string of a mode.
pub fn mode_name(m: Mode) -> (s: &'static str)
    ensures
        s@ == spec_mode_name(m),
{
    match m {
        Mode::Full => "full",
        Mode::Widget => "widget",
        Mode::Floating => "floating",
    }
}

/// Parsing a mode's own name gives that mode back: the boundary strings and
/// the mode identifiers are in exact correspondence.
pub proof fn lemma_mode_name_round_trip(m: Mode)
    ensures
        spec_mode_of(spec_mode_name(m)) == Some(m),
{
    reveal_strlit("full");
    reveal_strlit("widget");
    reveal_strlit("floating");
    assert("full"@.len() == 4);
    assert("widget"@.len() == 6);
    assert("floating"@.len() == 8);
}

} // verus!
