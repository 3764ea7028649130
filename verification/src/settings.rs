use vstd::prelude::*;
use vstd::string::StringExecFns;

use crate::modes::Mode;

verus! {

/// The user preferences the application persists. Loaded once at startup and
/// replaced wholesale on every save; the core reads but never mutates them.
#[derive(Clone, Debug)]
pub struct Settings {
    pub pal_name: String,
    pub owner_name: String,
    pub sounds_enabled: bool,
    pub notifications_enabled: bool,
    pub default_mode: Mode,
    pub api_key: String,
}

/// The documented defaults: name "Pal", no owner, sounds and notifications
/// on, full mode, no API key.
pub open spec fn is_default_settings(s: Settings) -> bool {
    &&& s.pal_name@ == "Pal"@
    &&& s.owner_name@ == ""@
    &&& s.sounds_enabled
    &&& s.notifications_enabled
    &&& s.default_mode == Mode::Full
    &&& s.api_key@ == ""@
}

impl Default for Settings {
    /// The settings used when no persisted copy exists.
    fn default() -> (s: Settings)
        ensures
            is_default_settings(s),
    {
        proof {
            reveal_strlit("");
            assert(""@ =~= Seq::<char>::empty());
        }
        Settings {
            pal_name: String::from_str("Pal"),
            owner_name: String::new(),
            sounds_enabled: true,
            notifications_enabled: true,
            default_mode: Mode::Full,
            api_key: String::new(),
        }
    }
}

/// The load recovery rule: a settings file that is absent, unreadable or
/// unparseable yields the defaults, never an error; a loaded copy is handed
/// back untouched.
pub fn settings_or_default(loaded: Option<Settings>) -> (s: Settings)
    ensures
        loaded matches Some(l) ==> s == l,
        loaded is None ==> is_default_settings(s),
{
    match loaded {
        Some(l) => l,
        None => Settings::default(),
    }
}

} // verus!
