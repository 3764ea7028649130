use vstd::prelude::*;

use crate::text::{join_path, spec_join};

verus! {

/// Relies on dirs::config_dir: the platform's per-user configuration
/// directory, if the platform defines one. The result depends on the
/// environment, so nothing is promised of it.
#[verifier::external_body]
fn platform_config_dir() -> (r: Option<String>)
{
    match dirs::config_dir() {
        Some(p) => match p.into_os_string().into_string() {
            Ok(s) => Some(s),
            Err(_) => None,
        },
        None => None,
    }
}

/// The application's configuration directory under a base directory: the
/// base — or "." when the platform defines none — with "Pal" joined.
pub fn config_dir_from(base: Option<String>) -> (d: String)
    ensures
        base matches Some(b) ==> d@ == spec_join(b@, "Pal"@),
        base is None ==> d@ == spec_join("."@, "Pal"@),
{
    match base {
        Some(b) => join_path(b.as_str(), "Pal"),
        None => join_path(".", "Pal"),
    }
}

/// The settings file's path under a base directory.
pub fn config_path_from(base: Option<String>) -> (p: String)
    ensures
        base matches Some(b) ==> p@ == spec_join(spec_join(b@, "Pal"@), "settings.json"@),
        base is None ==> p@ == spec_join(spec_join("."@, "Pal"@), "settings.json"@),
{
    let d = config_dir_from(base);
    join_path(d.as_str(), "settings.json")
}

/// The application's configuration directory on this machine: the platform
/// config dir (or ".") with "Pal" joined.
pub fn get_config_dir() -> (d: String)
    ensures
        exists|b: Seq<char>| d@ == spec_join(b, "Pal"@),
{
    let base = platform_config_dir();
    let ghost gbase = base;
    let d = config_dir_from(base);
    proof {
        match gbase {
            Some(b) => {
                assert(d@ == spec_join(b@, "Pal"@));
            },
            None => {
                assert(d@ == spec_join("."@, "Pal"@));
            },
        }
    }
    d
}

/// The settings file's path on this machine.
pub fn get_config_path() -> (p: String)
    ensures
        exists|b: Seq<char>| p@ == spec_join(spec_join(b, "Pal"@), "settings.json"@),
{
    let d = get_config_dir();
    let p = join_path(d.as_str(), "settings.json");
    proof {
        let b = choose|b: Seq<char>| d@ == spec_join(b, "Pal"@);
        assert(p@ == spec_join(spec_join(b, "Pal"@), "settings.json"@));
    }
    p
}

} // verus!
