//! The one look the library takes at the live environment: the user's home
//! directory.  Everything read from it is validated by `target_from_home`,
//! whose contract pins exactly which homes yield a target and which are
//! rejected.

use vstd::prelude::*;

use crate::placement::{
    check_absolute, fallback_dir_spec, is_absolute_dir, primary_dir_spec, InstallTarget,
};
use crate::platform::installed_binary_name;
use crate::strutil::str_eq;
use crate::Platform;

verus! {

/// Relies on `dirs::home_dir`: yields the user's home directory, read from
/// the HOME variable or the user database.  The value depends entirely on
/// the environment, so nothing is promised of it; callers validate it.
#[verifier::external_body]
fn home_dir_string() -> (r: Option<String>) {
    dirs::home_dir().map(|p| p.to_string_lossy().into_owned())
}

/// Builds the installation description from a reported home directory.
/// Exactly the homes that fit the placement policy are accepted: the home
/// must be absolute, and on macOS it must not be `/usr/local` itself — the
/// one home that would collapse the user-scope `bin` into the system-wide
/// directory.  An accepted home yields the target the placement policy
/// assigns to it, under the platform's binary name.
pub fn target_from_home(platform: Platform, home: &str, program_files: &str, source: &str) -> (r:
    Option<InstallTarget>)
    requires
        platform is Windows ==> is_absolute_dir(platform, program_files@),
    ensures
        (r is Some) == (is_absolute_dir(platform, home@) && !(platform is MacOs && home@
            == "/usr/local"@)),
        r matches Some(t) ==> t.wf() && t.platform == platform && t.home@ == home@ && t.source@
            == source@ && t.binary_name@ == (if platform is Windows {
            "smithery.exe"@
        } else {
            "smithery"@
        }) && t.primary_dir@ == primary_dir_spec(platform, program_files@) && t.fallback_dir@
            == fallback_dir_spec(platform, home@),
{
    if !check_absolute(platform, home) {
        return None;
    }
    let collides = match platform {
        Platform::MacOs => str_eq(home, "/usr/local"),
        _ => false,
    };
    if collides {
        return None;
    }
    let name = installed_binary_name(platform);
    Some(InstallTarget::new(platform, home, program_files, name, source))
}

/// Builds the installation description for the current user's environment:
/// reads the home directory and validates it through `target_from_home`.
/// Yields nothing when no home directory is available or when the reported
/// home is one that `target_from_home` rejects; whatever the environment
/// reported, a produced target is well formed and follows the placement
/// policy for the home it records.
pub fn target_from_env(platform: Platform, program_files: &str, source: &str) -> (r: Option<
    InstallTarget,
>)
    requires
        platform is Windows ==> is_absolute_dir(platform, program_files@),
    ensures
        r matches Some(t) ==> t.wf() && t.platform == platform && t.source@ == source@
            && is_absolute_dir(platform, t.home@) && !(platform is MacOs && t.home@
            == "/usr/local"@) && t.binary_name@ == (if platform is Windows {
            "smithery.exe"@
        } else {
            "smithery"@
        }) && t.primary_dir@ == primary_dir_spec(platform, program_files@) && t.fallback_dir@
            == fallback_dir_spec(platform, t.home@),
{
    match home_dir_string() {
        None => None,
        Some(home) => target_from_home(platform, home.as_str(), program_files, source),
    }
}

} // verus!
