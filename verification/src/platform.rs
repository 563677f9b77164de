//! Per-platform constants: elevation strategy, path separator, artifact
//! names, and the store that PATH registrations are appended to.

use vstd::prelude::*;

use crate::Platform;

verus! {

/// How elevated rights are requested on each platform.  Chosen solely from
/// the platform identifier.
#[derive(Clone, Copy, PartialEq, Eq, Structural, Debug)]
pub enum ElevationStrategy {
    /// macOS: the native "run with administrator privileges" prompt.
    AdminPrompt,
    /// Windows: an elevated child shell behind a UAC prompt.
    ElevatedShell,
    /// Linux: a polkit authentication agent.
    PolkitAgent,
}

/// The elevation strategy of a platform.
pub fn elevation_strategy_for(platform: Platform) -> (s: ElevationStrategy)
    ensures
        platform is MacOs ==> s is AdminPrompt,
        platform is Windows ==> s is ElevatedShell,
        platform is Linux ==> s is PolkitAgent,
{
    match platform {
        Platform::MacOs => ElevationStrategy::AdminPrompt,
        Platform::Windows => ElevationStrategy::ElevatedShell,
        Platform::Linux => ElevationStrategy::PolkitAgent,
    }
}

/// The character sequence that separates path components.
pub open spec fn separator_spec(platform: Platform) -> Seq<char> {
    match platform {
        Platform::Windows => "\\"@,
        _ => "/"@,
    }
}

/// The path separator of a platform.
pub fn path_separator(platform: Platform) -> (s: &'static str)
    ensures
        s@ == separator_spec(platform),
{
    match platform {
        Platform::Windows => "\\",
        _ => "/",
    }
}

/// The name under which the binary is installed.
pub fn installed_binary_name(platform: Platform) -> (s: &'static str)
    ensures
        platform is Windows ==> s@ == "smithery.exe"@,
        !(platform is Windows) ==> s@ == "smithery"@,
        s@.len() > 0,
{
    proof {
        reveal_strlit("smithery.exe");
        reveal_strlit("smithery");
    }
    match platform {
        Platform::Windows => "smithery.exe",
        _ => "smithery",
    }
}

/// The file name of the staged artifact bundled with the installer.
pub fn staged_resource_name(platform: Platform) -> (s: &'static str)
    ensures
        platform is MacOs ==> s@ == "smithery-macos"@,
        platform is Windows ==> s@ == "smithery-win.exe"@,
        platform is Linux ==> s@ == "smithery-linux"@,
{
    match platform {
        Platform::MacOs => "smithery-macos",
        Platform::Windows => "smithery-win.exe",
        Platform::Linux => "smithery-linux",
    }
}

/// The store that a PATH registration line is appended to: the user's
/// shell-profile file on Unix platforms, and a symbolic name for the
/// persistent user-level PATH variable on Windows (the shell around this
/// library maps that name to the environment update).
pub open spec fn profile_store_spec(platform: Platform, home: Seq<char>) -> Seq<char> {
    match platform {
        Platform::MacOs => home + "/.zshrc"@,
        Platform::Windows => "user-path-environment"@,
        Platform::Linux => home + "/.profile"@,
    }
}

/// The profile store a PATH registration of this platform is written to.
pub fn profile_store(platform: Platform, home: &str) -> (s: String)
    ensures
        s@ == profile_store_spec(platform, home@),
{
    match platform {
        Platform::MacOs => crate::strutil::concat2(home, "/.zshrc"),
        Platform::Windows => "user-path-environment".to_owned(),
        Platform::Linux => crate::strutil::concat2(home, "/.profile"),
    }
}

} // verus!
