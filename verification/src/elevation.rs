//! The Elevation Adapter's decision half: how the elevated invocation is
//! phrased on each platform, and how the outcome of that invocation is
//! classified.  A user who cancels the prompt is distinguished from a
//! command that ran and failed, and a platform with no working elevation
//! mechanism is distinguished from both, so the orchestrator can degrade
//! without retrying.  Spawning the process belongs to the surrounding
//! shell; it hands the exit status and captured stderr back to
//! [`interpret_elevation`].

use vstd::prelude::*;

use crate::strutil::{concat2, concat3, contains_str, is_substr};
use crate::Platform;

verus! {

/// Why running a command with elevated rights did not succeed.
pub enum ElevationError {
    /// The user declined the interactive prompt: expected, not fatal.
    ElevationDenied,
    /// The platform has no available elevation agent at all.
    NoElevationMechanism,
    /// The command ran with elevated rights but exited non-zero.
    CommandFailed { stderr: String },
}

/// The argument list that runs `command` with elevated rights: the native
/// administrator prompt on macOS, an elevated shell behind the UAC prompt
/// on Windows, a polkit agent on Linux.
pub fn elevation_invocation(platform: Platform, command: &str) -> (r: Vec<String>)
    ensures
        platform is MacOs ==> r@.len() == 3 && r@[0]@ == "osascript"@ && r@[1]@ == "-e"@
            && r@[2]@ == "do shell script \""@ + command@ + "\" with administrator privileges"@,
        platform is Windows ==> r@.len() == 3 && r@[0]@ == "powershell"@ && r@[1]@ == "-Command"@
            && r@[2]@ == "Start-Process cmd.exe -ArgumentList '/c "@ + command@
            + "' -Verb RunAs -Wait"@,
        platform is Linux ==> r@.len() == 4 && r@[0]@ == "pkexec"@ && r@[1]@ == "sh"@ && r@[2]@
            == "-c"@ && r@[3]@ == command@,
{
    let mut r: Vec<String> = Vec::new();
    match platform {
        Platform::MacOs => {
            r.push("osascript".to_owned());
            r.push("-e".to_owned());
            r.push(concat3("do shell script \"", command, "\" with administrator privileges"));
        },
        Platform::Windows => {
            r.push("powershell".to_owned());
            r.push("-Command".to_owned());
            r.push(concat3("Start-Process cmd.exe -ArgumentList '/c ", command, "' -Verb RunAs -Wait"));
        },
        Platform::Linux => {
            r.push("pkexec".to_owned());
            r.push("sh".to_owned());
            r.push("-c".to_owned());
            r.push(command.to_owned());
        },
    }
    r
}

/// The exit of an elevated invocation shows that the user declined the
/// prompt: the administrator prompt reports a cancellation on macOS, the
/// UAC launch reports one on Windows, and the polkit agent exits with its
/// dismissal status on Linux.
pub open spec fn denial_indicated(platform: Platform, code: int, stderr: Seq<char>) -> bool {
    match platform {
        Platform::MacOs => is_substr("User canceled"@, stderr),
        Platform::Windows => is_substr("canceled by the user"@, stderr),
        Platform::Linux => code == 126,
    }
}

/// Classifies what came back from an elevated invocation.  `exit_code` is
/// `None` when the elevation program itself could not be spawned — then no
/// elevation mechanism exists on this machine.  A zero exit is success; a
/// cancellation marker is a denial; the polkit agent's "no agent" status on
/// Linux also counts as a missing mechanism; anything else is a command
/// that ran and failed, with its stderr preserved.
pub fn interpret_elevation(platform: Platform, exit_code: Option<i32>, stderr: &str) -> (r: Result<
    (),
    ElevationError,
>)
    ensures
        exit_code is None ==> (r matches Err(e) && e is NoElevationMechanism),
        (exit_code matches Some(c) && c == 0) ==> r is Ok,
        (exit_code matches Some(c) && c != 0 && platform is Linux && c == 127) ==> (r matches Err(e)
            && e is NoElevationMechanism),
        (exit_code matches Some(c) && c != 0 && !(platform is Linux && c == 127)
            && denial_indicated(platform, c as int, stderr@)) ==> (r matches Err(e)
            && e is ElevationDenied),
        (exit_code matches Some(c) && c != 0 && !(platform is Linux && c == 127)
            && !denial_indicated(platform, c as int, stderr@)) ==> (r matches Err(e) && (e matches
        ElevationError::CommandFailed { stderr: s } && s@ == stderr@)),
{
    match exit_code {
        None => Err(ElevationError::NoElevationMechanism),
        Some(c) => {
            if c == 0 {
                Ok(())
            } else {
                let denied = match platform {
                    Platform::MacOs => contains_str(stderr, "User canceled"),
                    Platform::Windows => contains_str(stderr, "canceled by the user"),
                    Platform::Linux => c == 126,
                };
                if matches!(platform, Platform::Linux) && c == 127 {
                    Err(ElevationError::NoElevationMechanism)
                } else if denied {
                    Err(ElevationError::ElevationDenied)
                } else {
                    Err(ElevationError::CommandFailed { stderr: stderr.to_owned() })
                }
            }
        },
    }
}

/// The human-readable reason a failed elevation contributes to the
/// diagnostic trail.
pub open spec fn describe_elevation_error_spec(e: ElevationError) -> Seq<char> {
    match e {
        ElevationError::ElevationDenied => "elevation was denied by the user"@,
        ElevationError::NoElevationMechanism => "no elevation mechanism is available"@,
        ElevationError::CommandFailed { stderr } => "the elevated command failed: "@ + stderr@,
    }
}

/// Renders an elevation error for the diagnostic trail.
pub fn describe_elevation_error(e: &ElevationError) -> (s: String)
    ensures
        s@ == describe_elevation_error_spec(*e),
{
    match e {
        ElevationError::ElevationDenied => "elevation was denied by the user".to_owned(),
        ElevationError::NoElevationMechanism => "no elevation mechanism is available".to_owned(),
        ElevationError::CommandFailed { stderr } => concat2(
            "the elevated command failed: ",
            stderr.as_str(),
        ),
    }
}

} // verus!
