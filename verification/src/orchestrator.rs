//! The Installation Orchestrator: the two-tier attempt.  The primary tier
//! places the binary system-wide through one elevated shell command; any
//! elevation error advances to the fallback tier, carrying the failure
//! reason forward.  The fallback tier installs into the user-scope
//! directory and registers it on the PATH, without elevation.  Each tier is
//! attempted exactly once per invocation; the outcome never drops the
//! primary tier's failure reason.

use vstd::prelude::*;

use crate::elevation::{describe_elevation_error, describe_elevation_error_spec, ElevationError};
use crate::fsmodel::{apply_plan_spec, EntryView, FsAction, lemma_apply_plan_concat};
use crate::installer::{install_effect, install_plan, installed_path, installed_path_spec, LinkMode};
use crate::placement::InstallTarget;
use crate::platform::{path_separator, separator_spec};
use crate::registrar::{registration_effect, registration_plan};
use crate::strutil::{concat3, is_substr};
use crate::strutil::{lemma_substr_append_left, lemma_substr_of_concat3, lemma_substr_self};
use crate::Platform;

verus! {

/// Which tier an install landed in.
#[derive(Clone, Copy, PartialEq, Eq, Structural, Debug)]
pub enum Tier {
    Primary,
    Fallback,
}

/// The unified result of one orchestrator invocation: where the binary
/// ended up, or why both tiers failed — with a diagnostic trail that keeps
/// every reason that was encountered on the way.
pub enum InstallOutcome {
    Installed { tier: Tier, path: String, trail: String },
    Failed { trail: String },
}

/// What to do after the primary tier reported back.
pub enum TierDecision {
    /// The elevated command succeeded: the install is finished.
    Finished { outcome: InstallOutcome },
    /// The primary tier failed; degrade to the user-scope tier, carrying
    /// the reason along for the final trail.
    TryFallback { primary_reason: String },
}

/// The shell command the primary tier runs with elevated rights: create
/// the system-wide directory, link the staged artifact into it, and — on
/// the Unix platforms — set the staged binary's execute permission, which
/// the link inherits.  Windows has no permission bits to set.
pub open spec fn primary_command_spec(t: InstallTarget) -> Seq<char> {
    let dest = installed_path_spec(t.primary_dir@, separator_spec(t.platform), t.binary_name@);
    match t.platform {
        Platform::Windows => "if not exist \""@ + t.primary_dir@ + "\" mkdir \""@ + t.primary_dir@
            + "\" && mklink \""@ + dest + "\" \""@ + t.source@ + "\""@,
        _ => "mkdir -p '"@ + t.primary_dir@ + "' && ln -sf '"@ + t.source@ + "' '"@ + dest
            + "' && chmod 755 '"@ + t.source@ + "'"@,
    }
}

/// Builds the primary tier's elevated shell command.
pub fn primary_command(t: &InstallTarget) -> (c: String)
    ensures
        c@ == primary_command_spec(*t),
{
    let sep = path_separator(t.platform);
    let dest = installed_path(t.primary_dir.as_str(), sep, t.binary_name.as_str());
    match t.platform {
        Platform::Windows => {
            let mut c = concat3("if not exist \"", t.primary_dir.as_str(), "\" mkdir \"");
            c.append(t.primary_dir.as_str());
            c.append("\" && mklink \"");
            c.append(dest.as_str());
            c.append("\" \"");
            c.append(t.source.as_str());
            c.append("\"");
            c
        },
        _ => {
            let mut c = concat3("mkdir -p '", t.primary_dir.as_str(), "' && ln -sf '");
            c.append(t.source.as_str());
            c.append("' '");
            c.append(dest.as_str());
            c.append("' && chmod 755 '");
            c.append(t.source.as_str());
            c.append("'");
            c
        },
    }
}

/// What `decide_after_primary` promises of its decision.
pub open spec fn decide_after_primary_post(
    t: InstallTarget,
    r: Result<(), ElevationError>,
    d: TierDecision,
) -> bool {
    &&& r is Ok ==> (d matches TierDecision::Finished { outcome } && (outcome matches
    InstallOutcome::Installed { tier, path, trail } && tier is Primary && path@
        == installed_path_spec(t.primary_dir@, separator_spec(t.platform), t.binary_name@) && trail@
        == "installed at the primary tier"@))
    &&& r matches Err(e) ==> (d matches TierDecision::TryFallback { primary_reason }
        && primary_reason@ == describe_elevation_error_spec(e))
}

/// Turns the primary tier's elevation result into the next step: success
/// finishes at the primary tier; every elevation error — a denial, a
/// missing mechanism, or a failed command — advances to the fallback tier
/// with its reason preserved.
pub fn decide_after_primary(t: &InstallTarget, r: &Result<(), ElevationError>) -> (d: TierDecision)
    ensures
        decide_after_primary_post(*t, *r, d),
{
    match r {
        Ok(_) => {
            let sep = path_separator(t.platform);
            let path = installed_path(t.primary_dir.as_str(), sep, t.binary_name.as_str());
            TierDecision::Finished {
                outcome: InstallOutcome::Installed {
                    tier: Tier::Primary,
                    path,
                    trail: "installed at the primary tier".to_owned(),
                },
            }
        },
        Err(e) => TierDecision::TryFallback { primary_reason: describe_elevation_error(e) },
    }
}

/// The plan of the whole fallback tier: place the binary in the user-scope
/// directory, then register that directory on the PATH if it is not
/// discoverable yet.  Returns the plan and the final destination path.
pub fn fallback_tier_plan(
    t: &InstallTarget,
    mode: LinkMode,
    store: &str,
    path_env: &str,
    profile_content: &str,
) -> (r: (Vec<FsAction>, String))
    ensures
        r.1@ == installed_path_spec(t.fallback_dir@, separator_spec(t.platform), t.binary_name@),
        forall|m: Map<Seq<char>, EntryView>| #[trigger] apply_plan_spec(m, r.0@)
            == registration_effect(
            install_effect(m, t.fallback_dir@, r.1@, t.source@, mode),
            t.platform,
            t.fallback_dir@,
            store@,
            path_env@,
            profile_content@,
        ),
{
    let sep = path_separator(t.platform);
    let mut plan = install_plan(
        t.fallback_dir.as_str(),
        t.binary_name.as_str(),
        t.source.as_str(),
        sep,
        mode,
    );
    let ghost p1 = plan@;
    let reg = registration_plan(
        t.platform,
        t.fallback_dir.as_str(),
        store,
        path_env,
        profile_content,
    );
    let ghost p2 = reg@;
    let mut reg = reg;
    plan.append(&mut reg);
    let dest = installed_path(t.fallback_dir.as_str(), sep, t.binary_name.as_str());
    proof {
        assert(plan@ =~= p1 + p2);
        assert forall|m: Map<Seq<char>, EntryView>| #[trigger] apply_plan_spec(m, plan@)
            == registration_effect(
            install_effect(m, t.fallback_dir@, dest@, t.source@, mode),
            t.platform,
            t.fallback_dir@,
            store@,
            path_env@,
            profile_content@,
        ) by {
            lemma_apply_plan_concat(m, p1, p2);
        }
    }
    (plan, dest)
}

/// What `finish_fallback` promises of the final outcome.
pub open spec fn finish_fallback_post(
    primary_reason: Seq<char>,
    fb: Result<String, String>,
    o: InstallOutcome,
) -> bool {
    &&& fb matches Ok(p) ==> (o matches InstallOutcome::Installed { tier, path, trail }
        && tier is Fallback && path@ == p@ && trail@ == "primary tier failed: "@ + primary_reason
        + "; fallback tier: installed at "@ + p@)
    &&& fb matches Err(msg) ==> (o matches InstallOutcome::Failed { trail } && trail@
        == "primary tier failed: "@ + primary_reason + "; fallback tier failed: "@ + msg@)
}

/// Builds the final outcome once the fallback tier has reported back: a
/// fallback install on success, a terminal failure otherwise.  Either way
/// the trail keeps the primary tier's failure reason.
pub fn finish_fallback(primary_reason: &str, fb: &Result<String, String>) -> (o: InstallOutcome)
    ensures
        finish_fallback_post(primary_reason@, *fb, o),
{
    match fb {
        Ok(p) => {
            let mut trail = concat3(
                "primary tier failed: ",
                primary_reason,
                "; fallback tier: installed at ",
            );
            trail.append(p.as_str());
            InstallOutcome::Installed { tier: Tier::Fallback, path: p.clone(), trail }
        },
        Err(msg) => {
            let mut trail = concat3(
                "primary tier failed: ",
                primary_reason,
                "; fallback tier failed: ",
            );
            trail.append(msg.as_str());
            InstallOutcome::Failed { trail }
        },
    }
}

/// A primary-tier denial, or a platform without an elevation mechanism,
/// always advances to the fallback tier; and when the fallback tier's own
/// steps succeed, the outcome is a fallback install — never a failure that
/// stems from the denial alone.
pub proof fn lemma_denial_reaches_fallback(
    t: InstallTarget,
    e: ElevationError,
    d: TierDecision,
    fb_path: String,
    o: InstallOutcome,
)
    requires
        e is ElevationDenied || e is NoElevationMechanism,
        decide_after_primary_post(t, Err(e), d),
        d matches TierDecision::TryFallback { primary_reason } ==> finish_fallback_post(
            primary_reason@,
            Ok(fb_path),
            o,
        ),
    ensures
        d is TryFallback,
        o matches InstallOutcome::Installed { tier, path, .. } && tier is Fallback && path@
            == fb_path@,
{
}

/// When both tiers fail, the diagnostic trail of the outcome contains the
/// primary tier's failure reason and the fallback tier's failure message,
/// each as its own fragment.
pub proof fn lemma_trail_names_both_failures(
    primary_reason: Seq<char>,
    fb_msg: String,
    o: InstallOutcome,
)
    requires
        finish_fallback_post(primary_reason, Err(fb_msg), o),
    ensures
        o is Failed,
        o matches InstallOutcome::Failed { trail } ==> is_substr(primary_reason, trail@)
            && is_substr(fb_msg@, trail@),
{
    match o {
        InstallOutcome::Failed { trail } => {
            let head = "primary tier failed: "@;
            let mid = "; fallback tier failed: "@;
            lemma_substr_of_concat3(head, primary_reason, mid + fb_msg@);
            assert(head + primary_reason + (mid + fb_msg@) =~= trail@);
            lemma_substr_self(fb_msg@);
            lemma_substr_append_left(fb_msg@, head + primary_reason + mid, fb_msg@);
            assert(head + primary_reason + mid + fb_msg@ =~= trail@);
        },
        _ => {},
    }
}

} // verus!
