//! The PATH Registrar: makes the user-scope directory discoverable on the
//! shell PATH, once.  The decision is pure; the single append it may ask
//! for is an [`FsAction`] interpreted by the surrounding shell.

use vstd::prelude::*;

use crate::fsmodel::{appended_profile, apply_plan_spec, EntryView, FsAction};
use crate::strutil::{concat2, concat3, contains_str, is_substr};
use crate::Platform;

verus! {

/// The directory is already discoverable: it occurs in the effective PATH
/// read from the environment, or is already referenced by the profile
/// store.
pub open spec fn already_on_path(
    dir: Seq<char>,
    path_env: Seq<char>,
    profile_content: Seq<char>,
) -> bool {
    is_substr(dir, path_env) || is_substr(dir, profile_content)
}

/// The line a registration appends: a tagged PATH-extension line for a
/// Unix shell profile, or the bare directory entry for the persistent
/// Windows user PATH variable.
pub open spec fn path_line_spec(platform: Platform, dir: Seq<char>) -> Seq<char> {
    match platform {
        Platform::Windows => dir + ";"@,
        _ => "\n# Added by Smithery installer\nexport PATH=\""@ + dir + ":$PATH\"\n"@,
    }
}

/// What a registration leaves on the modelled filesystem: nothing at all
/// when the directory is already discoverable, otherwise the profile store
/// with the PATH-extension line appended to its previous text.
pub open spec fn registration_effect(
    m: Map<Seq<char>, EntryView>,
    platform: Platform,
    dir: Seq<char>,
    store: Seq<char>,
    path_env: Seq<char>,
    profile_content: Seq<char>,
) -> Map<Seq<char>, EntryView> {
    if already_on_path(dir, path_env, profile_content) {
        m
    } else {
        m.insert(
            store,
            EntryView::Profile {
                content: appended_profile(m, store, path_line_spec(platform, dir)),
            },
        )
    }
}

/// Decides the PATH registration for `dir`.  When the directory is already
/// present in the effective PATH or in the profile store the plan is empty
/// — registration writes nothing at all; otherwise it is the single append
/// of the tagged PATH-extension line.  Existing entries are never removed
/// or reordered: the only action ever emitted is an append.
pub fn registration_plan(
    platform: Platform,
    dir: &str,
    store: &str,
    path_env: &str,
    profile_content: &str,
) -> (r: Vec<FsAction>)
    ensures
        already_on_path(dir@, path_env@, profile_content@) ==> r@.len() == 0,
        !already_on_path(dir@, path_env@, profile_content@) ==> r@.len() == 1 && (r@[0] matches
        FsAction::AppendProfile { store: s, line } && s@ == store@ && line@ == path_line_spec(
            platform,
            dir@,
        )),
        forall|m: Map<Seq<char>, EntryView>| #[trigger] apply_plan_spec(m, r@)
            == registration_effect(m, platform, dir@, store@, path_env@, profile_content@),
{
    if contains_str(path_env, dir) || contains_str(profile_content, dir) {
        Vec::new()
    } else {
        let line = match platform {
            Platform::Windows => concat2(dir, ";"),
            _ => concat3("\n# Added by Smithery installer\nexport PATH=\"", dir, ":$PATH\"\n"),
        };
        let mut r: Vec<FsAction> = Vec::new();
        r.push(FsAction::AppendProfile { store: store.to_owned(), line });
        proof {
            assert forall|m: Map<Seq<char>, EntryView>| #[trigger] apply_plan_spec(m, r@)
                == registration_effect(m, platform, dir@, store@, path_env@, profile_content@) by {
                reveal_with_fuel(apply_plan_spec, 3);
                assert(r@.drop_last() =~= Seq::<FsAction>::empty());
                assert(apply_plan_spec(m, r@) =~= registration_effect(
                    m,
                    platform,
                    dir@,
                    store@,
                    path_env@,
                    profile_content@,
                ));
            }
        }
        r
    }
}

/// Registration never touches the filesystem when the directory is already
/// listed in the effective PATH: the plan is empty, and an empty plan
/// changes nothing in the model.
pub proof fn lemma_registration_noop(
    m: Map<Seq<char>, EntryView>,
    plan: Seq<FsAction>,
    dir: Seq<char>,
    path_env: Seq<char>,
    profile_content: Seq<char>,
)
    requires
        already_on_path(dir, path_env, profile_content),
        already_on_path(dir, path_env, profile_content) ==> plan.len() == 0,
    ensures
        apply_plan_spec(m, plan) == m,
{
}

} // verus!
