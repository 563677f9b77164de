//! The Link/Copy Installer: the plan that places the binary at a
//! destination directory, replacing any pre-existing entry, and its proved
//! effect on the modelled filesystem.

use vstd::prelude::*;

use crate::fsmodel::{apply_plan_spec, EntryView, FsAction};
use crate::strutil::concat3;

verus! {

/// How the artifact is placed: a symbolic link to the staged resource
/// (preferred), or a byte copy with execute permission set, for when the
/// staged resource is not preserved afterwards.
#[derive(Clone, Copy, PartialEq, Eq, Structural, Debug)]
pub enum LinkMode {
    Symlink,
    Copy,
}

/// The path of the installed entry inside the destination directory.
pub open spec fn installed_path_spec(dest_dir: Seq<char>, sep: Seq<char>, name: Seq<char>) -> Seq<
    char,
> {
    dest_dir + sep + name
}

/// Joins the destination directory and the binary name.
pub fn installed_path(dest_dir: &str, sep: &str, name: &str) -> (r: String)
    ensures
        r@ == installed_path_spec(dest_dir@, sep@, name@),
{
    concat3(dest_dir, sep, name)
}

/// The observable state an install leaves behind: the destination directory
/// exists, and the destination path holds the freshly placed entry.
pub open spec fn install_effect(
    m: Map<Seq<char>, EntryView>,
    dest_dir: Seq<char>,
    dest: Seq<char>,
    source: Seq<char>,
    mode: LinkMode,
) -> Map<Seq<char>, EntryView> {
    match mode {
        LinkMode::Symlink => m.insert(dest_dir, EntryView::Dir).insert(
            dest,
            EntryView::SymlinkTo { target: source },
        ),
        LinkMode::Copy => m.insert(dest_dir, EntryView::Dir).insert(
            dest,
            EntryView::ExecutableFile,
        ),
    }
}

/// The plan that installs `binary_name` from the staged artifact at
/// `source` into `dest_dir`: ensure the directory exists, remove whatever
/// sits at the destination, then link or copy the artifact there.  Whatever
/// the filesystem held before, the plan leaves exactly [`install_effect`]
/// behind.
pub fn install_plan(dest_dir: &str, binary_name: &str, source: &str, sep: &str, mode: LinkMode) -> (
    r: Vec<FsAction>)
    ensures
        r@.len() == (if mode is Symlink {
            3int
        } else {
            4int
        }),
        r@[0] matches FsAction::CreateDirAll { path } && path@ == dest_dir@,
        r@[1] matches FsAction::RemoveIfExists { path } && path@ == installed_path_spec(
            dest_dir@,
            sep@,
            binary_name@,
        ),
        mode is Symlink ==> (r@[2] matches FsAction::CreateSymlink { link, target }
            && link@ == installed_path_spec(dest_dir@, sep@, binary_name@) && target@ == source@),
        mode is Copy ==> (r@[2] matches FsAction::CopyFile { from, to } && from@ == source@
            && to@ == installed_path_spec(dest_dir@, sep@, binary_name@)),
        mode is Copy ==> (r@[3] matches FsAction::SetExecutable { path }
            && path@ == installed_path_spec(dest_dir@, sep@, binary_name@)),
        forall|m: Map<Seq<char>, EntryView>| #[trigger] apply_plan_spec(m, r@) == install_effect(
            m,
            dest_dir@,
            installed_path_spec(dest_dir@, sep@, binary_name@),
            source@,
            mode,
        ),
{
    let dest = installed_path(dest_dir, sep, binary_name);
    let mut r: Vec<FsAction> = Vec::new();
    r.push(FsAction::CreateDirAll { path: dest_dir.to_owned() });
    r.push(FsAction::RemoveIfExists { path: dest.clone() });
    match mode {
        LinkMode::Symlink => {
            r.push(FsAction::CreateSymlink { link: dest.clone(), target: source.to_owned() });
        },
        LinkMode::Copy => {
            r.push(FsAction::CopyFile { from: source.to_owned(), to: dest.clone() });
            r.push(FsAction::SetExecutable { path: dest.clone() });
        },
    }
    proof {
        let ghost dd = dest_dir@;
        let ghost d = installed_path_spec(dest_dir@, sep@, binary_name@);
        assert forall|m: Map<Seq<char>, EntryView>| #[trigger] apply_plan_spec(m, r@)
            == install_effect(m, dd, d, source@, mode) by {
            reveal_with_fuel(apply_plan_spec, 6);
            if mode is Symlink {
                assert(r@.drop_last().drop_last().drop_last() =~= Seq::<FsAction>::empty());
            } else {
                assert(r@.drop_last().drop_last().drop_last().drop_last() =~= Seq::<
                    FsAction,
                >::empty());
            }
            assert(apply_plan_spec(m, r@) =~= install_effect(m, dd, d, source@, mode));
        }
    }
    r
}

/// Placing the binary is idempotent: running the install a second time with
/// the same inputs leaves the modelled filesystem exactly as one run does.
pub proof fn lemma_install_idempotent(
    m: Map<Seq<char>, EntryView>,
    dest_dir: Seq<char>,
    dest: Seq<char>,
    source: Seq<char>,
    mode: LinkMode,
)
    ensures
        install_effect(install_effect(m, dest_dir, dest, source, mode), dest_dir, dest, source, mode)
            == install_effect(m, dest_dir, dest, source, mode),
{
    assert(install_effect(
        install_effect(m, dest_dir, dest, source, mode),
        dest_dir,
        dest,
        source,
        mode,
    ) =~= install_effect(m, dest_dir, dest, source, mode));
}

/// The plan form of the idempotence law: applying an install plan twice in
/// a row equals applying it once.
pub proof fn lemma_install_plan_idempotent(
    m: Map<Seq<char>, EntryView>,
    plan: Seq<FsAction>,
    dest_dir: Seq<char>,
    dest: Seq<char>,
    source: Seq<char>,
    mode: LinkMode,
)
    requires
        forall|m2: Map<Seq<char>, EntryView>| #[trigger] apply_plan_spec(m2, plan)
            == install_effect(m2, dest_dir, dest, source, mode),
    ensures
        apply_plan_spec(apply_plan_spec(m, plan), plan) == apply_plan_spec(m, plan),
{
    lemma_install_idempotent(m, dest_dir, dest, source, mode);
}

} // verus!
