//! Filesystem actions and an in-memory model of their effect.
//!
//! The installer never touches the disk itself: it emits a plan, a sequence
//! of [`FsAction`] values, and the shell around the library interprets each
//! action with real filesystem primitives.  [`FsModel`] is the verified
//! model of that interpretation — a map from paths to entries — so that
//! what a plan does to the filesystem is stated and proved here, and can be
//! exercised against a fake environment.

use vstd::prelude::*;

use crate::strutil::{concat2, str_eq};

verus! {

/// One filesystem primitive the surrounding shell knows how to perform.
pub enum FsAction {
    /// Create a directory and its parents; succeeds if it already exists.
    CreateDirAll { path: String },
    /// Remove the entry at `path` if there is one; do nothing otherwise.
    RemoveIfExists { path: String },
    /// Create a symbolic link at `link` pointing at `target`.
    CreateSymlink { link: String, target: String },
    /// Copy the file at `from` to `to`, replacing what is there.
    CopyFile { from: String, to: String },
    /// Set the execute permission bits of the file at `path`.
    SetExecutable { path: String },
    /// Append `line` to the profile store named `store` (a shell-profile
    /// file, or the persistent user PATH variable on Windows).
    AppendProfile { store: String, line: String },
}

/// What the model records at one path.
pub enum EntryView {
    Dir,
    SymlinkTo { target: Seq<char> },
    PlainFile,
    ExecutableFile,
    Profile { content: Seq<char> },
}

/// An exec entry of the model, mirrored into [`EntryView`] by its view.
pub enum Entry {
    Dir,
    SymlinkTo { target: String },
    PlainFile,
    ExecutableFile,
    Profile { content: String },
}

impl View for Entry {
    type V = EntryView;

    open spec fn view(&self) -> EntryView {
        match self {
            Entry::Dir => EntryView::Dir,
            Entry::SymlinkTo { target } => EntryView::SymlinkTo { target: target@ },
            Entry::PlainFile => EntryView::PlainFile,
            Entry::ExecutableFile => EntryView::ExecutableFile,
            Entry::Profile { content } => EntryView::Profile { content: content@ },
        }
    }
}

/// The profile content that results from appending `line` to whatever the
/// store holds: existing profile text grows, anything else starts fresh.
pub open spec fn appended_profile(
    m: Map<Seq<char>, EntryView>,
    store: Seq<char>,
    line: Seq<char>,
) -> Seq<char> {
    if m.contains_key(store) && m[store] is Profile {
        m[store]->content + line
    } else {
        line
    }
}

/// The effect of one action on the modelled filesystem.
pub open spec fn apply_action(m: Map<Seq<char>, EntryView>, a: FsAction) -> Map<
    Seq<char>,
    EntryView,
> {
    match a {
        FsAction::CreateDirAll { path } => m.insert(path@, EntryView::Dir),
        FsAction::RemoveIfExists { path } => m.remove(path@),
        FsAction::CreateSymlink { link, target } => m.insert(
            link@,
            EntryView::SymlinkTo { target: target@ },
        ),
        FsAction::CopyFile { from, to } => m.insert(to@, EntryView::PlainFile),
        FsAction::SetExecutable { path } => if m.contains_key(path@) && m[path@] is PlainFile {
            m.insert(path@, EntryView::ExecutableFile)
        } else {
            m
        },
        FsAction::AppendProfile { store, line } => m.insert(
            store@,
            EntryView::Profile { content: appended_profile(m, store@, line@) },
        ),
    }
}

/// The effect of a whole plan, applied left to right.
pub open spec fn apply_plan_spec(m: Map<Seq<char>, EntryView>, plan: Seq<FsAction>) -> Map<
    Seq<char>,
    EntryView,
>
    decreases plan.len(),
{
    if plan.len() == 0 {
        m
    } else {
        apply_action(apply_plan_spec(m, plan.drop_last()), plan.last())
    }
}

/// Plans compose: performing a concatenated plan is performing its parts
/// one after the other.
pub proof fn lemma_apply_plan_concat(
    m: Map<Seq<char>, EntryView>,
    p1: Seq<FsAction>,
    p2: Seq<FsAction>,
)
    ensures
        apply_plan_spec(m, p1 + p2) == apply_plan_spec(apply_plan_spec(m, p1), p2),
    decreases p2.len(),
{
    if p2.len() == 0 {
        assert(p1 + p2 =~= p1);
    } else {
        lemma_apply_plan_concat(m, p1, p2.drop_last());
        assert((p1 + p2).drop_last() =~= p1 + p2.drop_last());
        assert((p1 + p2).last() == p2.last());
    }
}

/// The filesystem entries as a journal: later records shadow earlier ones,
/// and a `None` records a removal.
pub struct FsModel {
    pub entries: Vec<(String, Option<Entry>)>,
}

/// The map that a journal of records denotes.
pub open spec fn map_of(entries: Seq<(String, Option<Entry>)>) -> Map<Seq<char>, EntryView>
    decreases entries.len(),
{
    if entries.len() == 0 {
        Map::empty()
    } else {
        let m = map_of(entries.drop_last());
        match entries.last().1 {
            Some(e) => m.insert(entries.last().0@, e@),
            None => m.remove(entries.last().0@),
        }
    }
}

impl View for FsModel {
    type V = Map<Seq<char>, EntryView>;

    open spec fn view(&self) -> Map<Seq<char>, EntryView> {
        map_of(self.entries@)
    }
}

/// The record at `i` is the last one for key `p`, so it decides what the
/// denoted map holds at `p`.
proof fn lemma_map_of_determined(s: Seq<(String, Option<Entry>)>, p: Seq<char>, i: int)
    requires
        0 <= i < s.len(),
        s[i].0@ == p,
        forall|j: int| i < j < s.len() ==> s[j].0@ != p,
    ensures
        match s[i].1 {
            Some(e) => map_of(s).contains_key(p) && map_of(s)[p] == e@,
            None => !map_of(s).contains_key(p),
        },
    decreases s.len(),
{
    if i < s.len() - 1 {
        lemma_map_of_determined(s.drop_last(), p, i);
    }
}

/// No record carries key `p`, so the denoted map has no entry at `p`.
proof fn lemma_map_of_absent(s: Seq<(String, Option<Entry>)>, p: Seq<char>)
    requires
        forall|j: int| 0 <= j < s.len() ==> s[j].0@ != p,
    ensures
        !map_of(s).contains_key(p),
    decreases s.len(),
{
    if s.len() > 0 {
        lemma_map_of_absent(s.drop_last(), p);
    }
}

impl FsModel {
    /// An empty filesystem.
    pub fn new() -> (r: FsModel)
        ensures
            r@ == Map::<Seq<char>, EntryView>::empty(),
    {
        FsModel { entries: Vec::new() }
    }

    /// Records `e` at `path`, shadowing whatever was there.
    fn set_entry(&mut self, path: &str, e: Entry)
        ensures
            final(self)@ == old(self)@.insert(path@, e@),
    {
        let ghost before = self.entries@;
        self.entries.push((path.to_owned(), Some(e)));
        proof {
            assert(self.entries@.drop_last() =~= before);
        }
    }

    /// Records a removal at `path`.
    fn unset_entry(&mut self, path: &str)
        ensures
            final(self)@ == old(self)@.remove(path@),
    {
        let ghost before = self.entries@;
        self.entries.push((path.to_owned(), None));
        proof {
            assert(self.entries@.drop_last() =~= before);
        }
    }

    /// The entry the model holds at `path`, if any.
    fn find_entry(&self, path: &str) -> (r: Option<&Entry>)
        ensures
            match r {
                Some(e) => self@.contains_key(path@) && self@[path@] == e@,
                None => !self@.contains_key(path@),
            },
    {
        let n = self.entries.len();
        let mut i: usize = n;
        while i > 0
            invariant
                i <= n,
                n == self.entries.len(),
                forall|j: int| i <= j < n ==> self.entries@[j].0@ != path@,
            decreases i,
        {
            i = i - 1;
            if str_eq(self.entries[i].0.as_str(), path) {
                proof {
                    lemma_map_of_determined(self.entries@, path@, i as int);
                }
                return match &self.entries[i].1 {
                    Some(e) => Some(e),
                    None => None,
                };
            }
        }
        proof {
            lemma_map_of_absent(self.entries@, path@);
        }
        None
    }

    /// Whether the model holds an entry at `path`.
    pub fn has_entry(&self, path: &str) -> (b: bool)
        ensures
            b == self@.contains_key(path@),
    {
        match self.find_entry(path) {
            Some(_) => true,
            None => false,
        }
    }

    /// Whether the model holds a directory at `path`.
    pub fn is_dir(&self, path: &str) -> (b: bool)
        ensures
            b == (self@.contains_key(path@) && self@[path@] is Dir),
    {
        match self.find_entry(path) {
            Some(e) => match e {
                Entry::Dir => true,
                _ => false,
            },
            None => false,
        }
    }

    /// Whether the model holds an executable file at `path`.
    pub fn is_executable_at(&self, path: &str) -> (b: bool)
        ensures
            b == (self@.contains_key(path@) && self@[path@] is ExecutableFile),
    {
        match self.find_entry(path) {
            Some(e) => match e {
                Entry::ExecutableFile => true,
                _ => false,
            },
            None => false,
        }
    }

    /// The target of the symbolic link at `path`, if the model holds one.
    pub fn symlink_target(&self, path: &str) -> (r: Option<String>)
        ensures
            match r {
                Some(t) => self@.contains_key(path@) && self@[path@] == (EntryView::SymlinkTo {
                    target: t@,
                }),
                None => !(self@.contains_key(path@) && self@[path@] is SymlinkTo),
            },
    {
        match self.find_entry(path) {
            Some(e) => match e {
                Entry::SymlinkTo { target } => Some(target.clone()),
                _ => None,
            },
            None => None,
        }
    }

    /// The text of the profile store at `path`, if the model holds one.
    pub fn profile_content(&self, path: &str) -> (r: Option<String>)
        ensures
            match r {
                Some(c) => self@.contains_key(path@) && self@[path@] == (EntryView::Profile {
                    content: c@,
                }),
                None => !(self@.contains_key(path@) && self@[path@] is Profile),
            },
    {
        match self.find_entry(path) {
            Some(e) => match e {
                Entry::Profile { content } => Some(content.clone()),
                _ => None,
            },
            None => None,
        }
    }

    /// Performs one action on the model.
    pub fn apply(&mut self, a: &FsAction)
        ensures
            final(self)@ == apply_action(old(self)@, *a),
    {
        match a {
            FsAction::CreateDirAll { path } => {
                self.set_entry(path.as_str(), Entry::Dir);
            },
            FsAction::RemoveIfExists { path } => {
                self.unset_entry(path.as_str());
            },
            FsAction::CreateSymlink { link, target } => {
                self.set_entry(link.as_str(), Entry::SymlinkTo { target: target.clone() });
            },
            FsAction::CopyFile { from: _, to } => {
                self.set_entry(to.as_str(), Entry::PlainFile);
            },
            FsAction::SetExecutable { path } => {
                let upgrade = match self.find_entry(path.as_str()) {
                    Some(e) => match e {
                        Entry::PlainFile => true,
                        _ => false,
                    },
                    None => false,
                };
                if upgrade {
                    self.set_entry(path.as_str(), Entry::ExecutableFile);
                }
            },
            FsAction::AppendProfile { store, line } => {
                let fresh = match self.find_entry(store.as_str()) {
                    Some(e) => match e {
                        Entry::Profile { content } => concat2(content.as_str(), line.as_str()),
                        _ => line.clone(),
                    },
                    None => line.clone(),
                };
                self.set_entry(store.as_str(), Entry::Profile { content: fresh });
            },
        }
    }

    /// Performs a whole plan on the model, left to right.
    pub fn apply_plan(&mut self, plan: &Vec<FsAction>)
        ensures
            final(self)@ == apply_plan_spec(old(self)@, plan@),
    {
        let ghost m0 = self@;
        let mut i: usize = 0;
        while i < plan.len()
            invariant
                i <= plan.len(),
                self@ == apply_plan_spec(m0, plan@.take(i as int)),
            decreases plan.len() - i,
        {
            self.apply(&plan[i]);
            proof {
                assert(plan@.take(i + 1 as int).drop_last() =~= plan@.take(i as int));
                assert(plan@.take(i + 1 as int).last() == plan@[i as int]);
            }
            i = i + 1;
        }
        proof {
            assert(plan@.take(plan@.len() as int) =~= plan@);
        }
    }
}

} // verus!
