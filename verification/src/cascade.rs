//! The Dependency Cascade Installer's decision half.  Detection interprets
//! the dependency's own version query; the cascade walks an ordered list of
//! package-manager candidates, probing for each before asking the
//! Elevation Adapter to run its install command, and stops at the first
//! success.  When every candidate is absent or fails, the failure message
//! enumerates every attempt.  Probes and installs are performed by the
//! surrounding shell, which feeds their results back into the run state.

use vstd::prelude::*;

use crate::strutil::{concat2, concat3, is_substr};
use crate::strutil::{lemma_substr_append_left, lemma_substr_append_right, lemma_substr_self};
use crate::Platform;

verus! {

/// Whether the dependency is already present, with the version its own
/// query reported, or why it is taken to be absent.
pub enum DependencyCheckResult {
    Present { version: String },
    Absent { reason: String },
}

/// The version query that detects the dependency: its own `--version`.
pub fn version_query(dependency: &str) -> (r: Vec<String>)
    ensures
        r@.len() == 2,
        r@[0]@ == dependency@,
        r@[1]@ == "--version"@,
{
    let mut r: Vec<String> = Vec::new();
    r.push(dependency.to_owned());
    r.push("--version".to_owned());
    r
}

/// Interprets what the version query came back with: a successful exit
/// means the dependency is present, reporting its version from the query's
/// output; anything else — including a query that could not be spawned —
/// means it is absent, with the dependency's display name (`Podman`, not
/// the command name) heading the reason.
pub fn interpret_detection(display_name: &str, spawned: bool, exit_ok: bool, stdout: &str) -> (r:
    DependencyCheckResult)
    ensures
        (spawned && exit_ok) ==> (r matches DependencyCheckResult::Present { version } && version@
            == stdout@),
        !(spawned && exit_ok) ==> (r matches DependencyCheckResult::Absent { reason } && reason@
            == display_name@ + " is not installed"@),
{
    if spawned && exit_ok {
        DependencyCheckResult::Present { version: stdout.to_owned() }
    } else {
        DependencyCheckResult::Absent { reason: concat2(display_name, " is not installed") }
    }
}

/// One package manager the cascade may try: the name its probe looks up,
/// and the arguments of its install command.
pub struct Candidate {
    pub name: String,
    pub install_args: Vec<String>,
}

/// The candidate's install command has exactly these two arguments.
pub open spec fn args2(c: Candidate, a0: Seq<char>, a1: Seq<char>) -> bool {
    c.install_args@.len() == 2 && c.install_args@[0]@ == a0 && c.install_args@[1]@ == a1
}

/// The candidate's install command has exactly these three arguments.
pub open spec fn args3(c: Candidate, a0: Seq<char>, a1: Seq<char>, a2: Seq<char>) -> bool {
    c.install_args@.len() == 3 && c.install_args@[0]@ == a0 && c.install_args@[1]@ == a1
        && c.install_args@[2]@ == a2
}

/// The ordered candidate list of a platform, in conventional priority
/// order: Homebrew on macOS; winget before chocolatey on Windows; apt
/// before dnf before yum before pacman before zypper on Linux.
pub fn default_candidates(platform: Platform, dependency: &str) -> (r: Vec<Candidate>)
    ensures
        platform is MacOs ==> r@.len() == 1 && r@[0].name@ == "brew"@ && args2(
            r@[0],
            "install"@,
            dependency@,
        ),
        platform is Windows ==> r@.len() == 2 && r@[0].name@ == "winget"@ && args2(
            r@[0],
            "install"@,
            "RedHat.Podman"@,
        ) && r@[1].name@ == "choco"@ && args3(r@[1], "install"@, dependency@, "-y"@),
        platform is Linux ==> r@.len() == 5 && r@[0].name@ == "apt-get"@ && args3(
            r@[0],
            "install"@,
            "-y"@,
            dependency@,
        ) && r@[1].name@ == "dnf"@ && args3(r@[1], "install"@, "-y"@, dependency@) && r@[2].name@
            == "yum"@ && args3(r@[2], "install"@, "-y"@, dependency@) && r@[3].name@ == "pacman"@
            && args3(r@[3], "-S"@, "--noconfirm"@, dependency@) && r@[4].name@ == "zypper"@ && args3(
            r@[4],
            "install"@,
            "-y"@,
            dependency@,
        ),
{
    let mut r: Vec<Candidate> = Vec::new();
    match platform {
        Platform::MacOs => {
            r.push(candidate2("brew", "install", dependency));
        },
        Platform::Windows => {
            r.push(candidate2("winget", "install", "RedHat.Podman"));
            r.push(candidate3("choco", "install", dependency, "-y"));
        },
        Platform::Linux => {
            r.push(candidate3("apt-get", "install", "-y", dependency));
            r.push(candidate3("dnf", "install", "-y", dependency));
            r.push(candidate3("yum", "install", "-y", dependency));
            r.push(candidate3("pacman", "-S", "--noconfirm", dependency));
            r.push(candidate3("zypper", "install", "-y", dependency));
        },
    }
    r
}

/// A candidate with a two-argument install command.
fn candidate2(name: &str, a0: &str, a1: &str) -> (c: Candidate)
    ensures
        c.name@ == name@,
        args2(c, a0@, a1@),
{
    let mut install_args: Vec<String> = Vec::new();
    install_args.push(a0.to_owned());
    install_args.push(a1.to_owned());
    Candidate { name: name.to_owned(), install_args }
}

/// A candidate with a three-argument install command.
fn candidate3(name: &str, a0: &str, a1: &str, a2: &str) -> (c: Candidate)
    ensures
        c.name@ == name@,
        args3(c, a0@, a1@, a2@),
{
    let mut install_args: Vec<String> = Vec::new();
    install_args.push(a0.to_owned());
    install_args.push(a1.to_owned());
    install_args.push(a2.to_owned());
    Candidate { name: name.to_owned(), install_args }
}

/// One candidate the cascade gave up on, and why.
pub struct Attempt {
    pub name: String,
    pub reason: String,
}

/// The walk through the candidate list: the next candidate to consider,
/// and every attempt that was given up so far, in order.
pub struct CascadeRun {
    pub next_index: usize,
    pub attempts: Vec<Attempt>,
}

impl CascadeRun {
    /// A fresh walk, before the first candidate.
    pub fn start() -> (r: CascadeRun)
        ensures
            r.next_index == 0,
            r.attempts@.len() == 0,
    {
        CascadeRun { next_index: 0, attempts: Vec::new() }
    }

    /// The cascade is exhausted: no candidate is left to try.
    pub fn exhausted(&self, candidates: &Vec<Candidate>) -> (b: bool)
        ensures
            b == (self.next_index >= candidates@.len()),
    {
        self.next_index >= candidates.len()
    }

    /// The candidate the walk stands at.
    pub fn current<'a>(&self, candidates: &'a Vec<Candidate>) -> (c: &'a Candidate)
        requires
            self.next_index < candidates@.len(),
        ensures
            c == &candidates@[self.next_index as int],
    {
        &candidates[self.next_index]
    }

    /// Feeds back whether the current candidate's package manager exists
    /// on the system.  A present candidate is the one to install through —
    /// the walk does not move; an absent one is recorded and skipped
    /// without attempting elevation.
    pub fn record_probe(&mut self, candidates: &Vec<Candidate>, present: bool) -> (install_now:
        bool)
        requires
            old(self).next_index < candidates@.len(),
        ensures
            install_now == present,
            present ==> *final(self) == *old(self),
            !present ==> final(self).next_index == old(self).next_index + 1
                && final(self).attempts@.len() == old(self).attempts@.len() + 1 && (forall|j: int|
                0 <= j < old(self).attempts@.len() ==> final(self).attempts@[j] == old(
                    self,
                ).attempts@[j]) && final(self).attempts@.last().name@ == candidates@[old(
                self,
            ).next_index as int].name@ && final(self).attempts@.last().reason@
                == "not found on this system"@,
    {
        if present {
            true
        } else {
            let _bound = candidates.len();
            let name = candidates[self.next_index].name.clone();
            self.attempts.push(
                Attempt { name, reason: "not found on this system".to_owned() },
            );
            self.next_index = self.next_index + 1;
            false
        }
    }

    /// Feeds back whether the current candidate's elevated install command
    /// succeeded.  Success ends the cascade, naming the candidate it
    /// installed through; a failure is recorded with its message and the
    /// walk moves on.
    pub fn record_install(&mut self, candidates: &Vec<Candidate>, ok: bool, error: &str) -> (via:
        Option<String>)
        requires
            old(self).next_index < candidates@.len(),
        ensures
            ok ==> *final(self) == *old(self) && (via matches Some(n) && n@ == candidates@[old(
                self,
            ).next_index as int].name@),
            !ok ==> via is None && final(self).next_index == old(self).next_index + 1
                && final(self).attempts@.len() == old(self).attempts@.len() + 1 && (forall|j: int|
                0 <= j < old(self).attempts@.len() ==> final(self).attempts@[j] == old(
                    self,
                ).attempts@[j]) && final(self).attempts@.last().name@ == candidates@[old(
                self,
            ).next_index as int].name@ && final(self).attempts@.last().reason@
                == "install failed: "@ + error@,
    {
        let _bound = candidates.len();
        let name = candidates[self.next_index].name.clone();
        if ok {
            Some(name)
        } else {
            self.attempts.push(Attempt { name, reason: concat2("install failed: ", error) });
            self.next_index = self.next_index + 1;
            None
        }
    }
}

/// Candidate `i` would get the dependency installed in this environment:
/// its probe finds the package manager, and its install command succeeds.
pub open spec fn succeeds_at(present: Seq<bool>, install_ok: Seq<bool>, i: int) -> bool {
    present[i] && install_ok[i]
}

/// The end of one whole cascade.
pub enum CascadeOutcome {
    Installed { via: String },
    AllCandidatesFailed { message: String },
}

/// The reason candidate `i` contributes to an exhausted cascade's message
/// in a fixed environment: it was absent, or its install command failed.
pub open spec fn model_reason(present: Seq<bool>, i: int) -> Seq<char> {
    if present[i] {
        "install failed: "@ + "exit status 1"@
    } else {
        "not found on this system"@
    }
}

/// The whole cascade policy, run against a fixed environment: `present[i]`
/// says whether candidate `i`'s probe finds its package manager, and
/// `install_ok[i]` whether its elevated install command succeeds.  The
/// cascade installs through the first candidate that is present and whose
/// install succeeds — never a later one — and reports it by name; when no
/// candidate succeeds, the failure message enumerates every candidate with
/// its reason and closes with the platform's manual-install hint.
pub fn run_cascade(
    platform: Platform,
    candidates: &Vec<Candidate>,
    present: &Vec<bool>,
    install_ok: &Vec<bool>,
) -> (r: CascadeOutcome)
    requires
        present@.len() == candidates@.len(),
        install_ok@.len() == candidates@.len(),
    ensures
        r matches CascadeOutcome::Installed { via } ==> exists|i: int|
            0 <= i < candidates@.len() && #[trigger] succeeds_at(present@, install_ok@, i) && via@
                == candidates@[i].name@ && (forall|j: int|
                0 <= j < i ==> !succeeds_at(present@, install_ok@, j)),
        (r is Installed) == (exists|i: int|
            0 <= i < candidates@.len() && #[trigger] succeeds_at(present@, install_ok@, i)),
        r matches CascadeOutcome::AllCandidatesFailed { message } ==> forall|i: int|
            0 <= i < candidates@.len() ==> #[trigger] is_substr(candidates@[i].name@, message@),
        r matches CascadeOutcome::AllCandidatesFailed { message } ==> forall|i: int|
            0 <= i < candidates@.len() ==> #[trigger] is_substr(
                model_reason(present@, i),
                message@,
            ),
        r matches CascadeOutcome::AllCandidatesFailed { message } ==> is_substr(
            manual_remedy_spec(platform),
            message@,
        ),
{
    let mut run = CascadeRun::start();
    while !run.exhausted(candidates)
        invariant
            present@.len() == candidates@.len(),
            install_ok@.len() == candidates@.len(),
            run.next_index <= candidates@.len(),
            run.attempts@.len() == run.next_index,
            forall|j: int|
                0 <= j < run.next_index ==> !succeeds_at(present@, install_ok@, j),
            forall|j: int|
                0 <= j < run.next_index ==> #[trigger] run.attempts@[j].name@
                    == candidates@[j].name@,
            forall|j: int|
                0 <= j < run.next_index ==> #[trigger] run.attempts@[j].reason@ == model_reason(
                    present@,
                    j,
                ),
        decreases candidates@.len() - run.next_index,
    {
        let i: usize = run.next_index;
        if run.record_probe(candidates, present[i]) {
            if let Some(via) = run.record_install(candidates, install_ok[i], "exit status 1") {
                proof {
                    let ii: int = i as int;
                    assert(0 <= ii < candidates@.len() && succeeds_at(present@, install_ok@, ii)
                        && via@ == candidates@[ii].name@ && (forall|j: int|
                        0 <= j < ii ==> !succeeds_at(present@, install_ok@, j)));
                }
                return CascadeOutcome::Installed { via };
            }
        }
    }
    let message = render_failure(platform, &run.attempts);
    proof {
        assert forall|i: int| 0 <= i < candidates@.len() implies #[trigger] is_substr(
            candidates@[i].name@,
            message@,
        ) by {
            assert(run.attempts@[i].name@ == candidates@[i].name@);
            assert(is_substr(run.attempts@[i].name@, message@));
        }
        assert forall|i: int| 0 <= i < candidates@.len() implies #[trigger] is_substr(
            model_reason(present@, i),
            message@,
        ) by {
            assert(run.attempts@[i].reason@ == model_reason(present@, i));
            assert(is_substr(run.attempts@[i].reason@, message@));
        }
    }
    CascadeOutcome::AllCandidatesFailed { message }
}

/// The hint an exhausted cascade closes with: how to install the container
/// runtime by hand on this platform.
pub open spec fn manual_remedy_spec(platform: Platform) -> Seq<char> {
    match platform {
        Platform::MacOs => "Please install manually with: brew install podman"@,
        Platform::Windows =>
            "Please install manually from https://github.com/containers/podman/releases"@,
        Platform::Linux => "Please install manually using your distribution's package manager."@,
    }
}

/// The platform's manual-install hint for the container runtime.
pub fn manual_remedy(platform: Platform) -> (s: &'static str)
    ensures
        s@ == manual_remedy_spec(platform),
{
    match platform {
        Platform::MacOs => "Please install manually with: brew install podman",
        Platform::Windows => {
            "Please install manually from https://github.com/containers/podman/releases"
        },
        Platform::Linux => "Please install manually using your distribution's package manager.",
    }
}

/// The message of an exhausted cascade: it enumerates every attempted
/// candidate by name, with the reason each was given up on, and closes
/// with the platform's manual-install hint.
pub fn render_failure(platform: Platform, attempts: &Vec<Attempt>) -> (msg: String)
    ensures
        forall|i: int| 0 <= i < attempts@.len() ==> #[trigger] is_substr(attempts@[i].name@, msg@),
        forall|i: int|
            0 <= i < attempts@.len() ==> #[trigger] is_substr(attempts@[i].reason@, msg@),
        is_substr(manual_remedy_spec(platform), msg@),
{
    let mut msg: String = "no package manager could install the dependency; attempted: ".to_owned();
    let mut i: usize = 0;
    while i < attempts.len()
        invariant
            i <= attempts@.len(),
            forall|j: int| 0 <= j < i ==> #[trigger] is_substr(attempts@[j].name@, msg@),
            forall|j: int| 0 <= j < i ==> #[trigger] is_substr(attempts@[j].reason@, msg@),
        decreases attempts@.len() - i,
    {
        let a = &attempts[i];
        let mut chunk = concat3(a.name.as_str(), " (", a.reason.as_str());
        chunk.append("); ");
        proof {
            lemma_substr_self(a.name@);
            lemma_substr_append_right(a.name@, a.name@, " ("@);
            lemma_substr_append_right(a.name@, a.name@ + " ("@, a.reason@);
            lemma_substr_append_right(a.name@, a.name@ + " ("@ + a.reason@, "); "@);
            crate::strutil::lemma_substr_of_concat3(a.name@ + " ("@, a.reason@, "); "@);
            assert(is_substr(a.name@, chunk@));
            assert(is_substr(a.reason@, chunk@));
        }
        let ghost before = msg@;
        msg.append(chunk.as_str());
        proof {
            assert forall|j: int| 0 <= j <= i implies #[trigger] is_substr(
                attempts@[j].name@,
                msg@,
            ) by {
                if j < i {
                    lemma_substr_append_right(attempts@[j].name@, before, chunk@);
                } else {
                    lemma_substr_append_left(a.name@, before, chunk@);
                }
            }
            assert forall|j: int| 0 <= j <= i implies #[trigger] is_substr(
                attempts@[j].reason@,
                msg@,
            ) by {
                if j < i {
                    lemma_substr_append_right(attempts@[j].reason@, before, chunk@);
                } else {
                    lemma_substr_append_left(a.reason@, before, chunk@);
                }
            }
        }
        i = i + 1;
    }
    let remedy = manual_remedy(platform);
    proof {
        lemma_substr_self(remedy@);
        lemma_substr_append_left(remedy@, msg@, remedy@);
    }
    let ghost whole = msg@;
    msg.append(remedy);
    proof {
        assert forall|j: int| 0 <= j < attempts@.len() implies #[trigger] is_substr(
            attempts@[j].name@,
            msg@,
        ) by {
            lemma_substr_append_right(attempts@[j].name@, whole, remedy@);
        }
        assert forall|j: int| 0 <= j < attempts@.len() implies #[trigger] is_substr(
            attempts@[j].reason@,
            msg@,
        ) by {
            lemma_substr_append_right(attempts@[j].reason@, whole, remedy@);
        }
    }
    msg
}

} // verus!
