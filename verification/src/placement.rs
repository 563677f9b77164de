//! Filesystem placement policy: the primary (system-wide) and fallback
//! (user-scope) destination directories of each platform, and the immutable
//! description of one installation.

use vstd::prelude::*;

use crate::Platform;
use crate::strutil::concat2;

verus! {

/// An absolute directory path on the given platform: rooted at `/` on the
/// Unix platforms, at a drive such as `C:\` on Windows.
pub open spec fn is_absolute_dir(platform: Platform, s: Seq<char>) -> bool {
    match platform {
        Platform::Windows => s.len() >= 3 && s[1] == ':' && s[2] == '\\',
        _ => s.len() >= 1 && s[0] == '/',
    }
}

/// Whether `s` is an absolute directory path on `platform`.
pub fn check_absolute(platform: Platform, s: &str) -> (b: bool)
    ensures
        b == is_absolute_dir(platform, s@),
{
    match platform {
        Platform::Windows => {
            if s.unicode_len() >= 3 {
                s.get_char(1) == ':' && s.get_char(2) == '\\'
            } else {
                false
            }
        },
        _ => {
            if s.unicode_len() >= 1 {
                s.get_char(0) == '/'
            } else {
                false
            }
        },
    }
}

/// The system-wide destination directory of a platform.
pub open spec fn primary_dir_spec(platform: Platform, program_files: Seq<char>) -> Seq<char> {
    match platform {
        Platform::Windows => program_files + "\\Smithery\\bin"@,
        _ => "/usr/local/bin"@,
    }
}

/// The user-scope destination directory of a platform.
pub open spec fn fallback_dir_spec(platform: Platform, home: Seq<char>) -> Seq<char> {
    match platform {
        Platform::MacOs => home + "/bin"@,
        Platform::Windows => home + "\\AppData\\Local\\smithery\\bin"@,
        Platform::Linux => home + "/.local/bin"@,
    }
}

/// Resolves the two destination directories of a platform: the system-wide
/// primary and the user-scope fallback.  They are always distinct and both
/// absolute.  On macOS a home directory of `/usr/local` itself would make
/// the user-scope `bin` coincide with the system-wide one, so it is ruled
/// out.
pub fn resolve_targets(platform: Platform, home: &str, program_files: &str) -> (r: (String, String))
    requires
        is_absolute_dir(platform, home@),
        platform is Windows ==> is_absolute_dir(platform, program_files@),
        platform is MacOs ==> home@ != "/usr/local"@,
    ensures
        r.0@ == primary_dir_spec(platform, program_files@),
        r.1@ == fallback_dir_spec(platform, home@),
        is_absolute_dir(platform, r.0@),
        is_absolute_dir(platform, r.1@),
        r.0@ != r.1@,
{
    match platform {
        Platform::MacOs => {
            let primary = "/usr/local/bin".to_owned();
            let fallback = concat2(home, "/bin");
            proof {
                reveal_strlit("/usr/local/bin");
                reveal_strlit("/usr/local");
                reveal_strlit("/bin");
                if primary@ == fallback@ {
                    assert(primary@.len() == 14);
                    assert(fallback@.len() == home@.len() + 4);
                    assert(home@.len() + 4 == 14);
                    assert((home@ + "/bin"@).subrange(0, 10) =~= home@);
                    assert("/usr/local/bin"@.subrange(0, 10) =~= "/usr/local"@);
                    assert(false);
                }
            }
            (primary, fallback)
        },
        Platform::Linux => {
            let primary = "/usr/local/bin".to_owned();
            let fallback = concat2(home, "/.local/bin");
            proof {
                reveal_strlit("/usr/local/bin");
                reveal_strlit("/.local/bin");
                if primary@ == fallback@ {
                    assert(primary@.len() == 14);
                    assert(fallback@.len() == home@.len() + 11);
                    assert(home@.len() + 11 == 14);
                    assert(fallback@[3] == "/.local/bin"@[0]);
                    assert(primary@[3] == 'r');
                    assert(false);
                }
            }
            (primary, fallback)
        },
        Platform::Windows => {
            let primary = concat2(program_files, "\\Smithery\\bin");
            let fallback = concat2(home, "\\AppData\\Local\\smithery\\bin");
            proof {
                reveal_strlit("\\Smithery\\bin");
                reveal_strlit("\\AppData\\Local\\smithery\\bin");
                if primary@ == fallback@ {
                    let n = primary@.len() as int;
                    assert(primary@[n - 12] == "\\Smithery\\bin"@[1]);
                    assert(fallback@[n - 12] == "\\AppData\\Local\\smithery\\bin"@[15]);
                    assert(false);
                }
            }
            (primary, fallback)
        },
    }
}

/// The immutable description of one installation: what is installed, from
/// which staged artifact, and into which pair of destination directories.
pub struct InstallTarget {
    pub platform: Platform,
    pub home: String,
    pub binary_name: String,
    pub source: String,
    pub primary_dir: String,
    pub fallback_dir: String,
}

impl InstallTarget {
    /// Well-formedness: the two destinations are distinct, both absolute,
    /// and the binary has a name.
    pub open spec fn wf(self) -> bool {
        &&& self.primary_dir@ != self.fallback_dir@
        &&& is_absolute_dir(self.platform, self.primary_dir@)
        &&& is_absolute_dir(self.platform, self.fallback_dir@)
        &&& self.binary_name@.len() > 0
    }

    /// Builds the description of an installation from the placement policy.
    pub fn new(
        platform: Platform,
        home: &str,
        program_files: &str,
        binary_name: &str,
        source: &str,
    ) -> (t: InstallTarget)
        requires
            is_absolute_dir(platform, home@),
            platform is Windows ==> is_absolute_dir(platform, program_files@),
            platform is MacOs ==> home@ != "/usr/local"@,
            binary_name@.len() > 0,
        ensures
            t.wf(),
            t.platform == platform,
            t.home@ == home@,
            t.binary_name@ == binary_name@,
            t.source@ == source@,
            t.primary_dir@ == primary_dir_spec(platform, program_files@),
            t.fallback_dir@ == fallback_dir_spec(platform, home@),
    {
        let (primary_dir, fallback_dir) = resolve_targets(platform, home, program_files);
        InstallTarget {
            platform,
            home: home.to_owned(),
            binary_name: binary_name.to_owned(),
            source: source.to_owned(),
            primary_dir,
            fallback_dir,
        }
    }
}

} // verus!
