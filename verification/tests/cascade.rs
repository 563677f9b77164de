use smithery_installer::cascade::{
    default_candidates, interpret_detection, render_failure, run_cascade, version_query,
    CascadeOutcome, CascadeRun, DependencyCheckResult,
};
use smithery_installer::Platform;

#[test]
fn candidate_lists_follow_platform_convention() {
    let mac = default_candidates(Platform::MacOs, "podman");
    assert_eq!(mac.len(), 1);
    assert_eq!(mac[0].name, "brew");
    assert_eq!(mac[0].install_args, vec!["install", "podman"]);

    let win = default_candidates(Platform::Windows, "podman");
    assert_eq!(win.len(), 2);
    assert_eq!(win[0].name, "winget");
    assert_eq!(win[0].install_args, vec!["install", "RedHat.Podman"]);
    assert_eq!(win[1].name, "choco");
    assert_eq!(win[1].install_args, vec!["install", "podman", "-y"]);

    let lin = default_candidates(Platform::Linux, "podman");
    let names: Vec<&str> = lin.iter().map(|c| c.name.as_str()).collect();
    assert_eq!(names, vec!["apt-get", "dnf", "yum", "pacman", "zypper"]);
    assert_eq!(lin[0].install_args, vec!["install", "-y", "podman"]);
    assert_eq!(lin[3].install_args, vec!["-S", "--noconfirm", "podman"]);
}

#[test]
fn version_query_asks_the_dependency_itself() {
    assert_eq!(version_query("podman"), vec!["podman", "--version"]);
}

#[test]
fn detection_reports_version_or_absence() {
    match interpret_detection("Podman", true, true, "podman version 4.9.3\n") {
        DependencyCheckResult::Present { version } => {
            assert_eq!(version, "podman version 4.9.3\n")
        },
        _ => panic!("a successful query means the dependency is present"),
    }
    match interpret_detection("Podman", true, false, "") {
        DependencyCheckResult::Absent { reason } => assert_eq!(reason, "Podman is not installed"),
        _ => panic!("a failed query means the dependency is absent"),
    }
    match interpret_detection("Podman", false, false, "") {
        DependencyCheckResult::Absent { reason } => assert_eq!(reason, "Podman is not installed"),
        _ => panic!("an unspawnable query means the dependency is absent"),
    }
}

#[test]
fn cascade_installs_through_the_first_present_candidate() {
    let candidates = default_candidates(Platform::Linux, "podman");
    let mut run = CascadeRun::start();

    // Only the third candidate's probe succeeds in this fake environment.
    let mut installs_invoked: Vec<String> = Vec::new();
    let mut via: Option<String> = None;
    while !run.exhausted(&candidates) {
        let present = run.current(&candidates).name == "yum";
        if run.record_probe(&candidates, present) {
            installs_invoked.push(run.current(&candidates).name.clone());
            via = run.record_install(&candidates, true, "");
            break;
        }
    }

    assert_eq!(installs_invoked, vec!["yum"]);
    assert_eq!(via.as_deref(), Some("yum"));
}

#[test]
fn exhausted_cascade_enumerates_every_candidate() {
    let candidates = default_candidates(Platform::Linux, "podman");
    let mut run = CascadeRun::start();

    // Every probe succeeds but every install command fails.
    while !run.exhausted(&candidates) {
        assert!(run.record_probe(&candidates, true));
        let via = run.record_install(&candidates, false, "exit status 1");
        assert!(via.is_none());
    }

    let msg = render_failure(Platform::Linux, &run.attempts);
    for name in ["apt-get", "dnf", "yum", "pacman", "zypper"] {
        assert!(msg.contains(name), "message must name {}", name);
    }
    assert!(msg.contains("install failed: exit status 1"));
    assert!(msg.contains("Please install manually using your distribution's package manager."));
}

#[test]
fn whole_cascade_picks_only_the_third_candidate() {
    let candidates = default_candidates(Platform::Linux, "podman");
    // Only the third candidate's probe succeeds in this fake environment.
    let present = vec![false, false, true, false, false];
    let install_ok = vec![true, true, true, true, true];
    match run_cascade(Platform::Linux, &candidates, &present, &install_ok) {
        CascadeOutcome::Installed { via } => assert_eq!(via, "yum"),
        _ => panic!("a present candidate with a working install must end the cascade"),
    }
}

#[test]
fn whole_cascade_prefers_the_earliest_success() {
    let candidates = default_candidates(Platform::Linux, "podman");
    let present = vec![false, true, true, true, true];
    let install_ok = vec![true, false, true, true, true];
    match run_cascade(Platform::Linux, &candidates, &present, &install_ok) {
        CascadeOutcome::Installed { via } => assert_eq!(via, "yum"),
        _ => panic!("the first present candidate with a working install must win"),
    }
}

#[test]
fn whole_cascade_exhaustion_names_every_candidate() {
    let candidates = default_candidates(Platform::Linux, "podman");
    let present = vec![true, true, true, true, true];
    let install_ok = vec![false, false, false, false, false];
    match run_cascade(Platform::Linux, &candidates, &present, &install_ok) {
        CascadeOutcome::AllCandidatesFailed { message } => {
            for name in ["apt-get", "dnf", "yum", "pacman", "zypper"] {
                assert!(message.contains(name), "message must name {}", name);
            }
            assert!(message.contains("install failed: exit status 1"));
            assert!(
                message.contains("Please install manually using your distribution's package manager.")
            );
        },
        _ => panic!("a cascade with no working candidate must fail"),
    }
}

#[test]
fn macos_exhaustion_names_the_manual_remedy() {
    let candidates = default_candidates(Platform::MacOs, "podman");
    let present = vec![true];
    let install_ok = vec![false];
    match run_cascade(Platform::MacOs, &candidates, &present, &install_ok) {
        CascadeOutcome::AllCandidatesFailed { message } => {
            assert!(message.contains("brew"));
            assert!(message.contains("Please install manually with: brew install podman"));
        },
        _ => panic!("a cascade with no working candidate must fail"),
    }
}

#[test]
fn absent_candidates_are_recorded_and_skipped() {
    let candidates = default_candidates(Platform::Linux, "podman");
    let mut run = CascadeRun::start();
    assert!(!run.record_probe(&candidates, false));
    assert_eq!(run.next_index, 1);
    assert_eq!(run.attempts.len(), 1);
    assert_eq!(run.attempts[0].name, "apt-get");
    assert_eq!(run.attempts[0].reason, "not found on this system");
}
