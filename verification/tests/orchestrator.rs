use smithery_installer::elevation::{
    describe_elevation_error, elevation_invocation, interpret_elevation, ElevationError,
};
use smithery_installer::fsmodel::FsModel;
use smithery_installer::installer::LinkMode;
use smithery_installer::orchestrator::{
    decide_after_primary, fallback_tier_plan, finish_fallback, primary_command, InstallOutcome,
    Tier, TierDecision,
};
use smithery_installer::placement::InstallTarget;
use smithery_installer::Platform;

fn linux_target() -> InstallTarget {
    InstallTarget::new(Platform::Linux, "/home/u", "", "tool", "/tmp/stage/tool")
}

#[test]
fn interpret_elevation_outcomes() {
    assert!(matches!(
        interpret_elevation(Platform::Linux, None, ""),
        Err(ElevationError::NoElevationMechanism)
    ));
    assert!(matches!(interpret_elevation(Platform::Linux, Some(0), ""), Ok(())));
    assert!(matches!(
        interpret_elevation(Platform::Linux, Some(126), ""),
        Err(ElevationError::ElevationDenied)
    ));
    assert!(matches!(
        interpret_elevation(Platform::Linux, Some(127), ""),
        Err(ElevationError::NoElevationMechanism)
    ));
    match interpret_elevation(Platform::Linux, Some(1), "boom") {
        Err(ElevationError::CommandFailed { stderr }) => assert_eq!(stderr, "boom"),
        _ => panic!("a non-zero exit without a denial marker is a command failure"),
    }
    assert!(matches!(
        interpret_elevation(Platform::MacOs, Some(1), "execution error: User canceled. (-128)"),
        Err(ElevationError::ElevationDenied)
    ));
    assert!(matches!(
        interpret_elevation(Platform::Windows, Some(1), "The operation was canceled by the user."),
        Err(ElevationError::ElevationDenied)
    ));
}

#[test]
fn elevation_invocations_per_platform() {
    let mac = elevation_invocation(Platform::MacOs, "ln -sf a b");
    assert_eq!(mac.len(), 3);
    assert_eq!(mac[0], "osascript");
    assert_eq!(mac[1], "-e");
    assert_eq!(mac[2], "do shell script \"ln -sf a b\" with administrator privileges");

    let win = elevation_invocation(Platform::Windows, "mklink a b");
    assert_eq!(win.len(), 3);
    assert_eq!(win[0], "powershell");
    assert_eq!(win[1], "-Command");
    assert_eq!(win[2], "Start-Process cmd.exe -ArgumentList '/c mklink a b' -Verb RunAs -Wait");

    let lin = elevation_invocation(Platform::Linux, "ln -sf a b");
    assert_eq!(lin, vec!["pkexec", "sh", "-c", "ln -sf a b"]);
}

#[test]
fn primary_command_links_into_system_dir() {
    let cmd = primary_command(&linux_target());
    assert_eq!(
        cmd,
        "mkdir -p '/usr/local/bin' && ln -sf '/tmp/stage/tool' '/usr/local/bin/tool' && chmod 755 '/tmp/stage/tool'"
    );
}

#[test]
fn primary_success_finishes_at_primary_tier() {
    let d = decide_after_primary(&linux_target(), &Ok(()));
    match d {
        TierDecision::Finished { outcome } => match outcome {
            InstallOutcome::Installed { tier, path, trail } => {
                assert!(matches!(tier, Tier::Primary));
                assert_eq!(path, "/usr/local/bin/tool");
                assert_eq!(trail, "installed at the primary tier");
            },
            _ => panic!("a successful primary tier must install"),
        },
        _ => panic!("a successful primary tier must finish"),
    }
}

#[test]
fn denial_advances_to_fallback() {
    for e in [ElevationError::ElevationDenied, ElevationError::NoElevationMechanism] {
        let d = decide_after_primary(&linux_target(), &Err(e));
        assert!(matches!(d, TierDecision::TryFallback { .. }));
    }
    match decide_after_primary(&linux_target(), &Err(ElevationError::ElevationDenied)) {
        TierDecision::TryFallback { primary_reason } => {
            assert_eq!(primary_reason, "elevation was denied by the user");
        },
        _ => unreachable!(),
    }
}

#[test]
fn command_failure_advances_to_fallback_with_stderr() {
    let e = ElevationError::CommandFailed { stderr: "ln: permission denied".to_owned() };
    assert_eq!(describe_elevation_error(&e), "the elevated command failed: ln: permission denied");
    let d = decide_after_primary(&linux_target(), &Err(e));
    match d {
        TierDecision::TryFallback { primary_reason } => {
            assert!(primary_reason.contains("ln: permission denied"));
        },
        _ => panic!("a failed elevated command must advance to the fallback tier"),
    }
}

#[test]
fn failed_trail_names_both_tiers() {
    let o = finish_fallback(
        "elevation was denied by the user",
        &Err("could not create /home/u/.local/bin".to_owned()),
    );
    match o {
        InstallOutcome::Failed { trail } => {
            assert!(trail.contains("elevation was denied by the user"));
            assert!(trail.contains("could not create /home/u/.local/bin"));
        },
        _ => panic!("two failed tiers must fail"),
    }
}

#[test]
fn end_to_end_denied_primary_installs_at_fallback() {
    let target = linux_target();

    // The elevated attempt comes back as a dismissed polkit prompt.
    let primary = interpret_elevation(Platform::Linux, Some(126), "");
    let d = decide_after_primary(&target, &primary);
    let primary_reason = match d {
        TierDecision::TryFallback { primary_reason } => primary_reason,
        _ => panic!("a denied primary tier must advance to the fallback tier"),
    };

    // The fallback directory does not exist yet in the fake environment.
    let mut fs = FsModel::new();
    assert!(!fs.has_entry("/home/u/.local/bin"));

    let (plan, dest) = fallback_tier_plan(
        &target,
        LinkMode::Symlink,
        "/home/u/.profile",
        "/usr/bin:/bin",
        "",
    );
    fs.apply_plan(&plan);

    assert!(fs.is_dir("/home/u/.local/bin"));
    assert_eq!(dest, "/home/u/.local/bin/tool");
    assert_eq!(fs.symlink_target(&dest).as_deref(), Some("/tmp/stage/tool"));
    let profile = fs.profile_content("/home/u/.profile").unwrap();
    assert!(profile.contains("export PATH=\"/home/u/.local/bin:$PATH\""));

    let o = finish_fallback(&primary_reason, &Ok(dest.clone()));
    match o {
        InstallOutcome::Installed { tier, path, trail } => {
            assert!(matches!(tier, Tier::Fallback));
            assert_eq!(path, "/home/u/.local/bin/tool");
            assert!(trail.contains("elevation was denied by the user"));
        },
        _ => panic!("a successful fallback tier must install"),
    }
}
