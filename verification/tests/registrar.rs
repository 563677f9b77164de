use smithery_installer::fsmodel::{FsAction, FsModel};
use smithery_installer::registrar::registration_plan;
use smithery_installer::Platform;

#[test]
fn registration_is_noop_when_dir_in_path_env() {
    let plan = registration_plan(
        Platform::Linux,
        "/home/u/.local/bin",
        "/home/u/.profile",
        "/usr/bin:/home/u/.local/bin:/bin",
        "",
    );
    assert_eq!(plan.len(), 0);

    let mut m = FsModel::new();
    m.apply_plan(&plan);
    assert!(!m.has_entry("/home/u/.profile"));
}

#[test]
fn registration_is_noop_when_dir_in_profile() {
    let plan = registration_plan(
        Platform::Linux,
        "/home/u/.local/bin",
        "/home/u/.profile",
        "/usr/bin:/bin",
        "export PATH=\"/home/u/.local/bin:$PATH\"\n",
    );
    assert_eq!(plan.len(), 0);
}

#[test]
fn registration_appends_tagged_line_once() {
    let plan = registration_plan(
        Platform::Linux,
        "/home/u/.local/bin",
        "/home/u/.profile",
        "/usr/bin:/bin",
        "",
    );
    assert_eq!(plan.len(), 1);
    match &plan[0] {
        FsAction::AppendProfile { store, line } => {
            assert_eq!(store, "/home/u/.profile");
            assert_eq!(
                line,
                "\n# Added by Smithery installer\nexport PATH=\"/home/u/.local/bin:$PATH\"\n"
            );
        },
        _ => panic!("registration must append to the profile"),
    }
}

#[test]
fn registration_keeps_existing_profile_text() {
    let plan = registration_plan(
        Platform::Linux,
        "/home/u/.local/bin",
        "/home/u/.profile",
        "/usr/bin:/bin",
        "",
    );
    let mut m = FsModel::new();
    m.apply_plan(&plan);
    let content = m.profile_content("/home/u/.profile").unwrap();
    assert!(content.contains("/home/u/.local/bin"));
    assert!(content.contains("# Added by Smithery installer"));
}

#[test]
fn windows_registration_appends_path_entry() {
    let plan = registration_plan(
        Platform::Windows,
        "C:\\Users\\u\\AppData\\Local\\smithery\\bin",
        "user-path-environment",
        "C:\\Windows\\System32;",
        "",
    );
    assert_eq!(plan.len(), 1);
    match &plan[0] {
        FsAction::AppendProfile { store, line } => {
            assert_eq!(store, "user-path-environment");
            assert_eq!(line, "C:\\Users\\u\\AppData\\Local\\smithery\\bin;");
        },
        _ => panic!("registration must append the PATH entry"),
    }
}
