use smithery_installer::fsmodel::{FsAction, FsModel};
use smithery_installer::installer::{install_plan, installed_path, LinkMode};

#[test]
fn symlink_plan_actions() {
    let plan = install_plan("/home/u/.local/bin", "tool", "/tmp/stage/tool", "/", LinkMode::Symlink);
    assert_eq!(plan.len(), 3);
    match &plan[0] {
        FsAction::CreateDirAll { path } => assert_eq!(path, "/home/u/.local/bin"),
        _ => panic!("first action must create the directory"),
    }
    match &plan[1] {
        FsAction::RemoveIfExists { path } => assert_eq!(path, "/home/u/.local/bin/tool"),
        _ => panic!("second action must clear the destination"),
    }
    match &plan[2] {
        FsAction::CreateSymlink { link, target } => {
            assert_eq!(link, "/home/u/.local/bin/tool");
            assert_eq!(target, "/tmp/stage/tool");
        },
        _ => panic!("third action must create the symlink"),
    }
}

#[test]
fn copy_plan_actions() {
    let plan = install_plan("/home/u/.local/bin", "tool", "/tmp/stage/tool", "/", LinkMode::Copy);
    assert_eq!(plan.len(), 4);
    match &plan[2] {
        FsAction::CopyFile { from, to } => {
            assert_eq!(from, "/tmp/stage/tool");
            assert_eq!(to, "/home/u/.local/bin/tool");
        },
        _ => panic!("third action must copy the artifact"),
    }
    match &plan[3] {
        FsAction::SetExecutable { path } => assert_eq!(path, "/home/u/.local/bin/tool"),
        _ => panic!("fourth action must set execute bits"),
    }
}

#[test]
fn install_twice_leaves_same_state_as_once() {
    let dir = "/home/u/.local/bin";
    let dest = installed_path(dir, "/", "tool");
    let plan = install_plan(dir, "tool", "/tmp/stage/tool", "/", LinkMode::Symlink);

    let mut once = FsModel::new();
    once.apply_plan(&plan);

    let mut twice = FsModel::new();
    twice.apply_plan(&plan);
    let plan_again = install_plan(dir, "tool", "/tmp/stage/tool", "/", LinkMode::Symlink);
    twice.apply_plan(&plan_again);

    for m in [&once, &twice] {
        assert!(m.is_dir(dir));
        assert_eq!(m.symlink_target(&dest).as_deref(), Some("/tmp/stage/tool"));
        assert!(m.has_entry(&dest));
    }
}

#[test]
fn copy_install_twice_leaves_one_executable_entry() {
    let dir = "/opt/bin";
    let dest = installed_path(dir, "/", "tool");
    let plan = install_plan(dir, "tool", "/tmp/stage/tool", "/", LinkMode::Copy);

    let mut m = FsModel::new();
    m.apply_plan(&plan);
    assert!(m.is_executable_at(&dest));
    m.apply_plan(&plan);
    assert!(m.is_dir(dir));
    assert!(m.is_executable_at(&dest));
    assert!(m.symlink_target(&dest).is_none());
}

#[test]
fn install_replaces_preexisting_entry() {
    let dir = "/home/u/.local/bin";
    let dest = installed_path(dir, "/", "tool");
    let plan_old = install_plan(dir, "tool", "/old/stage/tool", "/", LinkMode::Symlink);
    let plan_new = install_plan(dir, "tool", "/tmp/stage/tool", "/", LinkMode::Symlink);

    let mut m = FsModel::new();
    m.apply_plan(&plan_old);
    assert_eq!(m.symlink_target(&dest).as_deref(), Some("/old/stage/tool"));
    m.apply_plan(&plan_new);
    assert_eq!(m.symlink_target(&dest).as_deref(), Some("/tmp/stage/tool"));
}
