use velopack::{
    manifest_read_backoff, probe_install, read_manifest_from_string, InstallProbe, Manifest, Platform, RestartArgs,
    UpdateError, UpdateManager, VelopackApp, VelopackAsset, VelopackLocator,
};

#[test]
fn windows_install_is_two_levels_up() {
    let p = probe_install(Platform::Windows, "C:\\Users\\me\\App\\current\\App.exe").unwrap();
    assert_eq!(
        p,
        InstallProbe {
            root_app_dir: "C:\\Users\\me\\App".to_string(),
            update_exe_path: "C:\\Users\\me\\App\\Update.exe".to_string(),
            manifest_path: "C:\\Users\\me\\App\\current\\sq.version".to_string(),
        }
    );
    assert_eq!(probe_install(Platform::Windows, "App.exe"), Err(UpdateError::NotInstalled));
}

#[test]
fn linux_install_is_before_usr_bin() {
    let p = probe_install(Platform::Linux, "/tmp/.mount_App/usr/bin/App").unwrap();
    assert_eq!(p.root_app_dir, "/tmp/.mount_App");
    assert_eq!(p.update_exe_path, "/tmp/.mount_App/usr/bin/UpdateNix");
    assert_eq!(p.manifest_path, "/tmp/.mount_App/usr/bin/sq.version");
    assert_eq!(probe_install(Platform::Linux, "/home/me/dev/target/app"), Err(UpdateError::NotInstalled));
}

#[test]
fn macos_install_is_the_app_bundle() {
    let p = probe_install(Platform::MacOs, "/Applications/My.app/Contents/MacOS/My").unwrap();
    assert_eq!(p.root_app_dir, "/Applications/My.app");
    assert_eq!(p.update_exe_path, "/Applications/My.app/Contents/MacOS/UpdateMac");
    assert_eq!(p.manifest_path, "/Applications/My.app/Contents/MacOS/sq.version");
    assert_eq!(probe_install(Platform::MacOs, "/usr/local/bin/my"), Err(UpdateError::NotInstalled));
}

#[test]
fn staging_dirs_per_platform() {
    let m = Manifest { id: "App".to_string(), version: "1.0.0".to_string(), channel: String::new() };
    let p = probe_install(Platform::Linux, "/tmp/.mount_App/usr/bin/App").unwrap();
    let l = VelopackLocator::from_probe(Platform::Linux, p, m.clone());
    assert_eq!(l.packages_dir, "/var/tmp/velopack/App/packages");
    let p = probe_install(Platform::MacOs, "/Applications/My.app/Contents/MacOS/My").unwrap();
    let l = VelopackLocator::from_probe(Platform::MacOs, p, m.clone());
    assert_eq!(l.packages_dir, "/tmp/velopack/App/packages");
    let p = probe_install(Platform::Windows, "C:\\App\\current\\App.exe").unwrap();
    let l = VelopackLocator::from_probe(Platform::Windows, p, m);
    assert_eq!(l.packages_dir, "C:\\App\\packages");
    assert_eq!(l.root_app_dir, "C:\\App");
}

#[test]
fn manifest_is_read_from_nuspec() {
    let text = "<?xml version=\"1.0\"?>\n<package><metadata><id>MyApp</id><version>1.2.3</version><channel>beta</channel></metadata></package>";
    let m = read_manifest_from_string(text).unwrap();
    assert_eq!(m, Manifest { id: "MyApp".to_string(), version: "1.2.3".to_string(), channel: "beta".to_string() });
    let m = read_manifest_from_string("<package><id>A</id><version>2.0.0</version></package>").unwrap();
    assert_eq!(m.channel, "");
}

#[test]
fn invalid_manifests_are_refused() {
    assert_eq!(read_manifest_from_string("<id>A</id>"), Err(UpdateError::ManifestInvalid));
    assert_eq!(read_manifest_from_string("<id>A</id><version>v1</version>"), Err(UpdateError::ManifestInvalid));
    assert_eq!(read_manifest_from_string("<version>1.0.0</version>"), Err(UpdateError::ManifestInvalid));
}

#[test]
fn lifecycle_hooks_are_recognised() {
    let app = VelopackApp::build();
    assert!(app.is_lifecycle_hook("--veloapp-install"));
    assert!(app.is_lifecycle_hook("--VeloApp-Updated"));
    assert!(app.is_lifecycle_hook("--veloapp-obsolete"));
    assert!(app.is_lifecycle_hook("--veloapp-uninstall"));
    assert!(!app.is_lifecycle_hook("--veloapp"));
    assert!(!app.is_lifecycle_hook("install"));
}

fn manager() -> UpdateManager {
    let p = probe_install(Platform::Linux, "/opt/App/usr/bin/App").unwrap();
    let m = Manifest { id: "App".to_string(), version: "1.0.0".to_string(), channel: String::new() };
    UpdateManager::new("/srv/feed", None, VelopackLocator::from_probe(Platform::Linux, p, m), Platform::Linux).unwrap()
}

fn target() -> VelopackAsset {
    VelopackAsset { Version: "2.0.0".to_string(), Type: "Full".to_string(), FileName: "App-2.0.0-full.nupkg".to_string(), ..Default::default() }
}

#[test]
fn updater_invocation_for_exit() {
    let c = manager().updater_command(&target(), false, false, RestartArgs::NoArgs);
    assert_eq!(c.program, "/opt/App/usr/bin/UpdateNix");
    assert_eq!(c.working_dir, "/opt/App");
    assert_eq!(c.args, vec!["apply", "--wait", "--package", "/var/tmp/velopack/App/packages/App-2.0.0-full.nupkg"]);
}

#[test]
fn updater_invocation_for_restart_with_args() {
    let args = RestartArgs::Args(vec!["--open".to_string(), "file name.txt".to_string()]);
    let c = manager().updater_command(&target(), true, true, args);
    assert_eq!(
        c.args,
        vec![
            "apply",
            "--wait",
            "--package",
            "/var/tmp/velopack/App/packages/App-2.0.0-full.nupkg",
            "--silent",
            "--restart",
            "--",
            "--open",
            "file name.txt"
        ]
    );
    let c = manager().updater_command(&target(), false, true, RestartArgs::Args(vec![]));
    assert_eq!(c.args.len(), 5);
    assert_eq!(c.args[4], "--restart");
}

#[test]
fn manifest_read_backs_off_then_gives_up() {
    assert_eq!(manifest_read_backoff(1), Some(333));
    assert_eq!(manifest_read_backoff(3), Some(999));
    assert_eq!(manifest_read_backoff(4), None);
}
