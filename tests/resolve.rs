use velopack::{
    process_feed, select_latest_full, Manifest, UpdateError, UpdateManager, UpdateOptions,
    VelopackAsset, VelopackAssetFeed, VelopackLocator, Platform,
};

fn asset(version: &str, kind: &str, file: &str) -> VelopackAsset {
    VelopackAsset {
        PackageId: "App".to_string(),
        Version: version.to_string(),
        Type: kind.to_string(),
        FileName: file.to_string(),
        ..Default::default()
    }
}

fn feed(assets: Vec<VelopackAsset>) -> VelopackAssetFeed {
    VelopackAssetFeed { Assets: assets }
}

fn locator(version: &str, channel: &str) -> VelopackLocator {
    VelopackLocator {
        root_app_dir: "/opt/App".to_string(),
        update_exe_path: "/opt/App/usr/bin/UpdateNix".to_string(),
        packages_dir: "/var/tmp/velopack/App/packages".to_string(),
        manifest: Manifest {
            id: "App".to_string(),
            version: version.to_string(),
            channel: channel.to_string(),
        },
    }
}

fn manager(version: &str, channel: &str, downgrade: bool, explicit: Option<&str>) -> UpdateManager {
    let options = UpdateOptions {
        AllowVersionDowngrade: downgrade,
        ExplicitChannel: explicit.map(|c| c.to_string()),
    };
    UpdateManager::new("/feeds/app", Some(options), locator(version, channel), Platform::Linux).unwrap()
}

#[test]
fn newer_release_is_offered() {
    let um = manager("1.0.0", "stable", false, None);
    let r = um
        .check_for_updates(feed(vec![asset("1.0.0", "Full", "a-1.nupkg"), asset("2.0.0", "Full", "a-2.nupkg")]))
        .unwrap()
        .unwrap();
    assert_eq!(r.TargetFullRelease.Version, "2.0.0");
    assert_eq!(r.TargetFullRelease.FileName, "a-2.nupkg");
    assert!(!r.IsDowngrade);
}

#[test]
fn older_release_without_downgrade_is_no_update() {
    let um = manager("2.0.0", "stable", false, None);
    let r = um.check_for_updates(feed(vec![asset("1.0.0", "Full", "a-1.nupkg")])).unwrap();
    assert!(r.is_none());
}

#[test]
fn older_release_with_downgrade_is_offered() {
    let um = manager("2.0.0", "stable", true, None);
    let r = um.check_for_updates(feed(vec![asset("1.0.0", "Full", "a-1.nupkg")])).unwrap().unwrap();
    assert_eq!(r.TargetFullRelease.Version, "1.0.0");
    assert!(r.IsDowngrade);
}

#[test]
fn same_version_on_other_channel_is_lateral_move() {
    let um = manager("1.0.0", "stable", true, Some("beta"));
    let r = um.check_for_updates(feed(vec![asset("1.0.0", "Full", "a-1-beta.nupkg")])).unwrap().unwrap();
    assert_eq!(r.TargetFullRelease.FileName, "a-1-beta.nupkg");
    assert!(r.IsDowngrade);
}

#[test]
fn same_version_on_same_channel_is_no_update() {
    let um = manager("1.0.0", "stable", true, None);
    let r = um.check_for_updates(feed(vec![asset("1.0.0", "Full", "a-1.nupkg")])).unwrap();
    assert!(r.is_none());
}

#[test]
fn empty_feed_fails() {
    let um = manager("1.0.0", "stable", true, None);
    assert_eq!(um.check_for_updates(feed(vec![])), Err(UpdateError::EmptyFeed));
    assert_eq!(process_feed("1.0.0", feed(vec![]), false, false), Err(UpdateError::EmptyFeed));
}

#[test]
fn feed_without_valid_full_release_fails() {
    let r = process_feed(
        "1.0.0",
        feed(vec![asset("not-a-version", "Full", "x.nupkg"), asset("3.0.0", "Delta", "d.nupkg")]),
        true,
        false,
    );
    assert_eq!(r, Err(UpdateError::NoValidRelease));
}

#[test]
fn all_releases_not_newer_give_no_update() {
    let r = process_feed(
        "3.0.0",
        feed(vec![asset("1.0.0", "Full", "a.nupkg"), asset("3.0.0", "Full", "b.nupkg"), asset("2.5.0", "full", "c.nupkg")]),
        false,
        true,
    );
    assert_eq!(r, Ok(None));
}

#[test]
fn selection_takes_maximum_full_and_skips_invalid() {
    let assets = vec![
        asset("1.2.0", "Full", "a.nupkg"),
        asset("9.0.0", "Delta", "delta.nupkg"),
        asset("garbage", "Full", "bad.nupkg"),
        asset("1.10.0", "FULL", "b.nupkg"),
        asset("1.10.0-beta", "Full", "c.nupkg"),
        asset("1.9.9", "full", "d.nupkg"),
    ];
    assert_eq!(select_latest_full(&assets), Some(3));
}

#[test]
fn selection_tie_goes_to_later_asset() {
    let assets = vec![asset("2.0.0", "Full", "first.nupkg"), asset("2.0.0", "Full", "second.nupkg"), asset("1.0.0", "Full", "old.nupkg")];
    assert_eq!(select_latest_full(&assets), Some(1));
}

#[test]
fn selection_of_feed_without_candidates_is_none() {
    let assets = vec![asset("x", "Full", "a.nupkg"), asset("2.0.0", "Delta", "b.nupkg")];
    assert_eq!(select_latest_full(&assets), None);
    assert_eq!(select_latest_full(&vec![]), None);
}

#[test]
fn resolving_twice_gives_same_result() {
    let um = manager("1.0.0", "stable", false, None);
    let f = feed(vec![asset("1.5.0", "Full", "a.nupkg"), asset("1.4.0", "Full", "b.nupkg")]);
    let r1 = um.check_for_updates(f.clone());
    let r2 = um.check_for_updates(f);
    assert_eq!(r1, r2);
    assert_eq!(r1.unwrap().unwrap().TargetFullRelease.Version, "1.5.0");
}

#[test]
fn prerelease_is_older_than_release() {
    let r = process_feed("2.0.0-beta.2", feed(vec![asset("2.0.0-beta.10", "Full", "b10.nupkg")]), false, false)
        .unwrap()
        .unwrap();
    assert_eq!(r.TargetFullRelease.FileName, "b10.nupkg");
    assert!(!r.IsDowngrade);
    let r = process_feed("2.0.0", feed(vec![asset("2.0.0-rc.1", "Full", "rc.nupkg")]), false, false).unwrap();
    assert!(r.is_none());
}

#[test]
fn invalid_manifest_version_is_refused() {
    let r = UpdateManager::new("/feeds/app", None, locator("one", "stable"), Platform::Linux);
    assert_eq!(r.err(), Some(UpdateError::ManifestInvalid));
}

#[test]
fn current_version_reads_manifest() {
    let um = manager("1.2.3-rc.1", "stable", false, None);
    assert_eq!(um.current_version(), Ok("1.2.3-rc.1".to_string()));
}

#[test]
fn update_info_as_ref_gives_target() {
    let um = manager("1.0.0", "stable", false, None);
    let r = um.check_for_updates(feed(vec![asset("1.1.0", "Full", "n.nupkg")])).unwrap().unwrap();
    assert_eq!(r.as_ref().FileName, "n.nupkg");
}
