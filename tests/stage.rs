use velopack::{
    Manifest, PackageStager, Platform, StageAction, StageEvent, StagePhase, UpdateError,
    UpdateManager, VelopackAsset, VelopackLocator,
};

fn manager(source: &str) -> UpdateManager {
    let locator = VelopackLocator {
        root_app_dir: "/opt/App".to_string(),
        update_exe_path: "/opt/App/usr/bin/UpdateNix".to_string(),
        packages_dir: "/var/tmp/velopack/App/packages".to_string(),
        manifest: Manifest { id: "App".to_string(), version: "1.0.0".to_string(), channel: "stable".to_string() },
    };
    UpdateManager::new(source, None, locator, Platform::Linux).unwrap()
}

fn asset(file: &str) -> VelopackAsset {
    VelopackAsset { Version: "2.0.0".to_string(), Type: "Full".to_string(), FileName: file.to_string(), ..Default::default() }
}

fn stale() -> Vec<String> {
    vec![
        "/var/tmp/velopack/App/packages/App-0.7.0-full.nupkg".to_string(),
        "/var/tmp/velopack/App/packages/App-0.8.0-full.nupkg".to_string(),
        "/var/tmp/velopack/App/packages/App-0.9.0-full.nupkg".to_string(),
    ]
}

#[test]
fn staging_replaces_all_stale_packages() {
    let um = manager("/srv/feed");
    let (mut st, a) = PackageStager::start(&um, &asset("App-2.0.0-full.nupkg"));
    assert_eq!(a, StageAction::ListPackages("/var/tmp/velopack/App/packages/*.nupkg".to_string()));
    let a = st.step(StageEvent::Listed(stale()));
    assert_eq!(a, StageAction::CheckSource("/srv/feed/App-2.0.0-full.nupkg".to_string()));
    assert_eq!(st.step(StageEvent::Found), StageAction::Progress(50));
    let a = st.step(StageEvent::Reported);
    assert_eq!(
        a,
        StageAction::Copy {
            source: "/srv/feed/App-2.0.0-full.nupkg".to_string(),
            target: "/var/tmp/velopack/App/packages/App-2.0.0-full.nupkg".to_string()
        }
    );
    let mut deleted = Vec::new();
    let mut a = st.step(StageEvent::Completed);
    while let StageAction::Delete(p) = a {
        deleted.push(p);
        a = st.step(StageEvent::Completed);
    }
    assert_eq!(deleted, stale());
    assert_eq!(a, StageAction::Progress(100));
    assert_eq!(st.step(StageEvent::Reported), StageAction::Finished(Ok(())));
    assert_eq!(st.phase, StagePhase::Done);
}

#[test]
fn staging_failure_mid_transfer_keeps_stale_packages() {
    let um = manager("https://example.com/feed/App-2.0.0-full.nupkg");
    let (mut st, _) = PackageStager::start(&um, &asset("App-2.0.0-full.nupkg"));
    let a = st.step(StageEvent::Listed(stale()));
    assert_eq!(
        a,
        StageAction::Download {
            url: "https://example.com/feed/App-2.0.0-full.nupkg".to_string(),
            target: "/var/tmp/velopack/App/packages/App-2.0.0-full.nupkg".to_string()
        }
    );
    assert_eq!(st.step(StageEvent::Failed), StageAction::Finished(Err(UpdateError::TransferFailed)));
    assert_eq!(st.deleted, 0);
    assert_eq!(st.stale, stale());
    // A retry starts afresh and stages the package again.
    let (mut again, _) = PackageStager::start(&um, &asset("App-2.0.0-full.nupkg"));
    let a = again.step(StageEvent::Listed(stale()));
    assert!(matches!(a, StageAction::Download { .. }));
}

#[test]
fn staged_file_itself_is_not_deleted() {
    let um = manager("/srv/feed");
    let (mut st, _) = PackageStager::start(&um, &asset("App-2.0.0-full.nupkg"));
    let mut listed = stale();
    listed.push("/var/tmp/velopack/App/packages/App-2.0.0-full.nupkg".to_string());
    st.step(StageEvent::Listed(listed));
    assert_eq!(st.stale, stale());
}

#[test]
fn missing_local_source_fails() {
    let um = manager("/srv/feed");
    let (mut st, _) = PackageStager::start(&um, &asset("App-2.0.0-full.nupkg"));
    st.step(StageEvent::Listed(stale()));
    assert_eq!(st.step(StageEvent::Missing), StageAction::Finished(Err(UpdateError::SourceNotFound)));
}

#[test]
fn failed_cleanup_is_reported() {
    let um = manager("/srv/feed");
    let (mut st, _) = PackageStager::start(&um, &asset("App-2.0.0-full.nupkg"));
    st.step(StageEvent::Listed(stale()));
    st.step(StageEvent::Found);
    st.step(StageEvent::Reported);
    let a = st.step(StageEvent::Completed);
    assert_eq!(a, StageAction::Delete(stale()[0].clone()));
    assert_eq!(st.step(StageEvent::Failed), StageAction::Finished(Err(UpdateError::CleanupFailed)));
}

#[test]
fn empty_staging_dir_goes_straight_to_final_report() {
    let um = manager("/srv/feed");
    let (mut st, _) = PackageStager::start(&um, &asset("App-2.0.0-full.nupkg"));
    st.step(StageEvent::Listed(vec![]));
    st.step(StageEvent::Found);
    st.step(StageEvent::Reported);
    assert_eq!(st.step(StageEvent::Completed), StageAction::Progress(100));
}

#[test]
fn unexpected_event_ends_staging() {
    let um = manager("/srv/feed");
    let (mut st, _) = PackageStager::start(&um, &asset("App-2.0.0-full.nupkg"));
    assert_eq!(st.step(StageEvent::Completed), StageAction::Finished(Err(UpdateError::TransferFailed)));
    assert_eq!(st.phase, StagePhase::Done);
}

#[test]
fn transfer_percentages() {
    assert_eq!(velopack::transfer_percent(0, 0), 0);
    assert_eq!(velopack::transfer_percent(50, 0), 0);
    assert_eq!(velopack::transfer_percent(0, 200), 0);
    assert_eq!(velopack::transfer_percent(199, 200), 99);
    assert_eq!(velopack::transfer_percent(200, 200), 100);
    assert_eq!(velopack::transfer_percent(500, 200), 100);
    assert_eq!(velopack::transfer_percent(u64::MAX, u64::MAX), 100);
    assert_eq!(velopack::transfer_percent(u64::MAX / 2, u64::MAX), 49);
}
