use qinjector::archive::ArchiveEntry;
use qinjector::extract::Layout;
use qinjector::install_flow::{advance, InstallAction, InstallEvent, InstallState};
use qinjector::installer::Installer;
use qinjector::registry::{LocalMaps, MapPack};

fn installer() -> Installer {
    Installer::new()
        .with_download_dir("/home/me/Downloads".to_string())
        .with_quake_dir("/games/quake".to_string())
        .with_map_id("dopa".to_string())
        .with_path_string("3".to_string())
}

#[test]
fn new_installer_is_empty() {
    let fresh = Installer::new();
    assert_eq!(fresh.download_dir(), "");
    assert_eq!(fresh.quake_dir(), "");
    assert_eq!(fresh.path_string(), "");
    assert_eq!(fresh.map_id(), "");
    assert_eq!(fresh.installed_map_pack(), &None);
}

#[test]
fn builders_set_one_field_each() {
    let built = installer();
    assert_eq!(built.download_dir(), "/home/me/Downloads");
    assert_eq!(built.quake_dir(), "/games/quake");
    assert_eq!(built.map_id(), "dopa");
    assert_eq!(built.path_string(), "3");
    assert_eq!(built.installed_map_pack(), &None);
    assert_eq!(built.clone(), built);
}

#[test]
fn archive_is_fetched_from_the_filebase() {
    assert_eq!(installer().archive_url(), "https://www.quaddicted.com/filebase/dopa.zip");
    assert_eq!(installer().archive_path(), "/home/me/Downloads/dopa.zip");
    assert_eq!(installer().package_dir(), "/games/quake/dopa");
}

#[test]
fn cached_archive_is_found_by_its_exact_name() {
    let listing: Vec<String> =
        ["other.zip", "dopa.zip", "notes.txt"].iter().map(|s| s.to_string()).collect();
    assert!(installer().is_map_zip_downloaded(&listing));
    let without: Vec<String> =
        ["dopa.zip.part", "DOPA.ZIP", "dopa"].iter().map(|s| s.to_string()).collect();
    assert!(!installer().is_map_zip_downloaded(&without));
    assert!(!installer().is_map_zip_downloaded(&Vec::new()));
}

#[test]
fn completed_install_holds_the_pack() {
    let mut done = installer();
    done.record_installed();
    assert_eq!(done.installed_map_pack(), &Some(MapPack::new("dopa".to_string(), Vec::new())));
    assert_eq!(done.map_id(), "dopa");
}

#[test]
fn install_without_cached_archive_fetches_and_unpacks_flat() {
    let mut worker = installer();
    let listing: Vec<String> = vec!["other.zip".to_string()];
    let entries =
        vec![ArchiveEntry::new("dopa.bsp".to_string(), 1), ArchiveEntry::new("dopa.txt".to_string(), 2)];
    let mut registry = LocalMaps::default();
    let mut state = InstallState::NotStarted;
    let mut event = InstallEvent::Start;
    let mut fetched: Vec<String> = Vec::new();
    loop {
        let (next, action) = advance(state, event);
        state = next;
        event = match action {
            InstallAction::CheckCache => {
                InstallEvent::CacheChecked { present: worker.is_map_zip_downloaded(&listing) }
            }
            InstallAction::Fetch => {
                fetched.push(worker.archive_url());
                InstallEvent::Fetched
            }
            InstallAction::AnnounceDone => InstallEvent::Announced,
            InstallAction::Extract => {
                let plan = worker.unpack_plan(&entries);
                assert_eq!(plan.layout, Layout::Flat);
                assert_eq!(plan.maps_dir, Some("/games/quake/dopa/maps".to_string()));
                assert_eq!(plan.writes[0].path, "/games/quake/dopa/maps/dopa.bsp");
                assert_eq!(plan.writes[1].path, "/games/quake/dopa/dopa.txt");
                let startup = plan.startup.unwrap();
                assert_eq!(startup.path, "/games/quake/dopa/autoexec.cfg");
                assert_eq!(startup.content, "map dopa");
                InstallEvent::Extracted
            }
            InstallAction::Deliver => {
                worker.record_installed();
                registry.add_map(worker.installed_map_pack().clone().unwrap());
                break;
            }
            InstallAction::ReportFailure | InstallAction::Nothing => break,
        };
    }
    assert_eq!(state, InstallState::Completed);
    assert_eq!(fetched, vec!["https://www.quaddicted.com/filebase/dopa.zip".to_string()]);
    assert!(registry.is_map_installed(&"dopa".to_string()));
}

#[test]
fn uninstall_after_install_leaves_the_registry_without_the_pack() {
    let mut worker = installer();
    worker.record_installed();
    let mut registry = LocalMaps::default();
    registry.add_map(worker.installed_map_pack().clone().unwrap());
    assert!(registry.is_map_installed(&"dopa".to_string()));
    assert_eq!(worker.package_dir(), "/games/quake/dopa");
    registry.remove_map(worker.map_id());
    assert!(!registry.is_map_installed(&"dopa".to_string()));
}
