use qinjector::archive::ArchiveEntry;
use qinjector::extract::{plan_extraction, Layout, PlannedWrite, StartupFile};

fn entries_of(list: &[&str]) -> Vec<ArchiveEntry> {
    list.iter().map(|name| ArchiveEntry::new(name.to_string(), 0)).collect()
}

fn write(entry: usize, path: &str) -> PlannedWrite {
    PlannedWrite { entry, path: path.to_string() }
}

#[test]
fn flat_archive_gets_maps_directory_and_startup_file() {
    let plan = plan_extraction(&entries_of(&["DOPA.BSP", "Dopa.txt"]), "dopa", "/games/quake");
    assert_eq!(plan.layout, Layout::Flat);
    assert_eq!(plan.root_dir, "/games/quake/dopa");
    assert_eq!(plan.maps_dir, Some("/games/quake/dopa/maps".to_string()));
    assert_eq!(
        plan.writes,
        vec![write(0, "/games/quake/dopa/maps/dopa.bsp"), write(1, "/games/quake/dopa/dopa.txt")]
    );
    assert_eq!(
        plan.startup,
        Some(StartupFile {
            path: "/games/quake/dopa/autoexec.cfg".to_string(),
            content: "map dopa".to_string(),
        })
    );
}

#[test]
fn nested_archive_keeps_its_paths() {
    let plan =
        plan_extraction(&entries_of(&["textures/wall.wad", "maps/E1M1.bsp"]), "pack", "/q");
    assert_eq!(plan.layout, Layout::Nested);
    assert_eq!(plan.root_dir, "/q/pack");
    assert_eq!(plan.maps_dir, None);
    assert_eq!(
        plan.writes,
        vec![write(0, "/q/pack/textures/wall.wad"), write(1, "/q/pack/maps/E1M1.bsp")]
    );
    assert_eq!(plan.startup, None);
}

#[test]
fn archive_without_level_starts_the_fallback_level() {
    let plan = plan_extraction(&entries_of(&["readme.txt", "bsp.txt"]), "docs", "/q");
    assert_eq!(plan.layout, Layout::Flat);
    assert_eq!(plan.writes, vec![write(0, "/q/docs/readme.txt"), write(1, "/q/docs/bsp.txt")]);
    assert_eq!(plan.startup.unwrap().content, "map start");
}

#[test]
fn last_level_binary_is_started() {
    let plan = plan_extraction(&entries_of(&["a.bsp", "b.bsp", "notes.txt"]), "two", "/q");
    assert_eq!(
        plan.writes,
        vec![
            write(0, "/q/two/maps/a.bsp"),
            write(1, "/q/two/maps/b.bsp"),
            write(2, "/q/two/notes.txt")
        ]
    );
    assert_eq!(plan.startup.unwrap().content, "map b");
}

#[test]
fn only_the_extension_is_stripped() {
    let plan = plan_extraction(&entries_of(&["my.map.bsp"]), "dots", "/q");
    assert_eq!(plan.writes, vec![write(0, "/q/dots/maps/my.map.bsp")]);
    assert_eq!(plan.startup.unwrap().content, "map my.map");
}

#[test]
fn bare_extension_is_a_level_with_an_empty_name() {
    let plan = plan_extraction(&entries_of(&[".bsp", "bsp"]), "odd", "/q");
    assert_eq!(plan.writes, vec![write(0, "/q/odd/maps/.bsp"), write(1, "/q/odd/bsp")]);
    assert_eq!(plan.startup.unwrap().content, "map ");
}

#[test]
fn empty_archive_is_flat_with_the_fallback_level() {
    let plan = plan_extraction(&Vec::new(), "none", "/q");
    assert_eq!(plan.layout, Layout::Flat);
    assert!(plan.writes.is_empty());
    assert_eq!(plan.startup.unwrap().content, "map start");
}
