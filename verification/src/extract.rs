//! Planning the extraction of an archive: which entry goes to which path,
//! and which start-up file the engine is given.

use crate::archive::{entry_views, has_nested_paths, nested, ArchiveEntry, EntryView};
use crate::text::{
    ascii_lowercase, ends_with, followed_by, has_suffix, join_path, joined, lowercase,
    without_last,
};
use vstd::prelude::*;

verus! {

/// How an archive lays out its files.
#[derive(Debug, Clone, Copy, PartialEq, Eq, Structural)]
pub enum Layout {
    /// The archive brings its own directories: entries keep their paths.
    Nested,
    /// The archive has no directories: level binaries go to `maps`, the
    /// rest to the package's root, and a start-up file is written.
    Flat,
}

/// One entry to write: the entry's position in the archive and the path
/// of the file that receives its content.
#[derive(Debug, PartialEq, Eq)]
pub struct PlannedWrite {
    pub entry: usize,
    pub path: String,
}

/// What a `PlannedWrite` stands for.
pub struct WriteView {
    pub entry: int,
    pub path: Seq<char>,
}

impl View for PlannedWrite {
    type V = WriteView;

    open spec fn view(&self) -> WriteView {
        WriteView { entry: self.entry as int, path: self.path@ }
    }
}

/// The start-up file of a flat package: its path and its text.
#[derive(Debug, PartialEq, Eq)]
pub struct StartupFile {
    pub path: String,
    pub content: String,
}

/// What an `ExtractionPlan` stands for.
pub struct PlanView {
    pub layout: Layout,
    pub root_dir: Seq<char>,
    pub maps_dir: Option<Seq<char>>,
    pub writes: Seq<WriteView>,
    pub startup: Option<(Seq<char>, Seq<char>)>,
}

/// Everything that installing a package writes.
#[derive(Debug, PartialEq, Eq)]
pub struct ExtractionPlan {
    /// The layout that the entry names call for.
    pub layout: Layout,
    /// The package's own directory, to be created first.
    pub root_dir: String,
    /// The directory of level binaries, to be created too; flat layout only.
    pub maps_dir: Option<String>,
    /// The entries to write, in the order of the archive.
    pub writes: Vec<PlannedWrite>,
    /// The start-up file to write last; flat layout only.
    pub startup: Option<StartupFile>,
}

/// The views of a list of planned writes, in order.
pub open spec fn write_views(writes: Seq<PlannedWrite>) -> Seq<WriteView> {
    Seq::new(writes.len(), |i: int| writes[i]@)
}

impl View for ExtractionPlan {
    type V = PlanView;

    open spec fn view(&self) -> PlanView {
        PlanView {
            layout: self.layout,
            root_dir: self.root_dir@,
            maps_dir: match self.maps_dir {
                Some(dir) => Some(dir@),
                None => None,
            },
            writes: write_views(self.writes@),
            startup: match self.startup {
                Some(file) => Some((file.path@, file.content@)),
                None => None,
            },
        }
    }
}

/// Whether a lower-cased name is that of a level binary: whether it ends
/// with the extension `.bsp`.
pub open spec fn is_level_binary(name: Seq<char>) -> bool {
    ends_with(name, ".bsp"@)
}

/// The name of a level binary without its extension.
pub open spec fn level_name(name: Seq<char>) -> Seq<char> {
    name.subrange(0, name.len() - ".bsp"@.len())
}

/// The level that the engine is told to start: the name, without its
/// extension, of the last level binary among the entries; `start` where
/// the archive holds none.
pub open spec fn start_level(entries: Seq<EntryView>) -> Seq<char>
    decreases entries.len(),
{
    if entries.len() == 0 {
        "start"@
    } else if is_level_binary(ascii_lowercase(entries.last().name)) {
        level_name(ascii_lowercase(entries.last().name))
    } else {
        start_level(entries.drop_last())
    }
}

/// Where a flat package puts the file of a lower-cased name: a level
/// binary inside `maps`, anything else directly under the root.
pub open spec fn flat_destination(root: Seq<char>, name: Seq<char>) -> Seq<char> {
    if is_level_binary(name) {
        joined(joined(root, "maps"@), name)
    } else {
        joined(root, name)
    }
}

/// The text of the start-up file: the one directive that starts `level`.
pub open spec fn startup_text(level: Seq<char>) -> Seq<char> {
    "map "@ + level
}

/// The plan for a package: its directory is `<quake_dir>/<package_id>`.
/// A nested archive has every entry written below it under the entry's
/// stored name. A flat archive has every entry written under its
/// lower-cased name, level binaries apart in `maps`, and gets the
/// start-up file `autoexec.cfg`.
pub open spec fn plan_of(entries: Seq<EntryView>, package_id: Seq<char>, quake_dir: Seq<char>) -> PlanView {
    let root = joined(quake_dir, package_id);
    if nested(entries) {
        PlanView {
            layout: Layout::Nested,
            root_dir: root,
            maps_dir: None,
            writes: Seq::new(
                entries.len(),
                |i: int| WriteView { entry: i, path: joined(root, entries[i].name) },
            ),
            startup: None,
        }
    } else {
        PlanView {
            layout: Layout::Flat,
            root_dir: root,
            maps_dir: Some(joined(root, "maps"@)),
            writes: Seq::new(
                entries.len(),
                |i: int|
                    WriteView {
                        entry: i,
                        path: flat_destination(root, ascii_lowercase(entries[i].name)),
                    },
            ),
            startup: Some((joined(root, "autoexec.cfg"@), startup_text(start_level(entries)))),
        }
    }
}

/// A plan writes every entry once, in the order of the archive, and
/// every path it writes lies in the package's own directory. Only a flat
/// plan has a directory for level binaries and a start-up file, and there
/// the level binaries, and nothing else, go to that directory.
pub proof fn law_plan_covers_archive(
    entries: Seq<EntryView>,
    package_id: Seq<char>,
    quake_dir: Seq<char>,
    i: int,
)
    requires
        0 <= i < entries.len(),
    ensures
        plan_of(entries, package_id, quake_dir).writes.len() == entries.len(),
        plan_of(entries, package_id, quake_dir).writes[i].entry == i,
        plan_of(entries, package_id, quake_dir).root_dir == joined(quake_dir, package_id),
        (joined(quake_dir, package_id) + "/"@).is_prefix_of(
            plan_of(entries, package_id, quake_dir).writes[i].path,
        ),
        plan_of(entries, package_id, quake_dir).layout is Flat <==> !nested(entries),
        plan_of(entries, package_id, quake_dir).layout is Flat <==> plan_of(
            entries,
            package_id,
            quake_dir,
        ).startup is Some,
        plan_of(entries, package_id, quake_dir).layout is Flat <==> plan_of(
            entries,
            package_id,
            quake_dir,
        ).maps_dir is Some,
        plan_of(entries, package_id, quake_dir).layout is Flat ==> (is_level_binary(
            ascii_lowercase(entries[i].name),
        ) <==> plan_of(entries, package_id, quake_dir).writes[i].path == joined(
            plan_of(entries, package_id, quake_dir).maps_dir.unwrap(),
            ascii_lowercase(entries[i].name),
        )),
{
    let root = joined(quake_dir, package_id);
    let plan = plan_of(entries, package_id, quake_dir);
    let name = ascii_lowercase(entries[i].name);
    let path = plan.writes[i].path;
    let lead = root + "/"@;
    if !nested(entries) && !is_level_binary(name) {
        // The path is shorter than one through `maps` would be.
        reveal_strlit("/");
        assert(path.len() < joined(joined(root, "maps"@), name).len());
    }
    assert(lead.is_prefix_of(path));
}

/// Plans the extraction of the archive with the given entries as the
/// package `package_id` below `quake_dir`.
pub fn plan_extraction(entries: &Vec<ArchiveEntry>, package_id: &str, quake_dir: &str) -> (plan:
    ExtractionPlan)
    ensures
        plan@ == plan_of(entry_views(entries@), package_id@, quake_dir@),
{
    let ghost all = entry_views(entries@);
    let root = join_path(quake_dir, package_id);
    let mut writes: Vec<PlannedWrite> = Vec::new();
    if has_nested_paths(entries) {
        let mut i: usize = 0;
        while i < entries.len()
            invariant
                i <= entries.len(),
                all == entry_views(entries@),
                writes@.len() == i,
                forall|j: int|
                    0 <= j < i ==> (#[trigger] writes@[j])@ == (WriteView {
                        entry: j,
                        path: joined(root@, all[j].name),
                    }),
            decreases entries.len() - i,
        {
            let path = join_path(root.as_str(), entries[i].name().as_str());
            writes.push(PlannedWrite { entry: i, path });
            i += 1;
        }
        let plan = ExtractionPlan {
            layout: Layout::Nested,
            root_dir: root,
            maps_dir: None,
            writes,
            startup: None,
        };
        assert(plan@.writes =~= plan_of(all, package_id@, quake_dir@).writes);
        plan
    } else {
        let maps_dir = join_path(root.as_str(), "maps");
        let mut level = "start".to_owned();
        let mut i: usize = 0;
        while i < entries.len()
            invariant
                i <= entries.len(),
                all == entry_views(entries@),
                maps_dir@ == joined(root@, "maps"@),
                writes@.len() == i,
                level@ == start_level(all.take(i as int)),
                forall|j: int|
                    0 <= j < i ==> (#[trigger] writes@[j])@ == (WriteView {
                        entry: j,
                        path: flat_destination(root@, ascii_lowercase(all[j].name)),
                    }),
            decreases entries.len() - i,
        {
            let name = lowercase(entries[i].name().as_str());
            proof {
                let seen = all.take(i + 1);
                assert(seen.drop_last() =~= all.take(i as int));
            }
            let path = if has_suffix(name.as_str(), ".bsp") {
                proof {
                    reveal_strlit(".bsp");
                }
                level = without_last(name.as_str(), 4);
                join_path(maps_dir.as_str(), name.as_str())
            } else {
                join_path(root.as_str(), name.as_str())
            };
            writes.push(PlannedWrite { entry: i, path });
            i += 1;
        }
        assert(all.take(i as int) =~= all);
        let startup = StartupFile {
            path: join_path(root.as_str(), "autoexec.cfg"),
            content: followed_by("map ", level.as_str()),
        };
        let plan = ExtractionPlan {
            layout: Layout::Flat,
            root_dir: root,
            maps_dir: Some(maps_dir),
            writes,
            startup: Some(startup),
        };
        assert(plan@.writes =~= plan_of(all, package_id@, quake_dir@).writes);
        plan
    }
}

} // verus!
