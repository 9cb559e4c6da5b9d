//! One install or uninstall of a map pack: the paths it works on, and the
//! state machine that says what is to be done next.

use crate::archive::{entry_views, ArchiveEntry};
use crate::extract::{plan_extraction, plan_of, ExtractionPlan};
use crate::registry::{without_first, FileInfoView, LocalMaps, MapPack, MapPackView};
use crate::text::{followed_by, join_path, joined, texts};
use vstd::prelude::*;

verus! {

/// What an `Installer` stands for.
pub struct InstallerView {
    pub download_dir: Seq<char>,
    pub quake_dir: Seq<char>,
    pub path_string: Seq<char>,
    pub map_id: Seq<char>,
    pub installed_map_pack: Option<MapPackView>,
}

/// The parameters of one install or uninstall, and the pack it produced.
#[derive(Debug, PartialEq, Eq)]
pub struct Installer {
    download_dir: String,
    quake_dir: String,
    path_string: String,
    map_id: String,
    installed_map_pack: Option<MapPack>,
}

impl View for Installer {
    type V = InstallerView;

    closed spec fn view(&self) -> InstallerView {
        InstallerView {
            download_dir: self.download_dir@,
            quake_dir: self.quake_dir@,
            path_string: self.path_string@,
            map_id: self.map_id@,
            installed_map_pack: match self.installed_map_pack {
                Some(pack) => Some(pack@),
                None => None,
            },
        }
    }
}

impl Clone for Installer {
    fn clone(&self) -> (r: Self)
        ensures
            r@ == self@,
    {
        Installer {
            download_dir: self.download_dir.clone(),
            quake_dir: self.quake_dir.clone(),
            path_string: self.path_string.clone(),
            map_id: self.map_id.clone(),
            installed_map_pack: match &self.installed_map_pack {
                Some(pack) => Some(pack.clone()),
                None => None,
            },
        }
    }
}

/// The name of the cached archive of the pack `map_id`.
pub open spec fn archive_name(map_id: Seq<char>) -> Seq<char> {
    map_id + ".zip"@
}

/// The address from which the archive of the pack `map_id` is fetched.
pub open spec fn archive_address(map_id: Seq<char>) -> Seq<char> {
    "https://www.quaddicted.com/filebase/"@ + archive_name(map_id)
}

impl Installer {
    /// An installer with every parameter empty and no pack produced.
    pub fn new() -> (r: Self)
        ensures
            r@ == (InstallerView {
                download_dir: Seq::empty(),
                quake_dir: Seq::empty(),
                path_string: Seq::empty(),
                map_id: Seq::empty(),
                installed_map_pack: None,
            }),
    {
        Installer {
            download_dir: String::new(),
            path_string: String::new(),
            quake_dir: String::new(),
            installed_map_pack: None,
            map_id: String::new(),
        }
    }

    /// The same installer with `string` as the list path of its pack.
    pub fn with_path_string(self, string: String) -> (r: Self)
        ensures
            r@ == (InstallerView { path_string: string@, ..self@ }),
    {
        Installer {
            download_dir: self.download_dir,
            path_string: string,
            quake_dir: self.quake_dir,
            installed_map_pack: self.installed_map_pack,
            map_id: self.map_id,
        }
    }

    /// The same installer with `dir` as the directory of cached archives.
    pub fn with_download_dir(self, dir: String) -> (r: Self)
        ensures
            r@ == (InstallerView { download_dir: dir@, ..self@ }),
    {
        Installer {
            download_dir: dir,
            path_string: self.path_string,
            quake_dir: self.quake_dir,
            installed_map_pack: self.installed_map_pack,
            map_id: self.map_id,
        }
    }

    /// The same installer with `dir` as the game's directory.
    pub fn with_quake_dir(self, dir: String) -> (r: Self)
        ensures
            r@ == (InstallerView { quake_dir: dir@, ..self@ }),
    {
        Installer {
            download_dir: self.download_dir,
            path_string: self.path_string,
            quake_dir: dir,
            installed_map_pack: self.installed_map_pack,
            map_id: self.map_id,
        }
    }

    /// The same installer for the pack `id`.
    pub fn with_map_id(self, id: String) -> (r: Self)
        ensures
            r@ == (InstallerView { map_id: id@, ..self@ }),
    {
        Installer {
            download_dir: self.download_dir,
            path_string: self.path_string,
            quake_dir: self.quake_dir,
            installed_map_pack: self.installed_map_pack,
            map_id: id,
        }
    }

    /// The directory of cached archives.
    pub fn download_dir(&self) -> (r: &String)
        ensures
            r@ == self@.download_dir,
    {
        &self.download_dir
    }

    /// The game's directory.
    pub fn quake_dir(&self) -> (r: &String)
        ensures
            r@ == self@.quake_dir,
    {
        &self.quake_dir
    }

    /// The list path of the pack.
    pub fn path_string(&self) -> (r: &String)
        ensures
            r@ == self@.path_string,
    {
        &self.path_string
    }

    /// The pack's identifier.
    pub fn map_id(&self) -> (r: &String)
        ensures
            r@ == self@.map_id,
    {
        &self.map_id
    }

    /// The pack that the install produced, once it has completed.
    pub fn installed_map_pack(&self) -> (r: &Option<MapPack>)
        ensures
            match *r {
                Some(pack) => self@.installed_map_pack == Some(pack@),
                None => self@.installed_map_pack is None,
            },
    {
        &self.installed_map_pack
    }

    /// The address from which the pack's archive is fetched.
    pub fn archive_url(&self) -> (r: String)
        ensures
            r@ == archive_address(self@.map_id),
    {
        let name = followed_by(self.map_id.as_str(), ".zip");
        followed_by("https://www.quaddicted.com/filebase/", name.as_str())
    }

    /// The path of the pack's cached archive: `<download_dir>/<map_id>.zip`.
    pub fn archive_path(&self) -> (r: String)
        ensures
            r@ == joined(self@.download_dir, archive_name(self@.map_id)),
    {
        let name = followed_by(self.map_id.as_str(), ".zip");
        join_path(self.download_dir.as_str(), name.as_str())
    }

    /// The pack's own directory below the game's: `<quake_dir>/<map_id>`.
    /// Installing fills it and uninstalling removes it with all it holds.
    pub fn package_dir(&self) -> (r: String)
        ensures
            r@ == joined(self@.quake_dir, self@.map_id),
    {
        join_path(self.quake_dir.as_str(), self.map_id.as_str())
    }

    /// Whether the pack's archive is cached: whether `listing`, the file
    /// names of the download directory, holds `<map_id>.zip`.
    pub fn is_map_zip_downloaded(&self, listing: &Vec<String>) -> (b: bool)
        ensures
            b == texts(listing@).contains(archive_name(self@.map_id)),
    {
        let name = followed_by(self.map_id.as_str(), ".zip");
        let mut i: usize = 0;
        while i < listing.len()
            invariant
                i <= listing.len(),
                name@ == archive_name(self@.map_id),
                forall|j: int| 0 <= j < i ==> (#[trigger] texts(listing@)[j]) != name@,
            decreases listing.len() - i,
        {
            if listing[i] == name {
                assert(texts(listing@)[i as int] == name@);
                return true;
            }
            i += 1;
        }
        false
    }

    /// The plan for unpacking the pack's archive, given its entries.
    pub fn unpack_plan(&self, entries: &Vec<ArchiveEntry>) -> (plan: ExtractionPlan)
        ensures
            plan@ == plan_of(entry_views(entries@), self@.map_id, self@.quake_dir),
    {
        plan_extraction(entries, self.map_id.as_str(), self.quake_dir.as_str())
    }

    /// Records that the pack is installed: the installer then holds the
    /// pack under its identifier, with an empty manifest, since the
    /// pack's directory is removed as a whole.
    pub fn record_installed(&mut self)
        ensures
            final(self)@ == (InstallerView {
                installed_map_pack: Some(
                    MapPackView { id: old(self)@.map_id, files: Seq::<FileInfoView>::empty() },
                ),
                ..old(self)@
            }),
    {
        let pack = MapPack::new(self.map_id.clone(), Vec::new());
        assert(pack@.files =~= Seq::<FileInfoView>::empty());
        self.installed_map_pack = Some(pack);
    }
}

/// How an uninstall ended.
#[derive(Debug, Clone, Copy, PartialEq, Eq, Structural)]
pub enum UninstallOutcome {
    /// The pack's directory is gone.
    Success,
    /// Something of the pack's directory could not be removed.
    PartialFailure,
}

/// Closes an uninstall of the pack `id`: its registry entry is removed
/// whether or not its directory could be removed in full, and the outcome
/// says which of the two it was.
pub fn finish_uninstall(registry: &mut LocalMaps, id: &String, removed: bool) -> (r:
    UninstallOutcome)
    ensures
        final(registry)@ == without_first(old(registry)@, id@),
        r == if removed {
            UninstallOutcome::Success
        } else {
            UninstallOutcome::PartialFailure
        },
{
    registry.remove_map(id);
    if removed {
        UninstallOutcome::Success
    } else {
        UninstallOutcome::PartialFailure
    }
}

} // verus!
