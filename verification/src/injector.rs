//! The program's state in one place: the catalogue, the settings and the
//! registry of installed packs, with the operations that touch several.

use crate::archive::{
    classification_of, classify, entry_views, local_views, zip_listing, ArchiveEntry,
    ArchiveError, EntryView, LocalFile,
};
use crate::configuration::{Configuration, ConfigurationView};
use crate::game_player::push_command_line;
use crate::quake_file::{find_file, index_of_file, QuakeFile};
use crate::registry::{
    file_views, holds_id, index_of_id, without_first, FileInfo, FileInfoView, LocalMaps, MapPack,
    MapPackView,
};
use crate::text::{ascii_lowercase, join_path, joined, lowercase, pieces, texts};
use rand::Rng;
use vstd::prelude::*;

verus! {

/// What a `QInjector` stands for.
pub struct QInjectorView {
    pub files: Seq<QuakeFile>,
    pub config: ConfigurationView,
    pub local_maps: Seq<MapPackView>,
}

/// The catalogue, the settings and the registry of installed packs.
#[derive(Debug, PartialEq, Eq)]
pub struct QInjector {
    files: Vec<QuakeFile>,
    config: Configuration,
    local_maps: LocalMaps,
}

impl View for QInjector {
    type V = QInjectorView;

    closed spec fn view(&self) -> QInjectorView {
        QInjectorView { files: self.files@, config: self.config@, local_maps: self.local_maps@ }
    }
}

/// The directory that the older, shared layout installs into.
pub open spec fn shared_maps_dir(quake_dir: Seq<char>) -> Seq<char> {
    joined(quake_dir, "id1/maps"@)
}

/// The catalogue with the installed mark of its first pack called `id`
/// set to `status`; the catalogue itself where no pack has that identifier.
pub open spec fn with_status(files: Seq<QuakeFile>, id: Seq<char>, status: bool) -> Seq<QuakeFile> {
    if index_of_file(files, id) < files.len() {
        files.update(
            index_of_file(files, id),
            QuakeFile { installed_locally: status, ..files[index_of_file(files, id)] },
        )
    } else {
        files
    }
}

/// The position of the first entry whose lower-cased name is `name`, or
/// the number of entries where there is none.
pub open spec fn index_of_entry(entries: Seq<EntryView>, name: Seq<char>) -> int
    decreases entries.len(),
{
    if entries.len() == 0 || ascii_lowercase(entries[0].name) == name {
        0
    } else {
        1 + index_of_entry(entries.drop_first(), name)
    }
}

/// `index_of_entry` points at the first entry of that lower-cased name.
pub proof fn lemma_index_of_entry(entries: Seq<EntryView>, name: Seq<char>)
    ensures
        0 <= index_of_entry(entries, name) <= entries.len(),
        forall|i: int|
            0 <= i < index_of_entry(entries, name) ==> ascii_lowercase((#[trigger] entries[i]).name)
                != name,
        index_of_entry(entries, name) < entries.len() ==> ascii_lowercase(
            entries[index_of_entry(entries, name)].name,
        ) == name,
    decreases entries.len(),
{
    if entries.len() > 0 && ascii_lowercase(entries[0].name) != name {
        let rest = entries.drop_first();
        lemma_index_of_entry(rest, name);
        let k = index_of_entry(entries, name);
        assert forall|i: int| 0 <= i < k implies ascii_lowercase((#[trigger] entries[i]).name)
            != name by {
            if i > 0 {
                assert(entries[i] == rest[i - 1]);
            }
        }
    }
}

/// One file to write in the shared layout: where its content is in the
/// archive, where it goes, and what the manifest says of it.
#[derive(Debug, PartialEq, Eq)]
pub struct ManifestStep {
    pub entry: usize,
    pub path: String,
    pub info: FileInfo,
}

/// What a `ManifestStep` stands for.
pub struct StepView {
    pub entry: int,
    pub path: Seq<char>,
    pub info: FileInfoView,
}

impl View for ManifestStep {
    type V = StepView;

    open spec fn view(&self) -> StepView {
        StepView { entry: self.entry as int, path: self.path@, info: self.info@ }
    }
}

/// The views of a list of steps, in order.
pub open spec fn step_views(steps: Seq<ManifestStep>) -> Seq<StepView> {
    Seq::new(steps.len(), |i: int| steps[i]@)
}

/// The step for the name `name`: the first entry of that lower-cased
/// name, written under that name into the shared directory, with the
/// entry's checksum in the manifest.
pub open spec fn step_for(entries: Seq<EntryView>, quake_dir: Seq<char>, name: Seq<char>) -> StepView {
    StepView {
        entry: index_of_entry(entries, name),
        path: joined(shared_maps_dir(quake_dir), name),
        info: FileInfoView { crc: entries[index_of_entry(entries, name)].crc, name },
    }
}

/// The steps for a list of names, in order; none where some name is the
/// lower-cased name of no entry.
pub open spec fn steps_for(entries: Seq<EntryView>, quake_dir: Seq<char>, names: Seq<Seq<char>>) -> Option<
    Seq<StepView>,
> {
    if forall|i: int|
        0 <= i < names.len() ==> index_of_entry(entries, #[trigger] names[i]) < entries.len() {
        Some(Seq::new(names.len(), |i: int| step_for(entries, quake_dir, names[i])))
    } else {
        None
    }
}

/// The identifiers of the packs of the catalogue that are not installed,
/// in the order of the catalogue.
pub open spec fn uninstalled(files: Seq<QuakeFile>, maps: Seq<MapPackView>) -> Seq<Seq<char>>
    decreases files.len(),
{
    if files.len() == 0 {
        Seq::empty()
    } else if holds_id(maps, files.last().id@) {
        uninstalled(files.drop_last(), maps)
    } else {
        uninstalled(files.drop_last(), maps).push(files.last().id@)
    }
}

/// An identifier is among the packs that are not installed exactly when
/// some pack of the catalogue has it and the registry does not hold it.
pub proof fn law_uninstalled_members(files: Seq<QuakeFile>, maps: Seq<MapPackView>, id: Seq<char>)
    ensures
        uninstalled(files, maps).contains(id) <==> !holds_id(maps, id) && exists|i: int|
            0 <= i < files.len() && (#[trigger] files[i]).id@ == id,
    decreases files.len(),
{
    if files.len() > 0 {
        let rest = files.drop_last();
        let last = files.last();
        law_uninstalled_members(rest, maps, id);
        let all = uninstalled(files, maps);
        let before = uninstalled(rest, maps);
        if all.contains(id) {
            let at = choose|at: int| 0 <= at < all.len() && all[at] == id;
            if !holds_id(maps, last.id@) && at == all.len() - 1 {
                assert(files[files.len() - 1].id@ == id);
            } else {
                assert(before[at] == id);
                let i = choose|i: int| 0 <= i < rest.len() && (#[trigger] rest[i]).id@ == id;
                assert(files[i] == rest[i]);
            }
        }
        if !holds_id(maps, id) && exists|i: int|
            0 <= i < files.len() && (#[trigger] files[i]).id@ == id {
            let i = choose|i: int| 0 <= i < files.len() && (#[trigger] files[i]).id@ == id;
            if i == files.len() - 1 {
                assert(all[all.len() - 1] == id);
            } else {
                assert(rest[i] == files[i]);
                let at = choose|at: int| 0 <= at < before.len() && before[at] == id;
                assert(all[at] == id);
            }
        }
    }
}

/// `rand::Rng::gen_range` on `rand::thread_rng()`, with the range from 0
/// up to and without `bound`: some number of that range. The call panics
/// on an empty range, which `requires` leaves out.
#[verifier::external_body]
fn random_below(bound: usize) -> (r: usize)
    requires
        bound > 0,
    ensures
        r < bound,
{
    rand::thread_rng().gen_range(0..bound)
}

impl QInjector {
    /// The state made of a catalogue, settings and a registry.
    pub fn new(files: Vec<QuakeFile>, config: Configuration, local_maps: LocalMaps) -> (r: Self)
        ensures
            r@ == (QInjectorView { files: files@, config: config@, local_maps: local_maps@ }),
    {
        QInjector { files, config, local_maps }
    }

    /// The catalogue.
    pub fn files(&self) -> (r: &Vec<QuakeFile>)
        ensures
            r@ == self@.files,
    {
        &self.files
    }

    /// The settings.
    pub fn config(&self) -> (r: &Configuration)
        ensures
            r@ == self@.config,
    {
        &self.config
    }

    /// The registry of installed packs.
    pub fn local_maps(&self) -> (r: &LocalMaps)
        ensures
            r@ == self@.local_maps,
    {
        &self.local_maps
    }

    /// Replaces the settings.
    pub fn set_config(&mut self, config: Configuration)
        ensures
            final(self)@ == (QInjectorView { config: config@, ..old(self)@ }),
    {
        self.config = config;
    }

    /// The first pack of the catalogue called `id`, if there is one.
    pub fn get_file_by_id(&self, id: String) -> (r: Option<&QuakeFile>)
        ensures
            match r {
                Some(file) => index_of_file(self@.files, id@) < self@.files.len() && *file
                    == self@.files[index_of_file(self@.files, id@)],
                None => index_of_file(self@.files, id@) == self@.files.len(),
            },
    {
        let at = find_file(&self.files, &id);
        if at < self.files.len() {
            Some(&self.files[at])
        } else {
            None
        }
    }

    /// Sets the engine's executable.
    pub fn set_quake_exe(&mut self, path: String)
        ensures
            final(self)@ == (QInjectorView {
                config: ConfigurationView { quake_exe: path@, ..old(self)@.config },
                ..old(self)@
            }),
    {
        self.config.set_quake_exe(path);
    }

    /// Sets the game's directory.
    pub fn set_quake_dir(&mut self, path: String)
        ensures
            final(self)@ == (QInjectorView {
                config: ConfigurationView { quake_dir: path@, ..old(self)@.config },
                ..old(self)@
            }),
    {
        self.config.set_quake_dir(path);
    }

    /// Sets the directory of cached archives.
    pub fn set_download_dir(&mut self, path: String)
        ensures
            final(self)@ == (QInjectorView {
                config: ConfigurationView { download_dir: path@, ..old(self)@.config },
                ..old(self)@
            }),
    {
        self.config.set_download_dir(path);
    }

    /// Sets whether the second mission pack is installed.
    pub fn set_rogue_check(&mut self, val: bool)
        ensures
            final(self)@ == (QInjectorView {
                config: ConfigurationView { rogue_installed: val, ..old(self)@.config },
                ..old(self)@
            }),
    {
        self.config.set_rogue_installed(val);
    }

    /// Sets whether the first mission pack is installed.
    pub fn set_hip_check(&mut self, val: bool)
        ensures
            final(self)@ == (QInjectorView {
                config: ConfigurationView { hip_installed: val, ..old(self)@.config },
                ..old(self)@
            }),
    {
        self.config.set_hip_installed(val);
    }

    /// Marks the first pack of the catalogue called `id` as installed or
    /// not. Where no pack has that identifier nothing changes.
    pub fn update_current_file_download_status(&mut self, status: bool, id: &String)
        ensures
            final(self)@ == (QInjectorView {
                files: with_status(old(self)@.files, id@, status),
                ..old(self)@
            }),
    {
        let at = find_file(&self.files, id);
        if at < self.files.len() {
            self.files[at].installed_locally = status;
        }
    }

    /// The first pack of the catalogue called `id`, for changing it.
    pub fn get_mut_file_by_id(&mut self, id: &String) -> (r: Option<&mut QuakeFile>)
        ensures
            match r {
                Some(file) => index_of_file(old(self)@.files, id@) < old(self)@.files.len() && *file
                    == old(self)@.files[index_of_file(old(self)@.files, id@)] && final(self)@ == (
                QInjectorView {
                    files: old(self)@.files.update(
                        index_of_file(old(self)@.files, id@),
                        *final(file),
                    ),
                    ..old(self)@
                }),
                None => index_of_file(old(self)@.files, id@) == old(self)@.files.len()
                    && final(self)@ == old(self)@,
            },
    {
        let at = find_file(&self.files, id);
        if at < self.files.len() {
            Some(&mut self.files[at])
        } else {
            None
        }
    }

    /// Sorts the entries of a fetched archive against the files of the
    /// shared directory: the names to install and the colliding names;
    /// nothing where the archive cannot be read.
    pub fn start_map_install(&self, zip_bytes: Vec<u8>, directory: &Vec<LocalFile>) -> (r: Option<
        (Vec<String>, Vec<String>),
    >)
        ensures
            match r {
                Some((to_install, taken)) => classification_of(
                    zip_listing(zip_bytes@),
                    local_views(directory@),
                ) == Ok::<(Seq<Seq<char>>, Seq<Seq<char>>), ArchiveError>(
                    (texts(to_install@), texts(taken@)),
                ),
                None => classification_of(zip_listing(zip_bytes@), local_views(directory@)) is Err,
            },
    {
        match classify(zip_bytes, directory) {
            Ok(sorted) => Some((sorted.to_install, sorted.conflicting)),
            Err(_) => None,
        }
    }

    /// The directory that the shared layout installs into:
    /// `<quake_dir>/id1/maps`.
    pub fn shared_maps_path(&self) -> (r: String)
        ensures
            r@ == shared_maps_dir(self@.config.quake_dir),
    {
        join_path(self.config.quake_dir().as_str(), "id1/maps")
    }

    /// The steps that install the names `to_install` from an archive with
    /// the given entries; nothing where a name is that of no entry.
    pub fn extraction_steps(&self, entries: &Vec<ArchiveEntry>, to_install: &Vec<String>) -> (r:
        Option<Vec<ManifestStep>>)
        ensures
            match r {
                Some(steps) => steps_for(
                    entry_views(entries@),
                    self@.config.quake_dir,
                    texts(to_install@),
                ) == Some(step_views(steps@)),
                None => steps_for(entry_views(entries@), self@.config.quake_dir, texts(to_install@))
                    is None,
            },
    {
        let ghost all = entry_views(entries@);
        let ghost names = texts(to_install@);
        let dir = self.shared_maps_path();
        let mut steps: Vec<ManifestStep> = Vec::new();
        let mut i: usize = 0;
        while i < to_install.len()
            invariant
                i <= to_install.len(),
                all == entry_views(entries@),
                names == texts(to_install@),
                dir@ == shared_maps_dir(self@.config.quake_dir),
                steps@.len() == i,
                forall|j: int| 0 <= j < i ==> index_of_entry(all, #[trigger] names[j]) < all.len(),
                forall|j: int|
                    0 <= j < i ==> (#[trigger] steps@[j])@ == step_for(
                        all,
                        self@.config.quake_dir,
                        names[j],
                    ),
            decreases to_install.len() - i,
        {
            let name = &to_install[i];
            assert(names[i as int] == name@);
            let at = find_entry(entries, name);
            if at >= entries.len() {
                return None;
            }
            let info = FileInfo::new(entries[at].crc(), name.clone());
            let path = join_path(dir.as_str(), name.as_str());
            steps.push(ManifestStep { entry: at, path, info });
            i += 1;
        }
        Some(steps)
    }

    /// Closes an install into the shared layout. Where every file was
    /// written, and every name of `to_install` is that of an entry, the
    /// pack `id` enters the registry with one manifest line for each name,
    /// and the result is true. Otherwise nothing changes and it is false.
    pub fn extract_data_from_zip(
        &mut self,
        entries: &Vec<ArchiveEntry>,
        to_install: &Vec<String>,
        id: &String,
        all_extracted: bool,
    ) -> (r: bool)
        ensures
            r == (all_extracted && steps_for(
                entry_views(entries@),
                old(self)@.config.quake_dir,
                texts(to_install@),
            ) is Some),
            !r ==> final(self)@ == old(self)@,
            r ==> final(self)@ == (QInjectorView {
                local_maps: old(self)@.local_maps.push(
                    MapPackView {
                        id: id@,
                        files: manifest_of(
                            steps_for(
                                entry_views(entries@),
                                old(self)@.config.quake_dir,
                                texts(to_install@),
                            ).unwrap(),
                        ),
                    },
                ),
                ..old(self)@
            }),
    {
        if !all_extracted {
            return false;
        }
        match self.extraction_steps(entries, to_install) {
            None => false,
            Some(steps) => {
                let ghost planned = step_views(steps@);
                let mut files: Vec<FileInfo> = Vec::new();
                let mut i: usize = 0;
                while i < steps.len()
                    invariant
                        i <= steps.len(),
                        files@.len() == i,
                        forall|j: int| 0 <= j < i ==> (#[trigger] files@[j])@ == steps@[j]@.info,
                    decreases steps.len() - i,
                {
                    files.push(steps[i].info.clone());
                    i += 1;
                }
                assert(file_views(files@) =~= manifest_of(planned));
                self.local_maps.add_map(MapPack::new(id.clone(), files));
                true
            },
        }
    }

    /// Takes the pack `id` out of the registry and gives the paths of the
    /// files that its manifest lists in the shared directory, which are
    /// then to be removed. Where the pack is not installed nothing changes
    /// and there is no result.
    pub fn uninstall_map(&mut self, id: &String) -> (r: Option<Vec<String>>)
        ensures
            match r {
                Some(paths) => holds_id(old(self)@.local_maps, id@) && texts(paths@)
                    == removal_paths(
                    old(self)@.config.quake_dir,
                    old(self)@.local_maps[index_of_id(old(self)@.local_maps, id@)].files,
                ) && final(self)@ == (QInjectorView {
                    local_maps: without_first(old(self)@.local_maps, id@),
                    ..old(self)@
                }),
                None => !holds_id(old(self)@.local_maps, id@) && final(self)@ == old(self)@,
            },
    {
        let dir = self.shared_maps_path();
        let mut paths: Vec<String> = Vec::new();
        match self.local_maps.get_map_by_id(id) {
            None => {
                return None;
            },
            Some(pack) => {
                let files = pack.files();
                let mut i: usize = 0;
                while i < files.len()
                    invariant
                        i <= files.len(),
                        paths@.len() == i,
                        forall|j: int|
                            0 <= j < i ==> (#[trigger] paths@[j])@ == joined(
                                dir@,
                                file_views(files@)[j].name,
                            ),
                    decreases files.len() - i,
                {
                    paths.push(join_path(dir.as_str(), files[i].name().as_str()));
                    i += 1;
                }
                assert(texts(paths@) =~= removal_paths(
                    self@.config.quake_dir,
                    file_views(files@),
                ));
            },
        }
        self.local_maps.remove_map(id);
        Some(paths)
    }

    /// The arguments to start the engine on the pack `id` at the level
    /// `start_map`; nothing where the catalogue has no such pack.
    pub fn play_arguments(&self, id: &String, start_map: &String) -> (r: Option<Vec<String>>)
        ensures
            match r {
                Some(args) => index_of_file(self@.files, id@) < self@.files.len() && texts(args@)
                    == play_arguments_of(
                    self@.config.quake_dir,
                    self@.files[index_of_file(self@.files, id@)],
                    start_map@,
                ),
                None => index_of_file(self@.files, id@) == self@.files.len(),
            },
    {
        let at = find_file(&self.files, id);
        if at >= self.files.len() {
            return None;
        }
        let mut args: Vec<String> = Vec::new();
        args.push("-basedir".to_owned());
        args.push(self.config.quake_dir().clone());
        assert(texts(args@) =~= seq!["-basedir"@, self@.config.quake_dir]);
        match &self.files[at].tech_info.command_line {
            Some(line) => {
                push_command_line(&mut args, line.as_str());
            },
            None => {},
        }
        args.push("+map".to_owned());
        args.push(start_map.clone());
        Some(args)
    }

    /// The identifiers of the packs that are not installed.
    pub fn uninstalled_ids(&self) -> (r: Vec<String>)
        ensures
            texts(r@) == uninstalled(self@.files, self@.local_maps),
    {
        uninstalled_ids(&self.files, &self.local_maps)
    }

    /// Some pack that is not installed, picked at random; nothing where
    /// every pack of the catalogue is installed.
    pub fn pick_random_uninstalled(&self) -> (r: Option<String>)
        ensures
            match r {
                Some(id) => uninstalled(self@.files, self@.local_maps).contains(id@),
                None => uninstalled(self@.files, self@.local_maps).len() == 0,
            },
    {
        pick_random_uninstalled(&self.files, &self.local_maps)
    }
}

/// The identifiers of the packs of `files` that `maps` does not hold, in
/// the order of the catalogue.
pub fn uninstalled_ids(files: &Vec<QuakeFile>, maps: &LocalMaps) -> (r: Vec<String>)
    ensures
        texts(r@) == uninstalled(files@, maps@),
{
    let mut ids: Vec<String> = Vec::new();
    let mut i: usize = 0;
    while i < files.len()
        invariant
            i <= files.len(),
            texts(ids@) == uninstalled(files@.take(i as int), maps@),
        decreases files.len() - i,
    {
        let ghost seen = files@.take(i + 1);
        assert(seen.drop_last() =~= files@.take(i as int));
        if !maps.is_map_installed(&files[i].id) {
            ids.push(files[i].id.clone());
        }
        i += 1;
    }
    assert(files@.take(i as int) =~= files@);
    ids
}

/// The pack at `index` among those that are not installed, if there are
/// that many.
pub fn choose_uninstalled(files: &Vec<QuakeFile>, maps: &LocalMaps, index: usize) -> (r: Option<
    String,
>)
    ensures
        match r {
            Some(id) => index < uninstalled(files@, maps@).len() && id@ == uninstalled(
                files@,
                maps@,
            )[index as int],
            None => index >= uninstalled(files@, maps@).len(),
        },
{
    let ids = uninstalled_ids(files, maps);
    if index < ids.len() {
        Some(ids[index].clone())
    } else {
        None
    }
}

/// Some pack that is not installed, picked at random; nothing where
/// every pack of the catalogue is installed.
pub fn pick_random_uninstalled(files: &Vec<QuakeFile>, maps: &LocalMaps) -> (r: Option<String>)
    ensures
        match r {
            Some(id) => uninstalled(files@, maps@).contains(id@),
            None => uninstalled(files@, maps@).len() == 0,
        },
{
    let ids = uninstalled_ids(files, maps);
    if ids.len() == 0 {
        return None;
    }
    let index = random_below(ids.len());
    assert(texts(ids@)[index as int] == ids@[index as int]@);
    Some(ids[index].clone())
}

/// The manifest that a list of steps writes: one line for each step.
pub open spec fn manifest_of(steps: Seq<StepView>) -> Seq<FileInfoView> {
    Seq::new(steps.len(), |i: int| steps[i].info)
}

/// The paths of a manifest's files in the shared directory.
pub open spec fn removal_paths(quake_dir: Seq<char>, files: Seq<FileInfoView>) -> Seq<Seq<char>> {
    Seq::new(files.len(), |i: int| joined(shared_maps_dir(quake_dir), files[i].name))
}

/// The arguments that start the engine on a pack of the catalogue: the
/// base directory, the pieces of the pack's command line where it has
/// one, and the level to start.
pub open spec fn play_arguments_of(quake_dir: Seq<char>, file: QuakeFile, start_map: Seq<char>) -> Seq<
    Seq<char>,
> {
    seq!["-basedir"@, quake_dir] + (match file.tech_info.command_line {
        Some(line) => pieces(line@, ' '),
        None => Seq::empty(),
    }) + seq!["+map"@, start_map]
}

/// The position of the first entry whose lower-cased name is `name`, or
/// the number of entries where there is none.
pub fn find_entry(entries: &Vec<ArchiveEntry>, name: &String) -> (r: usize)
    ensures
        r == index_of_entry(entry_views(entries@), name@),
        r <= entries@.len(),
{
    let ghost all = entry_views(entries@);
    let mut i: usize = 0;
    while i < entries.len()
        invariant
            i <= entries.len(),
            all == entry_views(entries@),
            forall|j: int| 0 <= j < i ==> ascii_lowercase((#[trigger] all[j]).name) != name@,
        decreases entries.len() - i,
    {
        let lowered = lowercase(entries[i].name().as_str());
        assert(all[i as int] == entries@[i as int]@);
        if lowered == *name {
            proof {
                lemma_index_of_entry(all, name@);
            }
            return i;
        }
        i += 1;
    }
    proof {
        lemma_index_of_entry(all, name@);
    }
    i
}

} // verus!
