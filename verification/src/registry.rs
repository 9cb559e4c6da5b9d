//! The registry of installed map packs: an ordered list of packs, each
//! with its identifier and the manifest of the files it brought.

use vstd::prelude::*;

verus! {

/// What a `FileInfo` stands for: a file name and the CRC-32 of its content.
pub struct FileInfoView {
    pub crc: u32,
    pub name: Seq<char>,
}

/// One entry of a pack's manifest.
#[derive(Debug, PartialEq, Eq)]
pub struct FileInfo {
    crc: u32,
    name: String,
}

impl View for FileInfo {
    type V = FileInfoView;

    closed spec fn view(&self) -> FileInfoView {
        FileInfoView { crc: self.crc, name: self.name@ }
    }
}

impl Clone for FileInfo {
    fn clone(&self) -> (r: Self)
        ensures
            r@ == self@,
    {
        FileInfo { crc: self.crc, name: self.name.clone() }
    }
}

impl FileInfo {
    /// A manifest entry for the file `name` whose content has checksum `crc`.
    pub fn new(crc: u32, name: String) -> (r: Self)
        ensures
            r@ == (FileInfoView { crc, name: name@ }),
    {
        FileInfo { crc, name }
    }

    /// The CRC-32 of the file's content.
    pub fn crc(&self) -> (r: &u32)
        ensures
            *r == self@.crc,
    {
        &self.crc
    }

    /// The file's name.
    pub fn name(&self) -> (r: &String)
        ensures
            r@ == self@.name,
    {
        &self.name
    }

    /// Replaces the checksum and leaves the name.
    pub fn set_crc(&mut self, crc: u32)
        ensures
            final(self)@ == (FileInfoView { crc, name: old(self)@.name }),
    {
        self.crc = crc;
    }

    /// Replaces the name and leaves the checksum.
    pub fn set_name(&mut self, name: String)
        ensures
            final(self)@ == (FileInfoView { crc: old(self)@.crc, name: name@ }),
    {
        self.name = name;
    }
}

/// What a `MapPack` stands for: its identifier and its manifest in order.
pub struct MapPackView {
    pub id: Seq<char>,
    pub files: Seq<FileInfoView>,
}

/// The views of a list of manifest entries, in order.
pub open spec fn file_views(files: Seq<FileInfo>) -> Seq<FileInfoView> {
    Seq::new(files.len(), |i: int| files[i]@)
}

/// An installed map pack.
#[derive(Debug, PartialEq, Eq)]
pub struct MapPack {
    id: String,
    files: Vec<FileInfo>,
}

impl View for MapPack {
    type V = MapPackView;

    closed spec fn view(&self) -> MapPackView {
        MapPackView { id: self.id@, files: file_views(self.files@) }
    }
}

impl Clone for MapPack {
    fn clone(&self) -> (r: Self)
        ensures
            r@ == self@,
    {
        let mut files: Vec<FileInfo> = Vec::new();
        let mut i: usize = 0;
        while i < self.files.len()
            invariant
                i <= self.files.len(),
                files@.len() == i,
                forall|j: int| 0 <= j < i ==> files@[j]@ == self.files@[j]@,
            decreases self.files.len() - i,
        {
            files.push(self.files[i].clone());
            i += 1;
        }
        assert(file_views(files@) =~= file_views(self.files@));
        MapPack { id: self.id.clone(), files }
    }
}

impl MapPack {
    /// The pack `id` with the manifest `files`.
    pub fn new(id: String, files: Vec<FileInfo>) -> (r: Self)
        ensures
            r@ == (MapPackView { id: id@, files: file_views(files@) }),
    {
        MapPack { id, files }
    }

    /// The pack's identifier.
    pub fn id(&self) -> (r: &String)
        ensures
            r@ == self@.id,
    {
        &self.id
    }

    /// The pack's manifest.
    pub fn files(&self) -> (r: &Vec<FileInfo>)
        ensures
            file_views(r@) == self@.files,
    {
        &self.files
    }

    /// Replaces the identifier and leaves the manifest.
    pub fn set_id(&mut self, id: String)
        ensures
            final(self)@ == (MapPackView { id: id@, files: old(self)@.files }),
    {
        self.id = id;
    }

    /// Replaces the manifest and leaves the identifier.
    pub fn set_files(&mut self, files: Vec<FileInfo>)
        ensures
            final(self)@ == (MapPackView { id: old(self)@.id, files: file_views(files@) }),
    {
        self.files = files;
    }
}

/// The views of a list of packs, in order.
pub open spec fn pack_views(maps: Seq<MapPack>) -> Seq<MapPackView> {
    Seq::new(maps.len(), |i: int| maps[i]@)
}

/// The position of the first pack called `id`, or the length of the list
/// where no pack has that identifier.
pub open spec fn index_of_id(maps: Seq<MapPackView>, id: Seq<char>) -> int
    decreases maps.len(),
{
    if maps.len() == 0 || maps[0].id == id {
        0
    } else {
        1 + index_of_id(maps.drop_first(), id)
    }
}

/// Whether some pack of the list is called `id`.
pub open spec fn holds_id(maps: Seq<MapPackView>, id: Seq<char>) -> bool {
    exists|i: int| 0 <= i < maps.len() && #[trigger] maps[i].id == id
}

/// The list without its first pack called `id`; the list itself where no
/// pack has that identifier.
pub open spec fn without_first(maps: Seq<MapPackView>, id: Seq<char>) -> Seq<MapPackView> {
    if index_of_id(maps, id) < maps.len() {
        maps.remove(index_of_id(maps, id))
    } else {
        maps
    }
}

/// Whether no two packs of the list share an identifier.
pub open spec fn unique_ids(maps: Seq<MapPackView>) -> bool {
    forall|i: int, j: int|
        0 <= i < j < maps.len() ==> (#[trigger] maps[i]).id != (#[trigger] maps[j]).id
}

/// `index_of_id` points at the first pack called `id`: no pack before it
/// has that identifier, and it stays inside the list exactly when some
/// pack has it.
pub proof fn lemma_index_of_id(maps: Seq<MapPackView>, id: Seq<char>)
    ensures
        0 <= index_of_id(maps, id) <= maps.len(),
        forall|i: int| 0 <= i < index_of_id(maps, id) ==> (#[trigger] maps[i]).id != id,
        index_of_id(maps, id) < maps.len() ==> maps[index_of_id(maps, id)].id == id,
        index_of_id(maps, id) < maps.len() <==> holds_id(maps, id),
    decreases maps.len(),
{
    if maps.len() == 0 || maps[0].id == id {
    } else {
        let rest = maps.drop_first();
        lemma_index_of_id(rest, id);
        let k = index_of_id(maps, id);
        assert forall|i: int| 0 <= i < k implies (#[trigger] maps[i]).id != id by {
            if i > 0 {
                assert(maps[i] == rest[i - 1]);
            }
        }
        if holds_id(rest, id) {
            let j = choose|j: int| 0 <= j < rest.len() && #[trigger] rest[j].id == id;
            assert(maps[j + 1].id == id);
        }
        if holds_id(maps, id) {
            let j = choose|j: int| 0 <= j < maps.len() && #[trigger] maps[j].id == id;
            assert(rest[j - 1].id == id);
        }
    }
}

/// The registry of installed packs, in the order in which they were added.
#[derive(Debug, PartialEq, Eq)]
pub struct LocalMaps {
    maps: Vec<MapPack>,
}

impl View for LocalMaps {
    type V = Seq<MapPackView>;

    closed spec fn view(&self) -> Seq<MapPackView> {
        pack_views(self.maps@)
    }
}

impl Clone for LocalMaps {
    fn clone(&self) -> (r: Self)
        ensures
            r@ == self@,
    {
        let mut maps: Vec<MapPack> = Vec::new();
        let mut i: usize = 0;
        while i < self.maps.len()
            invariant
                i <= self.maps.len(),
                maps@.len() == i,
                forall|j: int| 0 <= j < i ==> maps@[j]@ == self.maps@[j]@,
            decreases self.maps.len() - i,
        {
            maps.push(self.maps[i].clone());
            i += 1;
        }
        assert(pack_views(maps@) =~= pack_views(self.maps@));
        LocalMaps { maps }
    }
}

impl Default for LocalMaps {
    fn default() -> (r: Self)
        ensures
            r@ == Seq::<MapPackView>::empty(),
    {
        let r = LocalMaps { maps: Vec::new() };
        assert(r@ =~= Seq::<MapPackView>::empty());
        r
    }
}

impl LocalMaps {
    /// The packs of the registry, in order.
    pub fn maps(&self) -> (r: &Vec<MapPack>)
        ensures
            pack_views(r@) == self@,
    {
        &self.maps
    }

    /// Replaces the whole list of packs.
    pub fn set_maps(&mut self, maps: Vec<MapPack>)
        ensures
            final(self)@ == pack_views(maps@),
    {
        self.maps = maps;
    }

    /// Appends `pack` to the registry. A pack of the same identifier that
    /// is already there stays: the list then holds both.
    pub fn add_map(&mut self, pack: MapPack)
        ensures
            final(self)@ == old(self)@.push(pack@),
    {
        self.maps.push(pack);
        assert(self@ =~= old(self)@.push(pack@));
    }

    /// The position of the first pack called `id`, or the number of packs
    /// where none has that identifier.
    fn position(&self, id: &String) -> (r: usize)
        ensures
            r == index_of_id(self@, id@),
            r <= self.maps@.len(),
            self@.len() == self.maps@.len(),
    {
        let mut i: usize = 0;
        while i < self.maps.len() && *self.maps[i].id() != *id
            invariant
                i <= self.maps.len(),
                forall|j: int| 0 <= j < i ==> (#[trigger] self@[j]).id != id@,
            decreases self.maps.len() - i,
        {
            i += 1;
        }
        proof {
            lemma_index_of_id(self@, id@);
            let k = index_of_id(self@, id@);
            if k < i {
                assert(self@[k].id == id@);
            }
            if i < k {
                assert(self@[i as int].id != id@);
            }
        }
        i
    }

    /// Removes the first pack called `id`. Where no pack has that
    /// identifier the registry stays as it is.
    pub fn remove_map(&mut self, id: &String)
        ensures
            final(self)@ == without_first(old(self)@, id@),
    {
        let at = self.position(id);
        if at < self.maps.len() {
            self.maps.remove(at);
        }
    }

    /// The first pack called `id`, if there is one.
    pub fn get_map_by_id(&self, id: &String) -> (r: Option<&MapPack>)
        ensures
            match r {
                Some(pack) => holds_id(self@, id@) && pack@ == self@[index_of_id(self@, id@)],
                None => !holds_id(self@, id@),
            },
    {
        let at = self.position(id);
        proof {
            lemma_index_of_id(self@, id@);
        }
        if at < self.maps.len() {
            Some(&self.maps[at])
        } else {
            None
        }
    }

    /// Whether some pack of the registry is called `id`.
    pub fn is_map_installed(&self, id: &String) -> (b: bool)
        ensures
            b == holds_id(self@, id@),
    {
        let at = self.position(id);
        proof {
            lemma_index_of_id(self@, id@);
        }
        at < self.maps.len()
    }
}

/// A pack that was just added is found under its identifier.
pub proof fn law_added_is_found(maps: Seq<MapPackView>, pack: MapPackView)
    ensures
        holds_id(maps.push(pack), pack.id),
{
    assert(maps.push(pack)[maps.len() as int].id == pack.id);
}

/// Adding a pack whose identifier is new and then removing that
/// identifier gives the registry back as it was, and the identifier is
/// then no longer found.
pub proof fn law_add_then_remove(maps: Seq<MapPackView>, pack: MapPackView)
    requires
        !holds_id(maps, pack.id),
    ensures
        without_first(maps.push(pack), pack.id) == maps,
        !holds_id(without_first(maps.push(pack), pack.id), pack.id),
{
    let added = maps.push(pack);
    lemma_index_of_id(added, pack.id);
    law_added_is_found(maps, pack);
    let k = index_of_id(added, pack.id);
    if k < maps.len() {
        assert(maps[k].id == added[k].id);
    }
    assert(added.remove(k) =~= maps);
}

/// In a registry without duplicate identifiers, an identifier is no
/// longer found once it was removed.
pub proof fn law_removed_is_absent(maps: Seq<MapPackView>, id: Seq<char>)
    requires
        unique_ids(maps),
    ensures
        !holds_id(without_first(maps, id), id),
{
    lemma_index_of_id(maps, id);
    let k = index_of_id(maps, id);
    let rest = without_first(maps, id);
    if holds_id(rest, id) {
        let j = choose|j: int| 0 <= j < rest.len() && #[trigger] rest[j].id == id;
        if j < k {
            assert(rest[j] == maps[j]);
        } else {
            assert(rest[j] == maps[j + 1]);
            assert(maps[k].id != maps[j + 1].id);
        }
    }
}

/// Removing an identifier leaves every other identifier as it was: found
/// before exactly when found after.
pub proof fn law_remove_keeps_others(maps: Seq<MapPackView>, id: Seq<char>, other: Seq<char>)
    requires
        other != id,
    ensures
        holds_id(without_first(maps, id), other) == holds_id(maps, other),
{
    lemma_index_of_id(maps, id);
    let k = index_of_id(maps, id);
    let rest = without_first(maps, id);
    if k < maps.len() {
        if holds_id(maps, other) {
            let j = choose|j: int| 0 <= j < maps.len() && #[trigger] maps[j].id == other;
            if j < k {
                assert(rest[j].id == other);
            } else {
                assert(rest[j - 1].id == other);
            }
        }
        if holds_id(rest, other) {
            let j = choose|j: int| 0 <= j < rest.len() && #[trigger] rest[j].id == other;
            if j < k {
                assert(maps[j].id == other);
            } else {
                assert(maps[j + 1].id == other);
            }
        }
    }
}

/// A registry without duplicate identifiers stays so when a pack with a
/// new identifier is added, and when an identifier is removed.
pub proof fn law_unique_ids_kept(maps: Seq<MapPackView>, pack: MapPackView, id: Seq<char>)
    requires
        unique_ids(maps),
    ensures
        !holds_id(maps, pack.id) ==> unique_ids(maps.push(pack)),
        unique_ids(without_first(maps, id)),
{
    if !holds_id(maps, pack.id) {
        let added = maps.push(pack);
        assert forall|i: int, j: int| 0 <= i < j < added.len() implies (#[trigger] added[i]).id != (
        #[trigger] added[j]).id by {
            if j < maps.len() {
                assert(added[i] == maps[i] && added[j] == maps[j]);
            } else {
                assert(added[i] == maps[i]);
                assert(maps[i].id != pack.id);
            }
        }
    }
    lemma_index_of_id(maps, id);
    let k = index_of_id(maps, id);
    let rest = without_first(maps, id);
    if k < maps.len() {
        assert forall|i: int, j: int| 0 <= i < j < rest.len() implies (#[trigger] rest[i]).id != (
        #[trigger] rest[j]).id by {
            let a = if i < k { i } else { i + 1 };
            let b = if j < k { j } else { j + 1 };
            assert(rest[i] == maps[a] && rest[j] == maps[b]);
        }
    }
}

} // verus!
