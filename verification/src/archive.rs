//! Reading the directory of a zip archive and sorting its entries into
//! those that can be installed and those that collide with a local file.

use crate::text::{ascii_lowercase, has_char, lowercase, texts};
use vstd::prelude::*;

verus! {

/// `zip::ZipArchive`, the zip reader over a source of bytes `R`. Nothing
/// of its inside is visible here: what it holds goes by `archive_entries`.
#[verifier::external_type_specification]
#[verifier::external_body]
#[verifier::reject_recursive_types(R)]
pub struct ExZipArchive<R>(zip::ZipArchive<R>);

/// `std::io::Cursor`, the in-memory source of bytes that the archive is
/// read from. Nothing of its inside is visible here.
#[verifier::external_type_specification]
#[verifier::external_body]
#[verifier::reject_recursive_types(T)]
pub struct ExCursor<T>(std::io::Cursor<T>);

/// What an open archive holds: for each entry of its central directory,
/// in order, the stored name and CRC-32 where the entry's local header
/// can be reached, `None` where it cannot.
pub uninterp spec fn archive_entries(archive: zip::ZipArchive<std::io::Cursor<Vec<u8>>>) -> Seq<
    Option<(Seq<char>, u32)>,
>;

/// What `zip::ZipArchive::new` makes of a file's bytes: `None` where it
/// rejects them, else what the archive it returns holds.
pub uninterp spec fn zip_listing(bytes: Seq<u8>) -> Option<Seq<Option<(Seq<char>, u32)>>>;

/// The CRC-32 (IEEE) of a run of bytes, as `crc::crc32::checksum_ieee`
/// computes it.
pub uninterp spec fn crc32_ieee(bytes: Seq<u8>) -> u32;

/// `zip::ZipArchive::new` on an in-memory reader over `bytes`. It parses
/// the end-of-central-directory record and the central directory; the
/// contract names the outcome and claims nothing else of it.
#[verifier::external_body]
fn open_archive(bytes: Vec<u8>) -> (r: Option<zip::ZipArchive<std::io::Cursor<Vec<u8>>>>)
    ensures
        match r {
            Some(archive) => zip_listing(bytes@) == Some(archive_entries(archive)),
            None => zip_listing(bytes@) is None,
        },
{
    zip::ZipArchive::new(std::io::Cursor::new(bytes)).ok()
}

/// `zip::ZipArchive::len`: the number of entries of the central directory.
#[verifier::external_body]
fn entry_count(archive: &zip::ZipArchive<std::io::Cursor<Vec<u8>>>) -> (n: usize)
    ensures
        n == archive_entries(*archive).len(),
{
    archive.len()
}

/// `zip::ZipArchive::by_index_raw`, then `ZipFile::name` and
/// `ZipFile::crc32` on what it returns. The call opens an entry without
/// decoding its content: it seeks to the entry's local header and checks
/// its signature, and fails where `index` is past the last entry or the
/// header cannot be read. Name and CRC-32 are those of the central
/// directory. The archive holds the same entries afterwards.
#[verifier::external_body]
fn entry_at(archive: &mut zip::ZipArchive<std::io::Cursor<Vec<u8>>>, index: usize) -> (r: Option<
    (String, u32),
>)
    ensures
        archive_entries(*final(archive)) == archive_entries(*old(archive)),
        index >= archive_entries(*old(archive)).len() ==> r is None,
        index < archive_entries(*old(archive)).len() ==> match r {
            Some((name, crc)) => archive_entries(*old(archive))[index as int] == Some((name@, crc)),
            None => archive_entries(*old(archive))[index as int] is None,
        },
{
    archive.by_index_raw(index).ok().map(|file| (file.name().to_string(), file.crc32()))
}

/// `crc::crc32::checksum_ieee`: the CRC-32 of `bytes`, a function of the
/// bytes alone.
#[verifier::external_body]
fn checksum(bytes: &[u8]) -> (r: u32)
    ensures
        r == crc32_ieee(bytes@),
{
    crc::crc32::checksum_ieee(bytes)
}

/// What an `ArchiveEntry` stands for: the name and the CRC-32 that
/// the archive's central directory stores for one entry.
pub struct EntryView {
    pub name: Seq<char>,
    pub crc: u32,
}

/// One entry of an archive's central directory.
#[derive(Debug, PartialEq, Eq)]
pub struct ArchiveEntry {
    name: String,
    crc: u32,
}

impl View for ArchiveEntry {
    type V = EntryView;

    closed spec fn view(&self) -> EntryView {
        EntryView { name: self.name@, crc: self.crc }
    }
}

impl ArchiveEntry {
    /// The entry stored as `name` whose content has checksum `crc`.
    pub fn new(name: String, crc: u32) -> (r: Self)
        ensures
            r@ == (EntryView { name: name@, crc }),
    {
        ArchiveEntry { name, crc }
    }

    /// The name as the archive stores it.
    pub fn name(&self) -> (r: &String)
        ensures
            r@ == self@.name,
    {
        &self.name
    }

    /// The stored CRC-32 of the entry's content.
    pub fn crc(&self) -> (r: u32)
        ensures
            r == self@.crc,
    {
        self.crc
    }
}

/// The views of a list of entries, in order.
pub open spec fn entry_views(entries: Seq<ArchiveEntry>) -> Seq<EntryView> {
    Seq::new(entries.len(), |i: int| entries[i]@)
}

/// Why an archive could not be listed.
#[derive(Debug, Clone, Copy, PartialEq, Eq, Structural)]
pub enum ArchiveError {
    /// The bytes are no zip archive, or its central directory is unreadable.
    Unreadable,
    /// The entry at `index` is the first whose local header cannot be read.
    EntryUnreadable { index: usize },
}

/// The position of the first unreachable entry of a listing, or its
/// length where every entry can be reached.
pub open spec fn first_unreadable(listing: Seq<Option<(Seq<char>, u32)>>) -> int
    decreases listing.len(),
{
    if listing.len() == 0 || listing[0] is None {
        0
    } else {
        1 + first_unreadable(listing.drop_first())
    }
}

/// The entries of a listing in which every entry can be reached.
pub open spec fn listed_entries(listing: Seq<Option<(Seq<char>, u32)>>) -> Seq<EntryView> {
    Seq::new(
        listing.len(),
        |i: int| EntryView { name: listing[i].unwrap().0, crc: listing[i].unwrap().1 },
    )
}

/// What reading an archive gives, from what the zip reader makes of its
/// bytes: the entries in order; or the error that says whether the
/// archive as a whole or one of its entries could not be read.
pub open spec fn listing_outcome(listing: Option<Seq<Option<(Seq<char>, u32)>>>) -> Result<
    Seq<EntryView>,
    ArchiveError,
> {
    match listing {
        None => Err(ArchiveError::Unreadable),
        Some(l) => if first_unreadable(l) < l.len() {
            Err(ArchiveError::EntryUnreadable { index: first_unreadable(l) as usize })
        } else {
            Ok(listed_entries(l))
        },
    }
}

/// `first_unreadable` points at the first `None` of the listing: every
/// entry before it is there.
pub proof fn lemma_first_unreadable(listing: Seq<Option<(Seq<char>, u32)>>)
    ensures
        0 <= first_unreadable(listing) <= listing.len(),
        forall|i: int| 0 <= i < first_unreadable(listing) ==> (#[trigger] listing[i]) is Some,
        first_unreadable(listing) < listing.len() ==> listing[first_unreadable(listing)] is None,
    decreases listing.len(),
{
    if listing.len() == 0 || listing[0] is None {
    } else {
        let rest = listing.drop_first();
        lemma_first_unreadable(rest);
        let k = first_unreadable(listing);
        assert forall|i: int| 0 <= i < k implies (#[trigger] listing[i]) is Some by {
            if i > 0 {
                assert(listing[i] == rest[i - 1]);
            }
        }
    }
}

/// The entries of the zip archive held in `bytes`, in the order of its
/// central directory.
pub fn read_entries(bytes: Vec<u8>) -> (r: Result<Vec<ArchiveEntry>, ArchiveError>)
    ensures
        match r {
            Ok(entries) => listing_outcome(zip_listing(bytes@)) == Ok::<
                Seq<EntryView>,
                ArchiveError,
            >(entry_views(entries@)),
            Err(e) => listing_outcome(zip_listing(bytes@)) == Err::<Seq<EntryView>, ArchiveError>(e),
        },
{
    let ghost given = bytes@;
    let mut archive = match open_archive(bytes) {
        Some(archive) => archive,
        None => {
            return Err(ArchiveError::Unreadable);
        },
    };
    let ghost listing = archive_entries(archive);
    let count = entry_count(&archive);
    let mut entries: Vec<ArchiveEntry> = Vec::new();
    let mut i: usize = 0;
    while i < count
        invariant
            i <= count,
            count == listing.len(),
            archive_entries(archive) == listing,
            given == bytes@,
            zip_listing(given) == Some(listing),
            entries@.len() == i,
            forall|j: int| 0 <= j < i ==> (#[trigger] listing[j]) is Some,
            forall|j: int|
                0 <= j < i ==> (#[trigger] entries@[j])@ == (EntryView {
                    name: listing[j].unwrap().0,
                    crc: listing[j].unwrap().1,
                }),
        decreases count - i,
    {
        match entry_at(&mut archive, i) {
            Some((name, crc)) => {
                entries.push(ArchiveEntry::new(name, crc));
            },
            None => {
                proof {
                    lemma_first_unreadable(listing);
                }
                return Err(ArchiveError::EntryUnreadable { index: i });
            },
        }
        i += 1;
    }
    proof {
        lemma_first_unreadable(listing);
        assert(entry_views(entries@) =~= listed_entries(listing));
    }
    Ok(entries)
}

/// Whether some entry's stored name holds the path separator `/`.
pub open spec fn nested(entries: Seq<EntryView>) -> bool {
    exists|i: int| 0 <= i < entries.len() && (#[trigger] entries[i]).name.contains('/')
}

/// Whether the archive brings its own directory layout: true exactly when
/// at least one entry name holds a path separator.
pub fn has_nested_paths(entries: &Vec<ArchiveEntry>) -> (b: bool)
    ensures
        b == nested(entry_views(entries@)),
{
    let mut i: usize = 0;
    while i < entries.len()
        invariant
            i <= entries.len(),
            forall|j: int| 0 <= j < i ==> !(#[trigger] entry_views(entries@)[j]).name.contains('/'),
        decreases entries.len() - i,
    {
        if has_char(entries[i].name().as_str(), '/') {
            assert(entry_views(entries@)[i as int].name.contains('/'));
            return true;
        }
        i += 1;
    }
    false
}

/// What a `LocalFile` stands for: a file of the target directory, by its
/// name and its bytes.
pub struct FileView {
    pub name: Seq<char>,
    pub content: Seq<u8>,
}

/// A file found in the target directory.
#[derive(Debug, PartialEq, Eq)]
pub struct LocalFile {
    name: String,
    content: Vec<u8>,
}

impl View for LocalFile {
    type V = FileView;

    closed spec fn view(&self) -> FileView {
        FileView { name: self.name@, content: self.content@ }
    }
}

impl LocalFile {
    /// The file called `name` that holds `content`.
    pub fn new(name: String, content: Vec<u8>) -> (r: Self)
        ensures
            r@ == (FileView { name: name@, content: content@ }),
    {
        LocalFile { name, content }
    }

    /// The file's name, as the directory gives it.
    pub fn name(&self) -> (r: &String)
        ensures
            r@ == self@.name,
    {
        &self.name
    }

    /// The file's bytes.
    pub fn content(&self) -> (r: &Vec<u8>)
        ensures
            r@ == self@.content,
    {
        &self.content
    }
}

/// The views of a list of local files, in order.
pub open spec fn local_views(files: Seq<LocalFile>) -> Seq<FileView> {
    Seq::new(files.len(), |i: int| files[i]@)
}

/// Whether the directory holds a file called exactly `name` whose
/// content has another CRC-32 than `crc`.
pub open spec fn clashes(dir: Seq<FileView>, name: Seq<char>, crc: u32) -> bool {
    exists|k: int|
        0 <= k < dir.len() && (#[trigger] dir[k]).name == name && crc32_ieee(dir[k].content) != crc
}

/// Whether an entry collides with the directory: a file has the entry's
/// lower-cased name and a different checksum.
pub open spec fn entry_clashes(dir: Seq<FileView>, entry: EntryView) -> bool {
    clashes(dir, ascii_lowercase(entry.name), entry.crc)
}

/// The test that keeps the entries which do not collide with `dir`.
pub open spec fn is_free(dir: Seq<FileView>) -> spec_fn(EntryView) -> bool {
    |entry: EntryView| !entry_clashes(dir, entry)
}

/// The test that keeps the entries which collide with `dir`.
pub open spec fn is_taken(dir: Seq<FileView>) -> spec_fn(EntryView) -> bool {
    |entry: EntryView| entry_clashes(dir, entry)
}

/// The map from an entry to its lower-cased name.
pub open spec fn lowered_name() -> spec_fn(EntryView) -> Seq<char> {
    |entry: EntryView| ascii_lowercase(entry.name)
}

/// The lower-cased names of the entries that can be installed, in the
/// order of the archive: those without a file of that name in `dir`, and
/// those whose file there has the entry's checksum.
pub open spec fn installable(entries: Seq<EntryView>, dir: Seq<FileView>) -> Seq<Seq<char>> {
    entries.filter(is_free(dir)).map_values(lowered_name())
}

/// The lower-cased names of the entries that collide with a file of
/// `dir`, in the order of the archive.
pub open spec fn conflicting(entries: Seq<EntryView>, dir: Seq<FileView>) -> Seq<Seq<char>> {
    entries.filter(is_taken(dir)).map_values(lowered_name())
}

/// The outcome of sorting an archive's entries against a directory.
#[derive(Debug, PartialEq, Eq)]
pub struct Classification {
    /// The lower-cased names that can be written.
    pub to_install: Vec<String>,
    /// The lower-cased names that collide with a different local file.
    pub conflicting: Vec<String>,
}

/// Whether `directory` holds a file called `name` whose CRC-32 is not `crc`.
/// A file's checksum is computed only where its name matches.
fn collides(directory: &Vec<LocalFile>, name: &String, crc: u32) -> (b: bool)
    ensures
        b == clashes(local_views(directory@), name@, crc),
{
    let mut k: usize = 0;
    while k < directory.len()
        invariant
            k <= directory.len(),
            forall|j: int|
                0 <= j < k ==> !((#[trigger] local_views(directory@)[j]).name == name@
                    && crc32_ieee(local_views(directory@)[j].content) != crc),
        decreases directory.len() - k,
    {
        let file = &directory[k];
        if *file.name() == *name {
            if checksum(file.content().as_slice()) != crc {
                assert(local_views(directory@)[k as int].name == name@);
                return true;
            }
        }
        k += 1;
    }
    false
}

/// Sorts the entries of an archive against the files of the target
/// directory. Each entry's name is lower-cased; it collides where the
/// directory holds a file of exactly that name with another checksum, and
/// can be installed otherwise.
pub fn classify_entries(entries: &Vec<ArchiveEntry>, directory: &Vec<LocalFile>) -> (r:
    Classification)
    ensures
        texts(r.to_install@) == installable(entry_views(entries@), local_views(directory@)),
        texts(r.conflicting@) == conflicting(entry_views(entries@), local_views(directory@)),
{
    let ghost all = entry_views(entries@);
    let ghost dir = local_views(directory@);
    let mut to_install: Vec<String> = Vec::new();
    let mut taken: Vec<String> = Vec::new();
    let mut i: usize = 0;
    while i < entries.len()
        invariant
            i <= entries.len(),
            all == entry_views(entries@),
            dir == local_views(directory@),
            texts(to_install@) == installable(all.take(i as int), dir),
            texts(taken@) == conflicting(all.take(i as int), dir),
        decreases entries.len() - i,
    {
        let entry = &entries[i];
        let name = lowercase(entry.name().as_str());
        let clash = collides(directory, &name, entry.crc());
        proof {
            let seen = all.take(i as int);
            seen.lemma_filter_push(entry@, is_free(dir));
            seen.lemma_filter_push(entry@, is_taken(dir));
            all.lemma_take_succ_push(i as int);
            seen.filter(is_free(dir)).lemma_push_map_commute(lowered_name(), entry@);
            seen.filter(is_taken(dir)).lemma_push_map_commute(lowered_name(), entry@);
        }
        if clash {
            taken.push(name);
        } else {
            to_install.push(name);
        }
        i += 1;
    }
    assert(all.take(i as int) =~= all);
    Classification { to_install, conflicting: taken }
}

/// What sorting an archive gives, from what the zip reader makes of its
/// bytes and from the directory: the names to install and the colliding
/// names, or the error of the listing.
pub open spec fn classification_of(
    listing: Option<Seq<Option<(Seq<char>, u32)>>>,
    dir: Seq<FileView>,
) -> Result<(Seq<Seq<char>>, Seq<Seq<char>>), ArchiveError> {
    match listing_outcome(listing) {
        Ok(entries) => Ok((installable(entries, dir), conflicting(entries, dir))),
        Err(e) => Err(e),
    }
}

/// Reads the zip archive held in `zip_bytes` and sorts its entries against
/// the files of the target directory. The directory is taken as it was
/// when it was read: nothing guards against a later change to it.
pub fn classify(zip_bytes: Vec<u8>, directory: &Vec<LocalFile>) -> (r: Result<
    Classification,
    ArchiveError,
>)
    ensures
        match r {
            Ok(c) => classification_of(zip_listing(zip_bytes@), local_views(directory@)) == Ok::<
                (Seq<Seq<char>>, Seq<Seq<char>>),
                ArchiveError,
            >((texts(c.to_install@), texts(c.conflicting@))),
            Err(e) => classification_of(zip_listing(zip_bytes@), local_views(directory@)) == Err::<
                (Seq<Seq<char>>, Seq<Seq<char>>),
                ArchiveError,
            >(e),
        },
{
    match read_entries(zip_bytes) {
        Ok(entries) => Ok(classify_entries(&entries, directory)),
        Err(e) => Err(e),
    }
}

/// Whether some entry's lower-cased name is `file_name`: whether sorting
/// the archive will look at the content of a local file of that name.
pub fn mentions(entries: &Vec<ArchiveEntry>, file_name: &String) -> (b: bool)
    ensures
        b == exists|i: int|
            0 <= i < entries@.len() && ascii_lowercase((#[trigger] entry_views(entries@)[i]).name)
                == file_name@,
{
    let mut i: usize = 0;
    while i < entries.len()
        invariant
            i <= entries.len(),
            forall|j: int|
                0 <= j < i ==> ascii_lowercase((#[trigger] entry_views(entries@)[j]).name)
                    != file_name@,
        decreases entries.len() - i,
    {
        let name = lowercase(entries[i].name().as_str());
        if name == *file_name {
            assert(ascii_lowercase(entry_views(entries@)[i as int].name) == file_name@);
            return true;
        }
        i += 1;
    }
    false
}

/// A name is among the kept and lower-cased entries exactly when some
/// entry passes the test and lower-cases to it.
pub proof fn lemma_kept_names(
    entries: Seq<EntryView>,
    keep: spec_fn(EntryView) -> bool,
    name: Seq<char>,
)
    ensures
        entries.filter(keep).map_values(lowered_name()).contains(name) <==> exists|i: int|
            0 <= i < entries.len() && keep(#[trigger] entries[i]) && ascii_lowercase(
                entries[i].name,
            ) == name,
    decreases entries.len(),
{
    let kept = entries.filter(keep).map_values(lowered_name());
    if entries.len() == 0 {
        assert(entries.filter(keep).len() <= 0) by {
            entries.lemma_filter_len(keep);
        }
        assert(kept.len() == 0);
    } else {
        let rest = entries.drop_last();
        let last = entries.last();
        lemma_kept_names(rest, keep, name);
        assert(entries =~= rest.push(last));
        rest.lemma_filter_push(last, keep);
        rest.filter(keep).lemma_push_map_commute(lowered_name(), last);
        let before = rest.filter(keep).map_values(lowered_name());
        if kept.contains(name) {
            let at = choose|at: int| 0 <= at < kept.len() && kept[at] == name;
            if keep(last) && at == kept.len() - 1 {
                assert(keep(entries[entries.len() - 1]));
            } else {
                assert(before[at] == name);
                assert(before.contains(name));
                let i = choose|i: int|
                    0 <= i < rest.len() && keep(#[trigger] rest[i]) && ascii_lowercase(rest[i].name)
                        == name;
                assert(entries[i] == rest[i]);
            }
        }
        if exists|i: int|
            0 <= i < entries.len() && keep(#[trigger] entries[i]) && ascii_lowercase(
                entries[i].name,
            ) == name {
            let i = choose|i: int|
                0 <= i < entries.len() && keep(#[trigger] entries[i]) && ascii_lowercase(
                    entries[i].name,
                ) == name;
            if i == entries.len() - 1 {
                assert(kept[kept.len() - 1] == name);
            } else {
                assert(rest[i] == entries[i]);
                assert(before.contains(name));
                let at = choose|at: int| 0 <= at < before.len() && before[at] == name;
                assert(kept[at] == name);
            }
        }
    }
}

/// Sorting is a function of the archive's bytes and of the directory as
/// it was read: the same bytes and the same files give the same outcome.
pub proof fn law_classify_deterministic(
    bytes_a: Seq<u8>,
    dir_a: Seq<FileView>,
    bytes_b: Seq<u8>,
    dir_b: Seq<FileView>,
)
    requires
        bytes_a == bytes_b,
        dir_a == dir_b,
    ensures
        classification_of(zip_listing(bytes_a), dir_a) == classification_of(
            zip_listing(bytes_b),
            dir_b,
        ),
{
}

/// Against an empty directory every entry can be installed: the names to
/// install are all the lower-cased entry names in order, and nothing collides.
pub proof fn law_empty_directory(entries: Seq<EntryView>, dir: Seq<FileView>)
    requires
        dir.len() == 0,
    ensures
        installable(entries, dir) == entries.map_values(lowered_name()),
        conflicting(entries, dir) == Seq::<Seq<char>>::empty(),
    decreases entries.len(),
{
    if entries.len() == 0 {
        entries.lemma_filter_len(is_free(dir));
        entries.lemma_filter_len(is_taken(dir));
    } else {
        let rest = entries.drop_last();
        let last = entries.last();
        law_empty_directory(rest, dir);
        assert(entries =~= rest.push(last));
        rest.lemma_filter_push(last, is_free(dir));
        rest.lemma_filter_push(last, is_taken(dir));
        rest.filter(is_free(dir)).lemma_push_map_commute(lowered_name(), last);
        rest.lemma_push_map_commute(lowered_name(), last);
    }
}

/// Whether no two files of a directory share a name.
pub open spec fn distinct_names(dir: Seq<FileView>) -> bool {
    forall|a: int, b: int|
        0 <= a < b < dir.len() ==> (#[trigger] dir[a]).name != (#[trigger] dir[b]).name
}

/// An entry whose lower-cased name is that of a local file with the same
/// checksum can be installed. Its name is not among the colliding ones
/// either, where every entry of that lower-cased name has that checksum.
pub proof fn law_same_checksum_installs(
    entries: Seq<EntryView>,
    dir: Seq<FileView>,
    i: int,
    k: int,
)
    requires
        distinct_names(dir),
        0 <= i < entries.len(),
        0 <= k < dir.len(),
        dir[k].name == ascii_lowercase(entries[i].name),
        crc32_ieee(dir[k].content) == entries[i].crc,
    ensures
        !entry_clashes(dir, entries[i]),
        installable(entries, dir).contains(ascii_lowercase(entries[i].name)),
        (forall|j: int|
            0 <= j < entries.len() && ascii_lowercase((#[trigger] entries[j]).name)
                == ascii_lowercase(entries[i].name) ==> entries[j].crc == entries[i].crc)
            ==> !conflicting(entries, dir).contains(ascii_lowercase(entries[i].name)),
{
    let name = ascii_lowercase(entries[i].name);
    assert(!clashes(dir, name, entries[i].crc)) by {
        if clashes(dir, name, entries[i].crc) {
            let m = choose|m: int|
                0 <= m < dir.len() && (#[trigger] dir[m]).name == name && crc32_ieee(dir[m].content)
                    != entries[i].crc;
            if m < k {
                assert(dir[m].name != dir[k].name);
            } else if k < m {
                assert(dir[k].name != dir[m].name);
            }
        }
    }
    lemma_kept_names(entries, is_free(dir), name);
    assert(is_free(dir)(entries[i]));
    lemma_kept_names(entries, is_taken(dir), name);
    if forall|j: int|
        0 <= j < entries.len() && ascii_lowercase((#[trigger] entries[j]).name) == name
            ==> entries[j].crc == entries[i].crc {
        if conflicting(entries, dir).contains(name) {
            let j = choose|j: int|
                0 <= j < entries.len() && is_taken(dir)(#[trigger] entries[j]) && ascii_lowercase(
                    entries[j].name,
                ) == name;
            assert(entries[j].crc == entries[i].crc);
            assert(entry_clashes(dir, entries[j]));
        }
    }
}

/// An entry whose lower-cased name is that of a local file with another
/// checksum collides: its name is among the colliding ones.
pub proof fn law_other_checksum_conflicts(
    entries: Seq<EntryView>,
    dir: Seq<FileView>,
    i: int,
    k: int,
)
    requires
        0 <= i < entries.len(),
        0 <= k < dir.len(),
        dir[k].name == ascii_lowercase(entries[i].name),
        crc32_ieee(dir[k].content) != entries[i].crc,
    ensures
        entry_clashes(dir, entries[i]),
        conflicting(entries, dir).contains(ascii_lowercase(entries[i].name)),
{
    lemma_kept_names(entries, is_taken(dir), ascii_lowercase(entries[i].name));
}

/// Every lower-cased entry name is sorted into one of the two lists, and
/// the lists hold nothing else.
pub proof fn law_every_name_sorted(entries: Seq<EntryView>, dir: Seq<FileView>, name: Seq<char>)
    ensures
        (installable(entries, dir).contains(name) || conflicting(entries, dir).contains(name))
            <==> entries.map_values(lowered_name()).contains(name),
{
    lemma_kept_names(entries, is_free(dir), name);
    lemma_kept_names(entries, is_taken(dir), name);
    let names = entries.map_values(lowered_name());
    if names.contains(name) {
        let i = choose|i: int| 0 <= i < names.len() && names[i] == name;
        assert(ascii_lowercase(entries[i].name) == name);
        assert(is_free(dir)(entries[i]) || is_taken(dir)(entries[i]));
    }
    if installable(entries, dir).contains(name) {
        let i = choose|i: int|
            0 <= i < entries.len() && is_free(dir)(#[trigger] entries[i]) && ascii_lowercase(
                entries[i].name,
            ) == name;
        assert(names[i] == name);
    }
    if conflicting(entries, dir).contains(name) {
        let i = choose|i: int|
            0 <= i < entries.len() && is_taken(dir)(#[trigger] entries[i]) && ascii_lowercase(
                entries[i].name,
            ) == name;
        assert(names[i] == name);
    }
}

/// Each entry gives one name to one of the two lists: together they are
/// as long as the archive.
pub proof fn law_lists_cover_archive(entries: Seq<EntryView>, dir: Seq<FileView>)
    ensures
        installable(entries, dir).len() + conflicting(entries, dir).len() == entries.len(),
    decreases entries.len(),
{
    if entries.len() == 0 {
        entries.lemma_filter_len(is_free(dir));
        entries.lemma_filter_len(is_taken(dir));
    } else {
        let rest = entries.drop_last();
        let last = entries.last();
        law_lists_cover_archive(rest, dir);
        assert(entries =~= rest.push(last));
        rest.lemma_filter_push(last, is_free(dir));
        rest.lemma_filter_push(last, is_taken(dir));
    }
}

/// Where entries that share a lower-cased name share their checksum, no
/// name is in both lists.
pub proof fn law_lists_disjoint(entries: Seq<EntryView>, dir: Seq<FileView>, name: Seq<char>)
    requires
        forall|i: int, j: int|
            0 <= i < entries.len() && 0 <= j < entries.len() && ascii_lowercase(
                (#[trigger] entries[i]).name,
            ) == ascii_lowercase((#[trigger] entries[j]).name) ==> entries[i].crc == entries[j].crc,
    ensures
        !(installable(entries, dir).contains(name) && conflicting(entries, dir).contains(name)),
{
    lemma_kept_names(entries, is_free(dir), name);
    lemma_kept_names(entries, is_taken(dir), name);
    if installable(entries, dir).contains(name) && conflicting(entries, dir).contains(name) {
        let i = choose|i: int|
            0 <= i < entries.len() && is_free(dir)(#[trigger] entries[i]) && ascii_lowercase(
                entries[i].name,
            ) == name;
        let j = choose|j: int|
            0 <= j < entries.len() && is_taken(dir)(#[trigger] entries[j]) && ascii_lowercase(
                entries[j].name,
            ) == name;
        assert(entries[i].crc == entries[j].crc);
        assert(entry_clashes(dir, entries[j]));
        assert(!entry_clashes(dir, entries[i]));
    }
}

} // verus!
