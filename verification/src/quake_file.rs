//! The catalogue of map packs that the remote repository offers.

use crate::text::{ascii_lowercase, contains_text, has_text, lowercase};
use vstd::prelude::*;

verus! {

/// A pack that another pack needs.
#[derive(Debug, Clone, Default, PartialEq, Eq)]
pub struct ReqFile {
    pub id: String,
}

/// The packs that a pack needs.
#[derive(Debug, Clone, Default, PartialEq, Eq)]
pub struct Requirements {
    pub req_file: Vec<ReqFile>,
}

/// How a pack is to be installed and started.
#[derive(Debug, Clone, Default, PartialEq, Eq)]
pub struct TechInfo {
    pub zip_base_dir: Option<String>,
    pub command_line: Option<String>,
    pub start_map: Vec<String>,
    pub requirements: Option<Requirements>,
}

/// One pack of the catalogue.
#[derive(Debug, Clone, Default, PartialEq, Eq)]
pub struct QuakeFile {
    pub id: String,
    pub kind: u8,
    pub rating: String,
    pub author: String,
    pub title: String,
    pub md5: String,
    pub size: String,
    pub date: String,
    pub description: String,
    pub tech_info: TechInfo,
    pub installed_locally: bool,
}

/// The whole catalogue.
#[derive(Debug, Clone, Default, PartialEq, Eq)]
pub struct Files {
    pub files: Vec<QuakeFile>,
}

/// The position of the first pack called `id` in a catalogue, or its
/// length where no pack has that identifier.
pub open spec fn index_of_file(files: Seq<QuakeFile>, id: Seq<char>) -> int
    decreases files.len(),
{
    if files.len() == 0 || files[0].id@ == id {
        0
    } else {
        1 + index_of_file(files.drop_first(), id)
    }
}

/// `index_of_file` points at the first pack called `id`: no pack before
/// it has that identifier.
pub proof fn lemma_index_of_file(files: Seq<QuakeFile>, id: Seq<char>)
    ensures
        0 <= index_of_file(files, id) <= files.len(),
        forall|i: int| 0 <= i < index_of_file(files, id) ==> (#[trigger] files[i]).id@ != id,
        index_of_file(files, id) < files.len() ==> files[index_of_file(files, id)].id@ == id,
    decreases files.len(),
{
    if files.len() > 0 && files[0].id@ != id {
        let rest = files.drop_first();
        lemma_index_of_file(rest, id);
        let k = index_of_file(files, id);
        assert forall|i: int| 0 <= i < k implies (#[trigger] files[i]).id@ != id by {
            if i > 0 {
                assert(files[i] == rest[i - 1]);
            }
        }
    }
}

/// The position of the first pack called `id`, or the number of packs
/// where none has that identifier.
pub fn find_file(files: &Vec<QuakeFile>, id: &String) -> (r: usize)
    ensures
        r == index_of_file(files@, id@),
        r <= files@.len(),
{
    let mut i: usize = 0;
    while i < files.len() && files[i].id != *id
        invariant
            i <= files.len(),
            forall|j: int| 0 <= j < i ==> (#[trigger] files@[j]).id@ != id@,
        decreases files.len() - i,
    {
        i += 1;
    }
    proof {
        lemma_index_of_file(files@, id@);
    }
    i
}

/// Whether `two` occurs in `one`, letter case of ASCII letters apart.
pub open spec fn text_matches(one: Seq<char>, two: Seq<char>) -> bool {
    contains_text(ascii_lowercase(one), ascii_lowercase(two))
}

/// Whether `two` occurs in `one`, letter case of ASCII letters apart.
pub fn compare_text(one: &String, two: &String) -> (b: bool)
    ensures
        b == text_matches(one@, two@),
{
    let lc_one = lowercase(one.as_str());
    let lc_two = lowercase(two.as_str());
    has_text(lc_one.as_str(), lc_two.as_str())
}

/// Whether a pack passes the list's filter: whether the filter text
/// occurs in its identifier, its title, its author or its date.
pub open spec fn passes_filter(file: QuakeFile, text: Seq<char>) -> bool {
    text_matches(file.id@, text) || text_matches(file.title@, text) || text_matches(
        file.author@,
        text,
    ) || text_matches(file.date@, text)
}

/// Whether a pack passes the list's filter.
pub fn matches_filter(file: &QuakeFile, text: &String) -> (b: bool)
    ensures
        b == passes_filter(*file, text@),
{
    let valid_id = compare_text(&file.id, text);
    let valid_title = compare_text(&file.title, text);
    let valid_author = compare_text(&file.author, text);
    let valid_date = compare_text(&file.date, text);
    valid_id || valid_title || valid_author || valid_date
}

} // verus!
