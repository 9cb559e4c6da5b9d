use qinjector::archive::{
    classify, classify_entries, has_nested_paths, mentions, read_entries, ArchiveEntry,
    ArchiveError, Classification, LocalFile,
};
use std::io::Write;

fn names(list: &[&str]) -> Vec<String> {
    list.iter().map(|s| s.to_string()).collect()
}

fn zip_of(entries: &[(&str, &[u8])]) -> Vec<u8> {
    let mut writer = zip::ZipWriter::new(std::io::Cursor::new(Vec::new()));
    let options =
        zip::write::FileOptions::default().compression_method(zip::CompressionMethod::Stored);
    for (name, content) in entries {
        writer.start_file(*name, options).unwrap();
        writer.write_all(content).unwrap();
    }
    writer.finish().unwrap().into_inner()
}

fn entry(name: &str, crc: u32) -> ArchiveEntry {
    ArchiveEntry::new(name.to_string(), crc)
}

fn file(name: &str, content: &[u8]) -> LocalFile {
    LocalFile::new(name.to_string(), content.to_vec())
}

// Four bytes whose CRC-32 is 0x5678EF01, and four whose CRC-32 is 0x1234ABCD.
const CONTENT_5678EF01: [u8; 4] = [127, 58, 171, 117];
const CONTENT_1234ABCD: [u8; 4] = [83, 243, 182, 67];

#[test]
fn empty_directory_installs_every_lowercased_name() {
    let bytes = zip_of(&[("MAP1.BSP", b"level"), ("readme.txt", b"read me")]);
    let sorted = classify(bytes, &Vec::new()).unwrap();
    assert_eq!(sorted.to_install, names(&["map1.bsp", "readme.txt"]));
    assert!(sorted.conflicting.is_empty());
}

#[test]
fn different_checksum_conflicts() {
    let entries = vec![entry("readme.txt", 0x1234ABCD)];
    let directory = vec![file("readme.txt", &CONTENT_5678EF01)];
    let sorted = classify_entries(&entries, &directory);
    assert_eq!(sorted.conflicting, names(&["readme.txt"]));
    assert!(sorted.to_install.is_empty());
}

#[test]
fn same_checksum_installs() {
    let entries = vec![entry("readme.txt", 0x1234ABCD)];
    let directory = vec![file("readme.txt", &CONTENT_1234ABCD)];
    let sorted = classify_entries(&entries, &directory);
    assert_eq!(sorted.to_install, names(&["readme.txt"]));
    assert!(sorted.conflicting.is_empty());
}

#[test]
fn identical_file_is_installed_again() {
    let bytes = zip_of(&[("README.TXT", b"the same bytes")]);
    let directory = vec![file("readme.txt", b"the same bytes")];
    let sorted = classify(bytes, &directory).unwrap();
    assert_eq!(sorted.to_install, names(&["readme.txt"]));
    assert!(sorted.conflicting.is_empty());
}

#[test]
fn changed_file_conflicts() {
    let bytes = zip_of(&[("README.TXT", b"from the archive"), ("map.bsp", b"level")]);
    let directory = vec![file("readme.txt", b"edited locally"), file("other.txt", b"x")];
    let sorted = classify(bytes, &directory).unwrap();
    assert_eq!(sorted.to_install, names(&["map.bsp"]));
    assert_eq!(sorted.conflicting, names(&["readme.txt"]));
}

#[test]
fn local_name_is_compared_as_it_is() {
    // The entry's name is lower-cased, the local file's name is not.
    let entries = vec![entry("ReadMe.txt", 0x1234ABCD)];
    let directory = vec![file("ReadMe.txt", &CONTENT_5678EF01)];
    let sorted = classify_entries(&entries, &directory);
    assert_eq!(sorted.to_install, names(&["readme.txt"]));
    assert!(sorted.conflicting.is_empty());
}

#[test]
fn non_ascii_letters_keep_their_case() {
    let entries = vec![entry("ÄB.TXT", 1)];
    let sorted = classify_entries(&entries, &Vec::new());
    assert_eq!(sorted.to_install, names(&["Äb.txt"]));
}

#[test]
fn every_name_lands_in_exactly_one_list() {
    let entries = vec![entry("A.txt", 0x1234ABCD), entry("b.txt", 7), entry("C.TXT", 0x5678EF01)];
    let directory = vec![
        file("a.txt", &CONTENT_5678EF01),
        file("c.txt", &CONTENT_5678EF01),
        file("d.txt", b"unrelated"),
    ];
    let sorted = classify_entries(&entries, &directory);
    assert_eq!(
        sorted,
        Classification { to_install: names(&["b.txt", "c.txt"]), conflicting: names(&["a.txt"]) }
    );
}

#[test]
fn classify_is_deterministic() {
    let bytes = zip_of(&[("MAP1.BSP", b"level"), ("readme.txt", b"read me")]);
    let directory = vec![file("readme.txt", b"something else")];
    let first = classify(bytes.clone(), &directory);
    let second = classify(bytes, &directory);
    assert_eq!(first, second);
    assert_eq!(first.unwrap().conflicting, names(&["readme.txt"]));
}

#[test]
fn entries_come_in_archive_order_with_stored_checksums() {
    let bytes = zip_of(&[("b.txt", b"123456789"), ("A.TXT", b"hello")]);
    let entries = read_entries(bytes).unwrap();
    assert_eq!(entries, vec![entry("b.txt", 0xCBF43926), entry("A.TXT", 0x3610A686)]);
    assert_eq!(entries[1].name(), "A.TXT");
    assert_eq!(entries[1].crc(), 0x3610A686);
}

#[test]
fn empty_archive_has_no_entries() {
    let bytes = zip_of(&[]);
    assert_eq!(read_entries(bytes), Ok(Vec::new()));
}

#[test]
fn bytes_that_are_no_archive_are_unreadable() {
    assert_eq!(read_entries(b"this is no zip archive at all".to_vec()), Err(ArchiveError::Unreadable));
    assert_eq!(read_entries(Vec::new()), Err(ArchiveError::Unreadable));
    assert_eq!(classify(vec![1, 2, 3], &Vec::new()), Err(ArchiveError::Unreadable));
}

#[test]
fn broken_local_header_names_the_entry() {
    let mut bytes = zip_of(&[("first.txt", b"one"), ("second.txt", b"two")]);
    // The second local header begins after the first one: 30 bytes of
    // header, the name and the stored content.
    let second = 30 + "first.txt".len() + 3;
    assert_eq!(&bytes[second..second + 4], &[0x50, 0x4b, 0x03, 0x04]);
    bytes[second] = 0;
    assert_eq!(read_entries(bytes.clone()), Err(ArchiveError::EntryUnreadable { index: 1 }));
    assert_eq!(classify(bytes, &Vec::new()), Err(ArchiveError::EntryUnreadable { index: 1 }));
}

#[test]
fn nested_paths_are_seen() {
    let nested = vec![entry("textures/wall.wad", 1), entry("maps/e1m1.bsp", 2)];
    assert!(has_nested_paths(&nested));
    let one_nested = vec![entry("readme.txt", 1), entry("maps/e1m1.bsp", 2)];
    assert!(has_nested_paths(&one_nested));
}

#[test]
fn flat_names_are_not_nested() {
    let flat = vec![entry("MAP1.BSP", 1), entry("readme.txt", 2)];
    assert!(!has_nested_paths(&flat));
    assert!(!has_nested_paths(&Vec::new()));
    let backslash = vec![entry("maps\\e1m1.bsp", 1)];
    assert!(!has_nested_paths(&backslash));
}

#[test]
fn mentions_looks_at_lowercased_names() {
    let entries = vec![entry("MAP1.BSP", 1), entry("readme.txt", 2)];
    assert!(mentions(&entries, &"map1.bsp".to_string()));
    assert!(mentions(&entries, &"readme.txt".to_string()));
    assert!(!mentions(&entries, &"MAP1.BSP".to_string()));
    assert!(!mentions(&entries, &"other.txt".to_string()));
}

#[test]
fn local_file_keeps_its_fields() {
    let f = file("readme.txt", b"abc");
    assert_eq!(f.name(), "readme.txt");
    assert_eq!(f.content(), &b"abc".to_vec());
}
