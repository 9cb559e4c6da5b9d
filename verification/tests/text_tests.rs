use qinjector::text::{
    followed_by, has_char, has_suffix, has_text, join_path, split_on, to_chars, without_last,
};

fn strings(list: &[&str]) -> Vec<String> {
    list.iter().map(|s| s.to_string()).collect()
}

#[test]
fn characters_come_in_order() {
    assert_eq!(to_chars("aä/"), vec!['a', 'ä', '/']);
    assert_eq!(to_chars(""), Vec::<char>::new());
}

#[test]
fn single_characters_are_found() {
    assert!(has_char("maps/e1m1.bsp", '/'));
    assert!(has_char("/", '/'));
    assert!(!has_char("e1m1.bsp", '/'));
    assert!(!has_char("", '/'));
}

#[test]
fn texts_are_found_anywhere() {
    assert!(has_text("e1m1.bsp", "bsp"));
    assert!(has_text("bsplist.txt", "bsp"));
    assert!(has_text("abc", "abc"));
    assert!(has_text("abc", ""));
    assert!(has_text("aab", "ab"));
    assert!(!has_text("abc", "abcd"));
    assert!(!has_text("abc", "ac"));
    assert!(!has_text("", "a"));
}

#[test]
fn suffixes_are_found_at_the_end_only() {
    assert!(has_suffix("e1m1.bsp", ".bsp"));
    assert!(has_suffix(".bsp", ".bsp"));
    assert!(has_suffix("x", ""));
    assert!(!has_suffix("e1m1.bsp.txt", ".bsp"));
    assert!(!has_suffix("bsp", ".bsp"));
    assert!(!has_suffix("e1m1.BSP", ".bsp"));
}

#[test]
fn last_characters_are_cut() {
    assert_eq!(without_last("e1m1.bsp", 4), "e1m1");
    assert_eq!(without_last("äöü", 1), "äö");
    assert_eq!(without_last("abc", 0), "abc");
    assert_eq!(without_last("abc", 3), "");
}

#[test]
fn texts_are_joined() {
    assert_eq!(followed_by("map ", "start"), "map start");
    assert_eq!(followed_by("", ""), "");
    assert_eq!(join_path("/games/quake", "dopa"), "/games/quake/dopa");
    assert_eq!(join_path("", ""), "/");
}

#[test]
fn split_keeps_empty_pieces() {
    assert_eq!(split_on("-game quoth", ' '), strings(&["-game", "quoth"]));
    assert_eq!(split_on("a  b", ' '), strings(&["a", "", "b"]));
    assert_eq!(split_on(" a ", ' '), strings(&["", "a", ""]));
    assert_eq!(split_on("abc", ' '), strings(&["abc"]));
    assert_eq!(split_on("", ' '), strings(&[""]));
    assert_eq!(split_on(" ", ' '), strings(&["", ""]));
    assert_eq!(split_on("ä ö", ' '), strings(&["ä", "ö"]));
}

#[test]
fn split_agrees_with_the_standard_split() {
    for text in ["", " ", "a", "a b", "  a  b  ", "-hipnotic -game quoth +skill 3"] {
        let expected: Vec<String> = text.split(' ').map(|s| s.to_string()).collect();
        assert_eq!(split_on(text, ' '), expected);
    }
}
