use qinjector::game_player::{output_text, push_command_line, GamePlayer};

fn strings(list: &[&str]) -> Vec<String> {
    list.iter().map(|s| s.to_string()).collect()
}

fn player(start_map: Option<&str>, command_line: Option<&str>) -> GamePlayer {
    GamePlayer::new(
        "/usr/games/quakespasm".to_string(),
        "/games/quake".to_string(),
        "dopa".to_string(),
        start_map.map(|s| s.to_string()),
        command_line.map(|s| s.to_string()),
    )
}

#[test]
fn pack_without_command_line_is_its_own_game_directory() {
    let p = player(Some("dopa"), None);
    assert_eq!(
        p.arguments(),
        strings(&["-basedir", "/games/quake", "-game", "dopa", "+map", "dopa"])
    );
    assert_eq!(p.quake_exe(), "/usr/games/quakespasm");
    assert_eq!(p.map_id(), "dopa");
}

#[test]
fn command_line_is_split_at_blanks() {
    assert_eq!(
        player(Some("start"), Some("-hipnotic -game quoth")).arguments(),
        strings(&["-basedir", "/games/quake", "-hipnotic", "-game", "quoth", "+map", "start"])
    );
}

#[test]
fn no_start_map_means_no_map_argument() {
    assert_eq!(player(None, None).arguments(), strings(&["-basedir", "/games/quake", "-game", "dopa"]));
    assert_eq!(player(None, Some("-rogue")).arguments(), strings(&["-basedir", "/games/quake", "-rogue"]));
}

#[test]
fn doubled_blanks_give_empty_arguments() {
    let mut args = strings(&["x"]);
    push_command_line(&mut args, "a  b ");
    assert_eq!(args, strings(&["x", "a", "", "b", ""]));
    let mut none = Vec::new();
    push_command_line(&mut none, "");
    assert_eq!(none, strings(&[""]));
}

#[test]
fn output_shows_ascii_and_blanks() {
    assert_eq!(output_text(&b"Quake 1.09\n".to_vec()), "Quake 1.09\n");
    assert_eq!(output_text(&vec![b'a', 0xC3, 0xA4, 127, 128, 255, b'z']), "a  \u{7f}  z");
    assert_eq!(output_text(&Vec::new()), "");
}
