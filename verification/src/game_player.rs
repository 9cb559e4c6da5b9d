//! Starting the engine on an installed map pack: the command line.

use crate::text::{pieces, push_char, split_on, texts};
use vstd::prelude::*;

verus! {

/// What a `GamePlayer` stands for.
pub struct GamePlayerView {
    pub quake_exe: Seq<char>,
    pub quake_dir: Seq<char>,
    pub map_id: Seq<char>,
    pub start_map: Option<Seq<char>>,
    pub command_line: Option<Seq<char>>,
}

/// One start of the engine on a map pack.
#[derive(Debug, PartialEq, Eq)]
pub struct GamePlayer {
    quake_exe: String,
    quake_dir: String,
    map_id: String,
    start_map: Option<String>,
    command_line: Option<String>,
}

impl View for GamePlayer {
    type V = GamePlayerView;

    closed spec fn view(&self) -> GamePlayerView {
        GamePlayerView {
            quake_exe: self.quake_exe@,
            quake_dir: self.quake_dir@,
            map_id: self.map_id@,
            start_map: match self.start_map {
                Some(map) => Some(map@),
                None => None,
            },
            command_line: match self.command_line {
                Some(line) => Some(line@),
                None => None,
            },
        }
    }
}

/// The arguments that select what the engine loads: the pieces of the
/// pack's own command line, split at single spaces, where it has one;
/// else the pack's directory as the game directory.
pub open spec fn game_arguments(map_id: Seq<char>, command_line: Option<Seq<char>>) -> Seq<
    Seq<char>,
> {
    match command_line {
        Some(line) => pieces(line, ' '),
        None => seq!["-game"@, map_id],
    }
}

/// The arguments that name the level to start, where one is given.
pub open spec fn level_arguments(start_map: Option<Seq<char>>) -> Seq<Seq<char>> {
    match start_map {
        Some(map) => seq!["+map"@, map],
        None => Seq::empty(),
    }
}

/// The arguments that the engine is started with: its base directory,
/// then what selects the pack, then the level to start.
pub open spec fn arguments_of(player: GamePlayerView) -> Seq<Seq<char>> {
    seq!["-basedir"@, player.quake_dir] + game_arguments(player.map_id, player.command_line)
        + level_arguments(player.start_map)
}

/// Appends the pieces of `line`, split at single spaces, to `args`.
pub fn push_command_line(args: &mut Vec<String>, line: &str)
    ensures
        texts(final(args)@) == texts(old(args)@) + pieces(line@, ' '),
{
    let parts = split_on(line, ' ');
    let ghost before = texts(args@);
    let mut i: usize = 0;
    while i < parts.len()
        invariant
            i <= parts.len(),
            texts(parts@) == pieces(line@, ' '),
            texts(args@) == before + texts(parts@).take(i as int),
        decreases parts.len() - i,
    {
        let ghost prev = texts(args@);
        args.push(parts[i].clone());
        assert(texts(args@) =~= prev.push(parts@[i as int]@));
        i += 1;
    }
}

impl GamePlayer {
    /// The start of the engine `quake_exe` on the pack `map_id` in the
    /// game directory `quake_dir`.
    pub fn new(
        quake_exe: String,
        quake_dir: String,
        map_id: String,
        start_map: Option<String>,
        command_line: Option<String>,
    ) -> (r: Self)
        ensures
            r@ == (GamePlayerView {
                quake_exe: quake_exe@,
                quake_dir: quake_dir@,
                map_id: map_id@,
                start_map: match start_map {
                    Some(map) => Some(map@),
                    None => None,
                },
                command_line: match command_line {
                    Some(line) => Some(line@),
                    None => None,
                },
            }),
    {
        GamePlayer { quake_exe, quake_dir, map_id, start_map, command_line }
    }

    /// The engine's executable.
    pub fn quake_exe(&self) -> (r: &String)
        ensures
            r@ == self@.quake_exe,
    {
        &self.quake_exe
    }

    /// The pack's identifier.
    pub fn map_id(&self) -> (r: &String)
        ensures
            r@ == self@.map_id,
    {
        &self.map_id
    }

    /// The arguments to start the engine with.
    pub fn arguments(&self) -> (r: Vec<String>)
        ensures
            texts(r@) == arguments_of(self@),
    {
        let mut args: Vec<String> = Vec::new();
        args.push("-basedir".to_owned());
        args.push(self.quake_dir.clone());
        assert(texts(args@) =~= seq!["-basedir"@, self@.quake_dir]);
        match &self.command_line {
            Some(line) => {
                push_command_line(&mut args, line.as_str());
            },
            None => {
                args.push("-game".to_owned());
                args.push(self.map_id.clone());
                assert(texts(args@) =~= seq!["-basedir"@, self@.quake_dir] + seq![
                    "-game"@,
                    self@.map_id,
                ]);
            },
        }
        match &self.start_map {
            Some(map) => {
                args.push("+map".to_owned());
                args.push(map.clone());
            },
            None => {},
        }
        args
    }
}

/// The character shown for one byte of the engine's output: the byte's
/// own character where it is ASCII, a blank otherwise.
pub open spec fn shown_char(byte: u8) -> char {
    if byte < 128 {
        byte as char
    } else {
        ' '
    }
}

/// The engine's output as text: each byte by its own character where it
/// is ASCII, by a blank otherwise.
pub fn output_text(stdout: &Vec<u8>) -> (r: String)
    ensures
        r@ == Seq::new(stdout@.len(), |i: int| shown_char(stdout@[i])),
{
    let mut text = String::new();
    let mut i: usize = 0;
    while i < stdout.len()
        invariant
            i <= stdout.len(),
            text@.len() == i,
            forall|j: int| 0 <= j < i ==> text@[j] == shown_char(stdout@[j]),
        decreases stdout.len() - i,
    {
        let byte = stdout[i];
        let c = if byte < 128 {
            byte as char
        } else {
            ' '
        };
        push_char(&mut text, c);
        i += 1;
    }
    text
}

} // verus!
