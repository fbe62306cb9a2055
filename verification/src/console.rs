//! Operator commands typed on the server console.
use vstd::prelude::*;
use vstd::slice::slice_subrange;

use crate::java::player::{gamemode_id, gamemode_name_of, GameMode};
use crate::text::{after_first_word, ascii_lower_all, chars_of, eq_lowered, first_word, string_of, trim, trim_span, word_span};

verus! {

/// A parsed console line.
#[derive(Debug, Clone, PartialEq, Eq)]
pub enum ConsoleCommand {
    Stop,
    Help,
    GameMode(GameMode),
    /// Anything else, kept as the trimmed line.
    Unknown(String),
}

/// What the console thread hands the server loop.
#[derive(Debug, Clone, PartialEq, Eq)]
pub enum Event {
    Shutdown,
    Command(ConsoleCommand),
}

/// The game mode a word names, ignoring ASCII case: its name, its first
/// letter(s) or its number.
pub open spec fn spec_parse_gamemode(word: Seq<char>) -> Option<GameMode> {
    let w = ascii_lower_all(word);
    if w == "survival"@ || w == "s"@ || w == "0"@ {
        Some(GameMode::Survival)
    } else if w == "creative"@ || w == "c"@ || w == "1"@ {
        Some(GameMode::Creative)
    } else if w == "adventure"@ || w == "a"@ || w == "2"@ {
        Some(GameMode::Adventure)
    } else if w == "spectator"@ || w == "sp"@ || w == "3"@ {
        Some(GameMode::Spectator)
    } else {
        None
    }
}

/// The short word for each game mode.
pub open spec fn gamemode_short(m: GameMode) -> Seq<char> {
    match m {
        GameMode::Survival => "s"@,
        GameMode::Creative => "c"@,
        GameMode::Adventure => "a"@,
        GameMode::Spectator => "sp"@,
    }
}

/// A game mode's wire id written as one decimal digit.
pub open spec fn gamemode_digit(m: GameMode) -> Seq<char> {
    seq![(48 + gamemode_id(m)) as char]
}

/// A word names a game mode exactly when, lowered, it is that mode's name,
/// its short word or the digit of its wire id (0 survival, 1 creative,
/// 2 adventure, 3 spectator); so no word names two modes.
pub proof fn law_gamemode_words(w: Seq<char>, m: GameMode)
    ensures
        spec_parse_gamemode(w) == Some(m) <==> (ascii_lower_all(w) == gamemode_name_of(m) || ascii_lower_all(w)
            == gamemode_short(m) || ascii_lower_all(w) == gamemode_digit(m)),
{
    reveal_strlit("survival");
    reveal_strlit("creative");
    reveal_strlit("adventure");
    reveal_strlit("spectator");
    reveal_strlit("s");
    reveal_strlit("c");
    reveal_strlit("a");
    reveal_strlit("sp");
    reveal_strlit("0");
    reveal_strlit("1");
    reveal_strlit("2");
    reveal_strlit("3");
    assert("0"@ =~= seq!['0']);
    assert("1"@ =~= seq!['1']);
    assert("2"@ =~= seq!['2']);
    assert("3"@ =~= seq!['3']);
    assert(gamemode_digit(GameMode::Survival) =~= seq!['0']);
    assert(gamemode_digit(GameMode::Creative) =~= seq!['1']);
    assert(gamemode_digit(GameMode::Adventure) =~= seq!['2']);
    assert(gamemode_digit(GameMode::Spectator) =~= seq!['3']);
    assert("survival"@.len() == 8);
    assert("creative"@.len() == 8);
    assert("adventure"@.len() == 9);
    assert("spectator"@.len() == 9);
    assert("s"@.len() == 1);
    assert("c"@.len() == 1);
    assert("a"@.len() == 1);
    assert("sp"@.len() == 2);
    assert("0"@.len() == 1);
    assert("1"@.len() == 1);
    assert("2"@.len() == 1);
    assert("3"@.len() == 1);
    assert("survival"@[0] != "creative"@[0]);
    assert("adventure"@[0] != "spectator"@[0]);
    assert("s"@[0] != "c"@[0]);
    assert("s"@[0] != "a"@[0]);
    assert("s"@[0] != "0"@[0]);
    assert("s"@[0] != "1"@[0]);
    assert("s"@[0] != "2"@[0]);
    assert("s"@[0] != "3"@[0]);
    assert("c"@[0] != "a"@[0]);
    assert("c"@[0] != "0"@[0]);
    assert("c"@[0] != "1"@[0]);
    assert("c"@[0] != "2"@[0]);
    assert("c"@[0] != "3"@[0]);
    assert("a"@[0] != "0"@[0]);
    assert("a"@[0] != "1"@[0]);
    assert("a"@[0] != "2"@[0]);
    assert("a"@[0] != "3"@[0]);
    assert("0"@[0] != "1"@[0]);
    assert("0"@[0] != "2"@[0]);
    assert("0"@[0] != "3"@[0]);
    assert("1"@[0] != "2"@[0]);
    assert("1"@[0] != "3"@[0]);
    assert("2"@[0] != "3"@[0]);
}

/// The game mode `word` names, if any.
pub fn parse_gamemode(word: &[char]) -> (r: Option<GameMode>)
    ensures
        r == spec_parse_gamemode(word@),
{
    if eq_lowered(word, "survival") || eq_lowered(word, "s") || eq_lowered(word, "0") {
        Some(GameMode::Survival)
    } else if eq_lowered(word, "creative") || eq_lowered(word, "c") || eq_lowered(word, "1") {
        Some(GameMode::Creative)
    } else if eq_lowered(word, "adventure") || eq_lowered(word, "a") || eq_lowered(word, "2") {
        Some(GameMode::Adventure)
    } else if eq_lowered(word, "spectator") || eq_lowered(word, "sp") || eq_lowered(word, "3") {
        Some(GameMode::Spectator)
    } else {
        None
    }
}

/// The command a non-blank trimmed `line` is: the first word picks it
/// (ignoring ASCII case), `gamemode` needs a game mode as second word.
pub open spec fn command_matches(line: Seq<char>, c: ConsoleCommand) -> bool {
    let w1 = ascii_lower_all(first_word(line));
    let mode = spec_parse_gamemode(first_word(after_first_word(line)));
    match c {
        ConsoleCommand::Stop => w1 == "stop"@,
        ConsoleCommand::Help => w1 == "help"@,
        ConsoleCommand::GameMode(m) => w1 == "gamemode"@ && mode == Some(m),
        ConsoleCommand::Unknown(s) => s@ == line && w1 != "stop"@ && w1 != "help"@ && !(w1 == "gamemode"@
            && mode is Some),
    }
}

/// Parses one console line; blank lines give nothing.
#[must_use]
pub fn parse(input: &str) -> (r: Option<ConsoleCommand>)
    ensures
        (trim(input@).len() == 0) == (r is None),
        r matches Some(c) ==> command_matches(trim(input@), c),
{
    let chars = chars_of(input);
    let (start, end) = trim_span(chars.as_slice());
    if start == end {
        return None;
    }
    let ghost line = trim(input@);
    let (a, b) = word_span(chars.as_slice(), start, end);
    let word = slice_subrange(chars.as_slice(), a, b);
    proof {
        reveal_strlit("stop");
        reveal_strlit("help");
        reveal_strlit("gamemode");
        assert(word@ == first_word(line));
    }
    if eq_lowered(word, "stop") {
        Some(ConsoleCommand::Stop)
    } else if eq_lowered(word, "help") {
        Some(ConsoleCommand::Help)
    } else if eq_lowered(word, "gamemode") {
        let (c, d) = word_span(chars.as_slice(), b, end);
        let arg = slice_subrange(chars.as_slice(), c, d);
        proof {
            assert(arg@ == first_word(after_first_word(line)));
        }
        match parse_gamemode(arg) {
            Some(mode) => Some(ConsoleCommand::GameMode(mode)),
            None => Some(ConsoleCommand::Unknown(string_of(chars.as_slice(), start, end))),
        }
    } else {
        Some(ConsoleCommand::Unknown(string_of(chars.as_slice(), start, end)))
    }
}

} // verus!
