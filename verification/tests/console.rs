use spironmc::console::{parse, ConsoleCommand};
use spironmc::java::player::GameMode;

#[test]
fn parses_stop() {
    assert_eq!(parse("stop"), Some(ConsoleCommand::Stop));
    assert_eq!(parse("  STOP  "), Some(ConsoleCommand::Stop));
}

#[test]
fn parses_help() {
    assert_eq!(parse("help"), Some(ConsoleCommand::Help));
    assert_eq!(parse("Help"), Some(ConsoleCommand::Help));
}

#[test]
fn ignores_blank_lines() {
    assert_eq!(parse(""), None);
    assert_eq!(parse("   "), None);
}

#[test]
fn parses_gamemode() {
    assert_eq!(parse("gamemode creative"), Some(ConsoleCommand::GameMode(GameMode::Creative)));
    assert_eq!(parse("gamemode 0"), Some(ConsoleCommand::GameMode(GameMode::Survival)));
    assert_eq!(parse("GAMEMODE SP"), Some(ConsoleCommand::GameMode(GameMode::Spectator)));
    assert_eq!(parse("gamemode nope"), Some(ConsoleCommand::Unknown("gamemode nope".to_owned())));
    assert_eq!(parse("gamemode"), Some(ConsoleCommand::Unknown("gamemode".to_owned())));
}

#[test]
fn keeps_unknown_input() {
    assert_eq!(parse("restart now"), Some(ConsoleCommand::Unknown("restart now".to_owned())));
}

#[test]
fn unicode_whitespace_separates_and_trims() {
    assert_eq!(parse("\u{3000}gamemode\u{a0}a\t"), Some(ConsoleCommand::GameMode(GameMode::Adventure)));
    assert_eq!(parse("\u{2028}\u{85}"), None);
    assert_eq!(parse("  stopnow "), Some(ConsoleCommand::Unknown("stopnow".to_owned())));
}
