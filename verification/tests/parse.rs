use mostlybot::command::Command;
use mostlybot::parse::CommandParseResult;
use mostlybot::parse::PREFIX;

fn valid(name: &str, args: &[&str]) -> CommandParseResult {
    CommandParseResult::ValidCommand(
        name.to_string(),
        args.iter().map(|arg| arg.to_string()).collect(),
    )
}

#[test]
fn prefix_is_the_exclamation_mark() {
    assert_eq!(PREFIX, '!');
}

#[test]
fn parses_a_command_without_arguments() {
    assert_eq!(Command::parse("!ping"), valid("ping", &[]));
}

#[test]
fn parses_a_command_with_arguments() {
    assert_eq!(Command::parse("!ping foo bar"), valid("ping", &["foo", "bar"]));
}

#[test]
fn text_without_prefix_is_not_a_command() {
    assert_eq!(Command::parse("ping"), CommandParseResult::NotACommand);
    assert_eq!(Command::parse("ping !pong"), CommandParseResult::NotACommand);
}

#[test]
fn prefix_alone_is_invalid() {
    assert_eq!(Command::parse("!"), CommandParseResult::InvalidCommand);
    assert_eq!(Command::parse("!!!"), CommandParseResult::InvalidCommand);
    // the name is the first word: a blank behind the prefix leaves it empty
    assert_eq!(Command::parse("! ping"), CommandParseResult::InvalidCommand);
}

#[test]
fn name_with_other_characters_is_invalid() {
    assert_eq!(Command::parse("!pi$ng"), CommandParseResult::InvalidCommand);
    assert_eq!(Command::parse("!ping$@"), CommandParseResult::InvalidCommand);
    assert_eq!(Command::parse("!ko-fi"), CommandParseResult::InvalidCommand);
    assert_eq!(Command::parse("!ping!"), CommandParseResult::InvalidCommand);
}

#[test]
fn empty_and_blank_text_is_not_a_command() {
    assert_eq!(Command::parse(""), CommandParseResult::NotACommand);
    assert_eq!(Command::parse("   "), CommandParseResult::NotACommand);
    assert_eq!(Command::parse(" \t\r\n"), CommandParseResult::NotACommand);
}

#[test]
fn white_space_around_and_between_is_dropped() {
    assert_eq!(Command::parse("  !ping    "), valid("ping", &[]));
    assert_eq!(Command::parse("\t!ping \t foo\u{a0}\u{3000}bar \n"), valid("ping", &["foo", "bar"]));
}

#[test]
fn names_may_hold_letters_numbers_and_underscores() {
    assert_eq!(Command::parse("!bot_time"), valid("bot_time", &[]));
    assert_eq!(Command::parse("!ping2"), valid("ping2", &[]));
    assert_eq!(Command::parse("!_"), valid("_", &[]));
    assert_eq!(Command::parse("!größe ß"), valid("größe", &["ß"]));
    assert_eq!(Command::parse("!٣"), valid("٣", &[]));
}

#[test]
fn case_is_kept() {
    assert_eq!(Command::parse("!Ping"), valid("Ping", &[]));
    assert_ne!(Command::parse("!Ping"), Command::parse("!ping"));
}

#[test]
fn every_leading_prefix_is_stripped() {
    assert_eq!(Command::parse("!!ping"), valid("ping", &[]));
    assert_eq!(Command::parse("!!!ping !x"), valid("ping", &["!x"]));
}

#[test]
fn arguments_are_not_checked() {
    assert_eq!(Command::parse("!ban @user $%&"), valid("ban", &["@user", "$%&"]));
}
