use kodapa::command::{is_whitespace_char, parse_message, Command, Emoji};

fn added(command: Command) -> (String, String) {
    match command {
        Command::Add(point) => (point.title().clone(), point.adder().clone()),
        other => panic!("not an Add: {:?}", other),
    }
}

#[test]
fn add_takes_what_follows_the_prefix_as_title() {
    let (title, adder) = added(parse_message("!add Bring snacks", "alice"));
    assert_eq!(title, "Bring snacks");
    assert_eq!(adder, "alice");
}

#[test]
fn add_with_nothing_behind_the_space_has_an_empty_title() {
    let (title, adder) = added(parse_message("!add ", "alice"));
    assert_eq!(title, "");
    assert_eq!(adder, "alice");
}

#[test]
fn add_keeps_every_character_of_the_title() {
    let (title, _) = added(parse_message("!add  two  spaces ", "bob"));
    assert_eq!(title, " two  spaces ");
    let (title, _) = added(parse_message("!add sm\u{f6}rg\u{e5}s \u{1f44d}", "bob"));
    assert_eq!(title, "sm\u{f6}rg\u{e5}s \u{1f44d}");
    let (title, _) = added(parse_message("!add !add x", "bob"));
    assert_eq!(title, "!add x");
}

#[test]
fn add_needs_its_space() {
    assert!(matches!(parse_message("!add", "alice"), Command::Unrecognized));
    assert!(matches!(parse_message("!addx", "alice"), Command::Unrecognized));
    assert!(matches!(parse_message("!add\tmilk", "alice"), Command::Unrecognized));
}

#[test]
fn agenda_clear_and_help_are_read_by_the_first_token() {
    assert!(matches!(parse_message("!agenda", "alice"), Command::ShowAgenda));
    assert!(matches!(parse_message("!agenda please", "alice"), Command::ShowAgenda));
    assert!(matches!(parse_message("!agenda\n", "alice"), Command::ShowAgenda));
    assert!(matches!(parse_message("!help", "alice"), Command::Help));
    assert!(matches!(parse_message("!help me", "alice"), Command::Help));
    assert!(matches!(parse_message("!help\u{a0}me", "alice"), Command::Help));
    match parse_message("!clear", "bob") {
        Command::Clear { sender } => assert_eq!(sender, "bob"),
        other => panic!("not a Clear: {:?}", other),
    }
    match parse_message("!clear now", "carol") {
        Command::Clear { sender } => assert_eq!(sender, "carol"),
        other => panic!("not a Clear: {:?}", other),
    }
}

#[test]
fn the_token_has_to_match_exactly() {
    assert!(matches!(parse_message("!agendas", "alice"), Command::Unrecognized));
    assert!(matches!(parse_message("!agend", "alice"), Command::Unrecognized));
    assert!(matches!(parse_message("!clearall", "alice"), Command::Unrecognized));
    assert!(matches!(parse_message("!helpme", "alice"), Command::Unrecognized));
    assert!(matches!(parse_message("!", "alice"), Command::Unrecognized));
    assert!(matches!(parse_message("!something-unknown", "alice"), Command::Unrecognized));
    assert!(matches!(parse_message("! agenda", "alice"), Command::Unrecognized));
}

#[test]
fn commands_are_in_lower_case() {
    assert!(matches!(parse_message("!ADD milk", "alice"), Command::Unrecognized));
    assert!(matches!(parse_message("!Agenda", "alice"), Command::Unrecognized));
    assert!(matches!(parse_message("!CLEAR", "alice"), Command::Unrecognized));
    assert!(matches!(parse_message("!Help", "alice"), Command::Unrecognized));
}

#[test]
fn text_without_the_mark_is_no_command() {
    assert!(matches!(parse_message("", "alice"), Command::NotACommand));
    assert!(matches!(parse_message("hello", "alice"), Command::NotACommand));
    assert!(matches!(parse_message("add milk", "alice"), Command::NotACommand));
    assert!(matches!(parse_message(" !add milk", "alice"), Command::NotACommand));
    assert!(matches!(parse_message(" !agenda", "alice"), Command::NotACommand));
    assert!(matches!(parse_message("please !help", "alice"), Command::NotACommand));
}

#[test]
fn parsing_is_repeatable() {
    for message in ["!add x", "!agenda", "!clear", "!help", "!what", "chat"] {
        let first = format!("{:?}", parse_message(message, "alice"));
        let second = format!("{:?}", parse_message(message, "alice"));
        assert_eq!(first, second);
    }
}

#[test]
fn white_space_is_what_unicode_says() {
    for c in [' ', '\t', '\n', '\u{b}', '\u{c}', '\r', '\u{85}', '\u{a0}', '\u{1680}', '\u{2000}',
        '\u{2005}', '\u{200a}', '\u{2028}', '\u{2029}', '\u{202f}', '\u{205f}', '\u{3000}']
    {
        assert!(is_whitespace_char(c), "{:?}", c);
    }
    for c in ['a', '!', '\u{8}', '\u{e}', '\u{1f}', '\u{200b}', '\u{180e}', '\u{feff}', '\u{2060}'] {
        assert!(!is_whitespace_char(c), "{:?}", c);
    }
}

#[test]
fn white_space_agrees_with_std_on_every_character() {
    let mut c = '\u{0}';
    loop {
        assert_eq!(is_whitespace_char(c), c.is_whitespace(), "{:?}", c);
        if c == '\u{ffff}' {
            break;
        }
        c = char::from_u32(c as u32 + 1).unwrap_or('\u{e000}');
    }
}

#[test]
fn marks_follow_the_command() {
    assert_eq!(parse_message("!add milk", "alice").emoji(), Some(Emoji::Okay));
    assert_eq!(parse_message("!clear", "alice").emoji(), Some(Emoji::Okay));
    assert_eq!(parse_message("!agenda", "alice").emoji(), None);
    assert_eq!(parse_message("!help", "alice").emoji(), None);
    assert_eq!(parse_message("!what", "alice").emoji(), Some(Emoji::Confused));
    assert_eq!(parse_message("what", "alice").emoji(), Some(Emoji::Error));
}
