use explorer::command::{parse_command, Command};

fn word_of(c: Command) -> Option<String> {
    match c {
        Command::Unknown(w) => Some(w),
        _ => None,
    }
}

#[test]
fn ls_and_list_give_list() {
    assert!(matches!(parse_command("ls"), Command::List));
    assert!(matches!(parse_command("list"), Command::List));
    assert!(matches!(parse_command("  ls  extra"), Command::List));
}

#[test]
fn blank_line_is_unknown_empty() {
    assert_eq!(word_of(parse_command("  ")), Some(String::new()));
    assert_eq!(word_of(parse_command("")), Some(String::new()));
    assert_eq!(word_of(parse_command("\t\n")), Some(String::new()));
}

#[test]
fn info_without_name_is_unknown_info() {
    assert_eq!(word_of(parse_command("info")), Some("info".to_string()));
    assert_eq!(word_of(parse_command("  info   ")), Some("info".to_string()));
}

#[test]
fn info_with_name() {
    match parse_command("info readme.txt") {
        Command::Info(n) => assert_eq!(n, "readme.txt"),
        _ => panic!("expected Info"),
    }
    match parse_command("info\ta.txt b.txt") {
        Command::Info(n) => assert_eq!(n, "a.txt"),
        _ => panic!("expected Info"),
    }
}

#[test]
fn quit_and_exit_give_quit() {
    assert!(matches!(parse_command("quit"), Command::Quit));
    assert!(matches!(parse_command("exit"), Command::Quit));
    assert!(matches!(parse_command(" exit now"), Command::Quit));
}

#[test]
fn help_gives_help() {
    assert!(matches!(parse_command("help"), Command::Help));
}

#[test]
fn other_word_is_unknown() {
    assert_eq!(word_of(parse_command("foo bar")), Some("foo".to_string()));
    assert_eq!(word_of(parse_command("LS")), Some("LS".to_string()));
    assert_eq!(word_of(parse_command("\u{3000}été\u{a0}x")), Some("été".to_string()));
}
