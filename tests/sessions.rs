use explorer::arith::division;
use explorer::inspect::show_file_info;
use explorer::session::{show_help, Action, Explorer};

fn shown(a: Action) -> Vec<String> {
    match a {
        Action::Show(lines) => lines,
        _ => panic!("expected lines to show"),
    }
}

#[test]
fn bare_info_prints_usage() {
    let mut e = Explorer::new();
    assert_eq!(
        shown(e.step("info")),
        vec![
            "Usage: info <nom_fichier>".to_string(),
            "Commande inconnue: 'info'. Tapez 'help' pour de l'aide.".to_string(),
        ]
    );
    assert!(e.is_running());
}

#[test]
fn unknown_word_is_reported() {
    let mut e = Explorer::new();
    assert_eq!(
        shown(e.step("foo bar")),
        vec!["Commande inconnue: 'foo'. Tapez 'help' pour de l'aide.".to_string()]
    );
    assert_eq!(
        shown(e.step("   ")),
        vec!["Commande inconnue: ''. Tapez 'help' pour de l'aide.".to_string()]
    );
    assert!(e.is_running());
}

#[test]
fn failed_info_keeps_session() {
    let mut e = Explorer::new();
    match e.step("info missing.txt") {
        Action::Inspect(name) => {
            assert_eq!(name, "missing.txt");
            let lines = show_file_info(&name, &Err("not found".to_string()));
            assert!(lines[0].contains("missing.txt"));
        }
        _ => panic!("expected an inspection"),
    }
    assert!(e.is_running());
    assert_eq!(shown(e.step("help")), show_help());
    assert!(e.is_running());
}

#[test]
fn quit_after_other_commands() {
    let mut e = Explorer::new();
    assert!(matches!(e.step("ls"), Action::ListEntries));
    let _ = e.step("help");
    let _ = e.step("whatever");
    assert!(e.is_running());
    match e.step("quit") {
        Action::Stop(lines) => assert_eq!(lines, vec!["Au revoir!".to_string()]),
        _ => panic!("expected the loop to stop"),
    }
    assert!(!e.is_running());
}

#[test]
fn exit_stops_at_once() {
    let mut e = Explorer::new();
    assert!(matches!(e.step("exit"), Action::Stop(_)));
    assert!(!e.is_running());
}

#[test]
fn help_text() {
    let lines = show_help();
    assert_eq!(lines.len(), 5);
    assert_eq!(lines[0], "Commandes disponibles:");
    assert_eq!(lines[4], "  quit, exit  - Quitte le programme");
}

#[test]
fn division_results() {
    assert_eq!(division(10, 2), Ok(5));
    assert_eq!(division(-7, 2), Ok(-3));
    assert_eq!(division(7, -2), Ok(-3));
    assert_eq!(division(i32::MIN, 1), Ok(i32::MIN));
    assert_eq!(division(1, 0), Err("Erreur: Division par zéro".to_string()));
}
