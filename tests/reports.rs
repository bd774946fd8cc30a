use explorer::inspect::{format_time, show_file_info, EntryKind, Metadata, Stamp};

#[test]
fn report_of_regular_file() {
    let meta = Metadata {
        kind: EntryKind::File,
        size: 2048,
        created: Some(Stamp::Seconds(1700000000)),
        modified: Some(Stamp::Seconds(42)),
    };
    assert_eq!(
        show_file_info("notes.txt", &Ok(meta)),
        vec![
            "Informations sur: notes.txt".to_string(),
            "Type: Fichier".to_string(),
            "Taille: 2.00KB (2048 octets)".to_string(),
            "Créé: 1700000000".to_string(),
            "Modifié: 42".to_string(),
        ]
    );
}

#[test]
fn report_omits_missing_stamps() {
    let meta = Metadata { kind: EntryKind::Directory, size: 0, created: None, modified: None };
    assert_eq!(
        show_file_info("src", &Ok(meta)),
        vec![
            "Informations sur: src".to_string(),
            "Type: Répertoire".to_string(),
            "Taille: 0B (0 octets)".to_string(),
        ]
    );
}

#[test]
fn report_of_special_entry_before_epoch() {
    let meta = Metadata {
        kind: EntryKind::Other,
        size: 5,
        created: None,
        modified: Some(Stamp::BeforeEpoch),
    };
    assert_eq!(
        show_file_info("link", &Ok(meta)),
        vec![
            "Informations sur: link".to_string(),
            "Type: Spécial".to_string(),
            "Taille: 5B (5 octets)".to_string(),
            "Modifié: Impossible de formater la date".to_string(),
        ]
    );
}

#[test]
fn report_of_missing_entry_names_it() {
    let lines = show_file_info("nope.txt", &Err("No such file or directory".to_string()));
    assert_eq!(
        lines,
        vec!["Erreur lors de l'accès au fichier 'nope.txt': No such file or directory".to_string()]
    );
    assert!(lines[0].contains("nope.txt"));
}

#[test]
fn time_as_seconds() {
    assert_eq!(format_time(&Stamp::Seconds(0)), "0");
    assert_eq!(format_time(&Stamp::Seconds(u64::MAX)), "18446744073709551615");
    assert_eq!(format_time(&Stamp::BeforeEpoch), "Impossible de formater la date");
}
