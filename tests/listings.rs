use explorer::listing::{format_entry, list_directory, listing_failure, sort_entries, FileEntry};

fn entry(name: &str, is_dir: bool, size: u64) -> FileEntry {
    FileEntry::new(name.to_string(), is_dir, size)
}

#[test]
fn directory_before_file() {
    let lines = list_directory(vec![entry("a", false, 10), entry("b", true, 0)]);
    assert_eq!(
        lines,
        vec![
            "Contenu du répertoire:".to_string(),
            "DIR   0B         b".to_string(),
            "FILE  10B        a".to_string(),
        ]
    );
}

#[test]
fn files_by_name() {
    for (sb, sa) in [(0u64, 0u64), (5, 5000), (1 << 40, 3)] {
        let sorted = sort_entries(vec![entry("b.txt", false, sb), entry("a.txt", false, sa)]);
        let names: Vec<&str> = sorted.iter().map(|e| e.name.as_str()).collect();
        assert_eq!(names, vec!["a.txt", "b.txt"]);
    }
}

#[test]
fn sort_mixed_entries() {
    let sorted = sort_entries(vec![
        entry("zeta", false, 1),
        entry("src", true, 4096),
        entry("Zed", false, 2),
        entry("abc", false, 3),
        entry("ab", false, 4),
        entry("docs", true, 4096),
    ]);
    let names: Vec<&str> = sorted.iter().map(|e| e.name.as_str()).collect();
    assert_eq!(names, vec!["docs", "src", "Zed", "ab", "abc", "zeta"]);
}

#[test]
fn empty_listing() {
    assert_eq!(list_directory(Vec::new()), vec!["Contenu du répertoire:".to_string()]);
}

#[test]
fn entry_line_columns() {
    assert_eq!(format_entry(&entry("big.iso", false, 1610612736)), "FILE  1.50GB     big.iso");
    assert_eq!(
        format_entry(&entry("huge", false, u64::MAX)),
        "FILE  17179869184.00GB huge"
    );
}

#[test]
fn listing_failure_message() {
    assert_eq!(
        listing_failure("permission denied"),
        "Erreur lors de la lecture du répertoire: permission denied"
    );
}
