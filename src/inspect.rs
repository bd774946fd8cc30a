use vstd::prelude::*;

use crate::size::{format_size, size_text};
use crate::text::{decimal, decimal_string, joined, texts};

verus! {

pub const INFO_TITLE: &'static str = "Informations sur: ";

pub const TYPE_LABEL: &'static str = "Type: ";

pub const DIRECTORY_WORD: &'static str = "Répertoire";

pub const FILE_WORD: &'static str = "Fichier";

pub const SPECIAL_WORD: &'static str = "Spécial";

pub const SIZE_LABEL: &'static str = "Taille: ";

pub const BYTES_OPEN: &'static str = " (";

pub const BYTES_CLOSE: &'static str = " octets)";

pub const CREATED_LABEL: &'static str = "Créé: ";

pub const MODIFIED_LABEL: &'static str = "Modifié: ";

pub const TIME_FAILURE: &'static str = "Impossible de formater la date";

pub const ACCESS_FAILURE: &'static str = "Erreur lors de l'accès au fichier '";

pub const ACCESS_FAILURE_CAUSE: &'static str = "': ";

/// How an entry is classified.
pub enum EntryKind {
    Directory,
    File,
    /// Neither a directory nor a regular file (a link, a device, ...).
    Other,
}

/// A timestamp, measured from the Unix epoch.
pub enum Stamp {
    /// Whole seconds elapsed since the epoch.
    Seconds(u64),
    /// The time lies before the epoch.
    BeforeEpoch,
}

/// What the operating system reports of one entry. A timestamp that the
/// platform does not provide is `None`.
pub struct Metadata {
    pub kind: EntryKind,
    pub size: u64,
    pub created: Option<Stamp>,
    pub modified: Option<Stamp>,
}

/// The word that names a kind of entry.
pub open spec fn kind_word(k: EntryKind) -> Seq<char> {
    match k {
        EntryKind::Directory => DIRECTORY_WORD@,
        EntryKind::File => FILE_WORD@,
        EntryKind::Other => SPECIAL_WORD@,
    }
}

/// How a timestamp is shown: its seconds, or a notice where it cannot be.
pub open spec fn stamp_text(t: Stamp) -> Seq<char> {
    match t {
        Stamp::Seconds(n) => decimal(n as nat),
        Stamp::BeforeEpoch => TIME_FAILURE@,
    }
}

/// The line for an optional timestamp: none when it is absent.
pub open spec fn stamp_lines(label: Seq<char>, t: Option<Stamp>) -> Seq<Seq<char>> {
    match t {
        Some(t) => seq![label + stamp_text(t)],
        None => seq![],
    }
}

/// The report on one entry: its name, type, size, then each timestamp that
/// is known; or, where its metadata could not be had, one line naming the
/// entry and the cause.
pub open spec fn info_report(name: Seq<char>, meta: Result<Metadata, String>) -> Seq<Seq<char>> {
    match meta {
        Ok(m) => seq![
            INFO_TITLE@ + name,
            TYPE_LABEL@ + kind_word(m.kind),
            SIZE_LABEL@ + size_text(m.size as nat) + BYTES_OPEN@ + decimal(m.size as nat)
                + BYTES_CLOSE@,
        ] + stamp_lines(CREATED_LABEL@, m.created) + stamp_lines(MODIFIED_LABEL@, m.modified),
        Err(cause) => seq![ACCESS_FAILURE@ + name + ACCESS_FAILURE_CAUSE@ + cause@],
    }
}

/// Shows a timestamp as its seconds since the epoch.
pub fn format_time(t: &Stamp) -> (r: String)
    ensures
        r@ == stamp_text(*t),
{
    match t {
        Stamp::Seconds(n) => decimal_string(*n),
        Stamp::BeforeEpoch => TIME_FAILURE.to_owned(),
    }
}

fn push_stamp(lines: &mut Vec<String>, label: &str, t: &Option<Stamp>)
    ensures
        texts(final(lines)@) =~= texts(old(lines)@) + stamp_lines(label@, *t),
{
    let ghost before = lines@;
    match t {
        Some(t) => {
            let text = format_time(t);
            lines.push(joined(label, text.as_str()));
            assert(texts(lines@) =~= texts(before).push(label@ + stamp_text(*t)));
        },
        None => {},
    }
}

/// The report on the entry `name`, given what its metadata lookup returned.
pub fn show_file_info(name: &str, meta: &Result<Metadata, String>) -> (r: Vec<String>)
    ensures
        texts(r@) =~= info_report(name@, *meta),
{
    let mut lines: Vec<String> = Vec::new();
    match meta {
        Ok(m) => {
            lines.push(joined(INFO_TITLE, name));
            let word = match m.kind {
                EntryKind::Directory => DIRECTORY_WORD,
                EntryKind::File => FILE_WORD,
                EntryKind::Other => SPECIAL_WORD,
            };
            lines.push(joined(TYPE_LABEL, word));
            let mut size_line = SIZE_LABEL.to_owned();
            size_line.append(format_size(m.size).as_str());
            size_line.append(BYTES_OPEN);
            size_line.append(decimal_string(m.size).as_str());
            size_line.append(BYTES_CLOSE);
            lines.push(size_line);
            let ghost head = lines@;
            assert(texts(head) =~= seq![
                INFO_TITLE@ + name@,
                TYPE_LABEL@ + kind_word(m.kind),
                SIZE_LABEL@ + size_text(m.size as nat) + BYTES_OPEN@ + decimal(m.size as nat)
                    + BYTES_CLOSE@,
            ]);
            push_stamp(&mut lines, CREATED_LABEL, &m.created);
            push_stamp(&mut lines, MODIFIED_LABEL, &m.modified);
        },
        Err(cause) => {
            let mut line = joined(ACCESS_FAILURE, name);
            line.append(ACCESS_FAILURE_CAUSE);
            line.append(cause.as_str());
            lines.push(line);
            assert(texts(lines@) =~= seq![ACCESS_FAILURE@ + name@ + ACCESS_FAILURE_CAUSE@ + cause@]);
        },
    }
    lines
}

} // verus!
