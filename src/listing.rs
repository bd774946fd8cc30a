use vstd::prelude::*;

use crate::size::{format_size, size_text};
use crate::text::{append_padded, joined, pad_right, texts};

verus! {

broadcast use vstd::seq_lib::group_to_multiset_ensures;

pub const LISTING_HEADER: &'static str = "Contenu du répertoire:";

pub const LISTING_FAILURE: &'static str = "Erreur lors de la lecture du répertoire: ";

pub const DIR_TAG: &'static str = "DIR";

pub const FILE_TAG: &'static str = "FILE";

/// Width of the column that holds the type tag.
pub const TAG_WIDTH: usize = 5;

/// Width of the column that holds the size.
pub const SIZE_WIDTH: usize = 10;

/// One entry of a directory, as the operating system described it.
pub struct FileEntry {
    pub name: String,
    pub is_dir: bool,
    pub size: u64,
}

impl FileEntry {
    pub fn new(name: String, is_dir: bool, size: u64) -> (r: FileEntry)
        ensures
            r.name == name,
            r.is_dir == is_dir,
            r.size == size,
    {
        FileEntry { name, is_dir, size }
    }
}

/// Lexicographic order on character sequences, by code point.
pub open spec fn name_le(a: Seq<char>, b: Seq<char>) -> bool
    decreases a.len(),
{
    if a.len() == 0 {
        true
    } else if b.len() == 0 {
        false
    } else if a[0] as u32 != b[0] as u32 {
        (a[0] as u32) < (b[0] as u32)
    } else {
        name_le(a.drop_first(), b.drop_first())
    }
}

/// Listing order: directories first, then by name within each group.
pub open spec fn entry_le(a: FileEntry, b: FileEntry) -> bool {
    (a.is_dir && !b.is_dir) || (a.is_dir == b.is_dir && name_le(a.name@, b.name@))
}

/// Every entry comes no later than those after it.
pub open spec fn is_listing_order(s: Seq<FileEntry>) -> bool {
    forall|i: int, j: int| 0 <= i < j < s.len() ==> entry_le(#[trigger] s[i], #[trigger] s[j])
}

/// Of two names, one comes no later than the other.
pub proof fn lemma_name_le_total(a: Seq<char>, b: Seq<char>)
    ensures
        name_le(a, b) || name_le(b, a),
    decreases a.len(),
{
    if a.len() > 0 && b.len() > 0 && a[0] as u32 == b[0] as u32 {
        lemma_name_le_total(a.drop_first(), b.drop_first());
    }
}

/// Every name comes no later than itself.
pub proof fn lemma_name_le_reflexive(a: Seq<char>)
    ensures
        name_le(a, a),
    decreases a.len(),
{
    if a.len() > 0 {
        lemma_name_le_reflexive(a.drop_first());
    }
}

/// The order on names is transitive.
pub proof fn lemma_name_le_transitive(a: Seq<char>, b: Seq<char>, c: Seq<char>)
    requires
        name_le(a, b),
        name_le(b, c),
    ensures
        name_le(a, c),
    decreases a.len(),
{
    if a.len() > 0 && b.len() > 0 && c.len() > 0 && a[0] as u32 == b[0] as u32 && b[0] as u32 == c[0] as u32 {
        lemma_name_le_transitive(a.drop_first(), b.drop_first(), c.drop_first());
    }
}

proof fn lemma_entry_le_total(a: FileEntry, b: FileEntry)
    ensures
        entry_le(a, b) || entry_le(b, a),
{
    lemma_name_le_total(a.name@, b.name@);
}

proof fn lemma_entry_le_transitive(a: FileEntry, b: FileEntry, c: FileEntry)
    requires
        entry_le(a, b),
        entry_le(b, c),
    ensures
        entry_le(a, c),
{
    if a.is_dir == b.is_dir && b.is_dir == c.is_dir {
        lemma_name_le_transitive(a.name@, b.name@, c.name@);
    }
}

/// Compares two names by code point.
pub fn name_precedes(a: &String, b: &String) -> (r: bool)
    ensures
        r == name_le(a@, b@),
{
    let sa = a.as_str();
    let sb = b.as_str();
    let na = sa.unicode_len();
    let nb = sb.unicode_len();
    let mut i: usize = 0;
    assert(a@.skip(0) =~= a@);
    assert(b@.skip(0) =~= b@);
    while i < na && i < nb
        invariant
            sa@ == a@,
            sb@ == b@,
            na == a@.len(),
            nb == b@.len(),
            i <= na,
            i <= nb,
            name_le(a@, b@) == name_le(a@.skip(i as int), b@.skip(i as int)),
        decreases na - i,
    {
        let ca = sa.get_char(i);
        let cb = sb.get_char(i);
        assert(a@.skip(i as int)[0] == ca && a@.skip(i as int).len() > 0);
        assert(b@.skip(i as int)[0] == cb && b@.skip(i as int).len() > 0);
        if ca as u32 != cb as u32 {
            return (ca as u32) < (cb as u32);
        }
        assert(a@.skip(i as int).drop_first() =~= a@.skip(i + 1));
        assert(b@.skip(i as int).drop_first() =~= b@.skip(i + 1));
        i = i + 1;
    }
    i == na
}

/// Whether `a` comes no later than `b` in a listing.
pub fn entry_precedes(a: &FileEntry, b: &FileEntry) -> (r: bool)
    ensures
        r == entry_le(*a, *b),
{
    if a.is_dir != b.is_dir {
        a.is_dir
    } else {
        name_precedes(&a.name, &b.name)
    }
}

/// Puts entries in listing order: directories first, then by name.
pub fn sort_entries(entries: Vec<FileEntry>) -> (r: Vec<FileEntry>)
    ensures
        is_listing_order(r@),
        r@.to_multiset() =~= entries@.to_multiset(),
{
    let mut rest = entries;
    let mut done: Vec<FileEntry> = Vec::new();
    while rest.len() > 0
        invariant
            is_listing_order(done@),
            done@.to_multiset().add(rest@.to_multiset()) =~= entries@.to_multiset(),
            forall|i: int, j: int|
                0 <= i < done@.len() && 0 <= j < rest@.len() ==> entry_le(
                    #[trigger] done@[i],
                    #[trigger] rest@[j],
                ),
        decreases rest.len(),
    {
        let mut best: usize = 0;
        let mut k: usize = 1;
        proof {
            lemma_name_le_reflexive(rest@[0].name@);
        }
        while k < rest.len()
            invariant
                0 <= best < rest@.len(),
                1 <= k <= rest@.len(),
                forall|j: int| 0 <= j < k ==> entry_le(rest@[best as int], #[trigger] rest@[j]),
            decreases rest.len() - k,
        {
            if !entry_precedes(&rest[best], &rest[k]) {
                proof {
                    lemma_entry_le_total(rest@[best as int], rest@[k as int]);
                    assert forall|j: int| 0 <= j <= k implies entry_le(
                        rest@[k as int],
                        #[trigger] rest@[j],
                    ) by {
                        if j < k {
                            lemma_entry_le_transitive(
                                rest@[k as int],
                                rest@[best as int],
                                rest@[j],
                            );
                        }
                        lemma_name_le_reflexive(rest@[k as int].name@);
                    }
                }
                best = k;
            }
            k = k + 1;
        }
        let ghost old_rest = rest@;
        let ghost old_done = done@;
        let e = rest.remove(best);
        proof {
            assert forall|j: int| 0 <= j < rest@.len() implies entry_le(e, #[trigger] rest@[j]) by {
                if j < best {
                    assert(rest@[j] == old_rest[j]);
                } else {
                    assert(rest@[j] == old_rest[j + 1]);
                }
            }
        }
        done.push(e);
        proof {
            assert(old_rest.remove(best as int).to_multiset() =~= old_rest.to_multiset().remove(e));
            assert(old_rest.to_multiset().count(e) > 0);
            assert forall|i: int, j: int| 0 <= i < j < done@.len() implies entry_le(
                #[trigger] done@[i],
                #[trigger] done@[j],
            ) by {
                if j == done@.len() - 1 {
                    assert(done@[j] == old_rest[best as int]);
                    assert(done@[i] == old_done[i]);
                }
            }
            assert forall|i: int, j: int|
                0 <= i < done@.len() && 0 <= j < rest@.len() implies entry_le(
                #[trigger] done@[i],
                #[trigger] rest@[j],
            ) by {
                if j < best {
                    assert(rest@[j] == old_rest[j]);
                } else {
                    assert(rest@[j] == old_rest[j + 1]);
                }
                if i < done@.len() - 1 {
                    assert(done@[i] == old_done[i]);
                }
            }
        }
    }
    assert(rest@ =~= Seq::<FileEntry>::empty());
    done
}

/// In a listing every directory comes before every file.
pub proof fn lemma_directories_first(s: Seq<FileEntry>)
    requires
        is_listing_order(s),
    ensures
        forall|i: int, j: int|
            0 <= i < j < s.len() && #[trigger] s[j].is_dir ==> #[trigger] s[i].is_dir,
{
}

/// In a listing, entries of the same kind come in order of their names.
pub proof fn lemma_names_ascend(s: Seq<FileEntry>)
    requires
        is_listing_order(s),
    ensures
        forall|i: int, j: int|
            0 <= i < j < s.len() && s[i].is_dir == s[j].is_dir ==> name_le(
                #[trigger] s[i].name@,
                #[trigger] s[j].name@,
            ),
{
}

/// Two files named `b.txt` and `a.txt` are listed `a.txt` first, whatever
/// their sizes.
pub proof fn lemma_two_files_by_name(s: Seq<FileEntry>, b: FileEntry, a: FileEntry)
    requires
        is_listing_order(s),
        s.to_multiset() =~= seq![b, a].to_multiset(),
        b.name@ == "b.txt"@,
        a.name@ == "a.txt"@,
        !a.is_dir,
        !b.is_dir,
    ensures
        s == seq![a, b],
{
    reveal_strlit("a.txt");
    reveal_strlit("b.txt");
    let pair = seq![b, a];
    assert(pair.drop_last() =~= seq![b]);
    assert(seq![b].drop_last() =~= Seq::<FileEntry>::empty());
    assert(pair.to_multiset() =~= vstd::multiset::Multiset::empty().insert(b).insert(a)) by {
        vstd::seq_lib::to_multiset_build(seq![b], a);
        vstd::seq_lib::to_multiset_build(Seq::<FileEntry>::empty(), b);
        assert(seq![b] =~= Seq::<FileEntry>::empty().push(b));
        assert(pair =~= seq![b].push(a));
    }
    assert(s.to_multiset().len() == s.len());
    assert(pair.to_multiset().len() == pair.len());
    assert(s.len() == 2);
    assert(s.contains(s[0]));
    assert(s.contains(s[1]));
    assert(!name_le(b.name@, a.name@));
    assert(s.to_multiset().count(s[0]) > 0);
    assert(s.to_multiset().count(s[1]) > 0);
    if s[0] == b {
        if s[1] == b {
            assert(s =~= seq![b, b]);
            assert(s.to_multiset().count(b) == 2) by {
                assert(s =~= seq![b].push(b));
                vstd::seq_lib::to_multiset_build(seq![b], b);
                vstd::seq_lib::to_multiset_build(Seq::<FileEntry>::empty(), b);
                assert(seq![b] =~= Seq::<FileEntry>::empty().push(b));
            }
        }
        assert(entry_le(s[0], s[1]));
    }
    assert(s[0] == a);
    if s[1] == a {
        assert(s.to_multiset().count(a) == 2) by {
            assert(s =~= seq![a].push(a));
            vstd::seq_lib::to_multiset_build(seq![a], a);
            vstd::seq_lib::to_multiset_build(Seq::<FileEntry>::empty(), a);
            assert(seq![a] =~= Seq::<FileEntry>::empty().push(a));
        }
    }
    assert(s =~= seq![a, b]);
}

/// The line that shows one entry: its type tag and its size in columns of
/// fixed width, then its name.
pub open spec fn entry_line(e: FileEntry) -> Seq<char> {
    let tag = if e.is_dir {
        DIR_TAG@
    } else {
        FILE_TAG@
    };
    pad_right(tag, TAG_WIDTH as nat) + " "@ + pad_right(size_text(e.size as nat), SIZE_WIDTH as nat)
        + " "@ + e.name@
}

/// The report of a listing whose entries are already in order: a header,
/// then one line per entry.
pub open spec fn listing_report(s: Seq<FileEntry>) -> Seq<Seq<char>> {
    seq![LISTING_HEADER@] + s.map_values(|e: FileEntry| entry_line(e))
}

/// Writes the line that shows one entry.
pub fn format_entry(e: &FileEntry) -> (r: String)
    ensures
        r@ == entry_line(*e),
{
    let mut out = String::new();
    append_padded(
        &mut out,
        if e.is_dir {
            DIR_TAG
        } else {
            FILE_TAG
        },
        TAG_WIDTH,
    );
    out.append(" ");
    let size = format_size(e.size);
    append_padded(&mut out, size.as_str(), SIZE_WIDTH);
    out.append(" ");
    out.append(e.name.as_str());
    out
}

/// Writes the report of entries that are already in order.
pub fn report_entries(sorted: &Vec<FileEntry>) -> (r: Vec<String>)
    ensures
        texts(r@) =~= listing_report(sorted@),
{
    let mut lines: Vec<String> = Vec::new();
    lines.push(LISTING_HEADER.to_owned());
    let mut i: usize = 0;
    while i < sorted.len()
        invariant
            i <= sorted@.len(),
            texts(lines@) =~= listing_report(sorted@.subrange(0, i as int)),
        decreases sorted.len() - i,
    {
        let ghost before = lines@;
        let line = format_entry(&sorted[i]);
        lines.push(line);
        proof {
            let prefix = sorted@.subrange(0, i as int);
            let next = sorted@.subrange(0, i + 1);
            assert(next =~= prefix.push(sorted@[i as int]));
            assert(texts(lines@) =~= texts(before).push(line@));
            assert(next.map_values(|e: FileEntry| entry_line(e)) =~= prefix.map_values(
                |e: FileEntry| entry_line(e),
            ).push(entry_line(sorted@[i as int])));
        }
        i = i + 1;
    }
    assert(sorted@.subrange(0, i as int) =~= sorted@);
    lines
}

/// The report of a directory listing: a header, then one line per entry,
/// directories first and by name within each group.
pub fn list_directory(entries: Vec<FileEntry>) -> (r: Vec<String>)
    ensures
        exists|s: Seq<FileEntry>|
            {
                &&& is_listing_order(s)
                &&& s.to_multiset() =~= entries@.to_multiset()
                &&& texts(r@) =~= listing_report(s)
            },
{
    let sorted = sort_entries(entries);
    let r = report_entries(&sorted);
    assert(is_listing_order(sorted@) && sorted@.to_multiset() =~= entries@.to_multiset() && texts(r@)
        =~= listing_report(sorted@));
    r
}

/// The message shown when the directory cannot be read.
pub fn listing_failure(cause: &str) -> (r: String)
    ensures
        r@ == LISTING_FAILURE@ + cause@,
{
    joined(LISTING_FAILURE, cause)
}

} // verus!
