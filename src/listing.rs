//! Which directory entries are listed, and in which order.

use vstd::prelude::*;

verus! {

/// One entry as read from the directory: its name, or `None` where the name
/// is not valid text, and whether it is itself a directory.
#[derive(Debug, Clone, PartialEq, Eq)]
pub struct RawEntry {
    pub name: Option<String>,
    pub is_dir: bool,
}

/// One entry whose name is valid text.
#[derive(Debug, Clone, PartialEq, Eq)]
pub struct Entry {
    pub name: String,
    pub is_dir: bool,
}

/// Why a listing failed.
#[derive(Debug, Clone, Copy, PartialEq, Eq, Structural)]
pub enum ListError {
    /// The command line was malformed.
    Argument,
    /// The directory or an entry's metadata could not be read.
    Io,
    /// An entry's name is not valid text.
    NameDecoding,
}

/// A name is hidden when it starts with a dot.
pub open spec fn is_hidden_name(name: Seq<char>) -> bool {
    name.len() > 0 && name[0] == '.'
}

/// Whether an entry is listed: every entry when hidden ones are shown, else
/// only those whose name is not hidden.
pub open spec fn is_listed(e: Entry, show_hidden: bool) -> bool {
    show_hidden || !is_hidden_name(e.name@)
}

/// Every name of the directory is valid text.
pub open spec fn all_decoded(raw: Seq<RawEntry>) -> bool {
    forall|i: int| 0 <= i < raw.len() ==> (#[trigger] raw[i]).name is Some
}

/// The entries of the directory with their names as text.
pub open spec fn decoded(raw: Seq<RawEntry>) -> Seq<Entry> {
    raw.map_values(|r: RawEntry| Entry { name: r.name->0, is_dir: r.is_dir })
}

/// The listed entries, in the directory's order.
pub open spec fn listed(entries: Seq<Entry>, show_hidden: bool) -> Seq<Entry> {
    entries.filter(|e: Entry| is_listed(e, show_hidden))
}

/// The entries that are not directories, in their order.
pub open spec fn files_of(entries: Seq<Entry>) -> Seq<Entry> {
    entries.filter(|e: Entry| !e.is_dir)
}

/// The entries that are directories, in their order.
pub open spec fn dirs_of(entries: Seq<Entry>) -> Seq<Entry> {
    entries.filter(|e: Entry| e.is_dir)
}

/// The order in which entries are printed: files first, then directories.
pub open spec fn print_order_of(entries: Seq<Entry>) -> Seq<Entry> {
    files_of(entries) + dirs_of(entries)
}

/// What a listing of the directory yields: the listed entries in print order,
/// or a decoding error where some name is not valid text.
pub open spec fn listing_of(raw: Seq<RawEntry>, show_hidden: bool) -> Result<Seq<Entry>, ListError> {
    if all_decoded(raw) {
        Ok(print_order_of(listed(decoded(raw), show_hidden)))
    } else {
        Err(ListError::NameDecoding)
    }
}

/// A listing goes on only where its target is a directory; any other target,
/// one that does not exist included, fails it before anything is read.
pub fn check_target(target_is_dir: bool) -> (r: Result<(), ListError>)
    ensures
        r is Ok <==> target_is_dir,
        r is Err ==> r->Err_0 == ListError::Io,
{
    if target_is_dir {
        Ok(())
    } else {
        Err(ListError::Io)
    }
}

/// Whether `name` is hidden, that is, starts with a dot.
pub fn is_hidden(name: &str) -> (r: bool)
    ensures
        r == is_hidden_name(name@),
{
    name.unicode_len() > 0 && name.get_char(0) == '.'
}

fn copy_entry(name: &String, is_dir: bool) -> (r: Entry)
    ensures
        r == (Entry { name: *name, is_dir }),
{
    Entry { name: name.clone(), is_dir }
}

/// The entries that are listed, in the directory's order; fails as a whole
/// when any name is not valid text.
pub fn visible_entries(raw: &Vec<RawEntry>, show_hidden: bool) -> (r: Result<Vec<Entry>, ListError>)
    ensures
        r is Ok <==> all_decoded(raw@),
        r is Ok ==> r->Ok_0@ == listed(decoded(raw@), show_hidden),
        r is Err ==> r->Err_0 == ListError::NameDecoding,
{
    let mut out: Vec<Entry> = Vec::new();
    let mut i: usize = 0;
    while i < raw.len()
        invariant
            i <= raw@.len(),
            all_decoded(raw@.take(i as int)),
            out@ == listed(decoded(raw@.take(i as int)), show_hidden),
        decreases raw@.len() - i,
    {
        let e = &raw[i];
        match &e.name {
            None => {
                assert(!all_decoded(raw@)) by {
                    assert(raw@[i as int].name is None);
                }
                return Err(ListError::NameDecoding);
            },
            Some(name) => {
                let next = copy_entry(name, e.is_dir);
                proof {
                    let before = raw@.take(i as int);
                    let after = raw@.take(i as int + 1);
                    assert(after.drop_last() =~= before);
                    assert(decoded(after) =~= decoded(before).push(next));
                    assert(decoded(after).drop_last() =~= decoded(before));
                    reveal(Seq::filter);
                    assert(all_decoded(after)) by {
                        assert forall|j: int| 0 <= j < after.len() implies (#[trigger] after[j]).name is Some by {
                            if j < i {
                                assert(after[j] == before[j]);
                            }
                        }
                    }
                }
                if show_hidden || !is_hidden(name.as_str()) {
                    out.push(next);
                }
            },
        }
        i = i + 1;
    }
    assert(raw@.take(raw@.len() as int) =~= raw@);
    Ok(out)
}

/// Splits entries into directories and the rest, each in the given order.
pub fn partition(entries: &Vec<Entry>) -> (r: (Vec<Entry>, Vec<Entry>))
    ensures
        r.0@ == dirs_of(entries@),
        r.1@ == files_of(entries@),
{
    let mut dirs: Vec<Entry> = Vec::new();
    let mut files: Vec<Entry> = Vec::new();
    let mut i: usize = 0;
    while i < entries.len()
        invariant
            i <= entries@.len(),
            dirs@ == dirs_of(entries@.take(i as int)),
            files@ == files_of(entries@.take(i as int)),
        decreases entries@.len() - i,
    {
        let e = copy_entry(&entries[i].name, entries[i].is_dir);
        proof {
            assert(entries@.take(i as int + 1).drop_last() =~= entries@.take(i as int));
            reveal(Seq::filter);
        }
        if e.is_dir {
            dirs.push(e);
        } else {
            files.push(e);
        }
        i = i + 1;
    }
    assert(entries@.take(entries@.len() as int) =~= entries@);
    (dirs, files)
}

/// The entries in print order: every file, then every directory.
pub fn print_order(entries: &Vec<Entry>) -> (r: Vec<Entry>)
    ensures
        r@ == print_order_of(entries@),
{
    let (mut dirs, mut files) = partition(entries);
    files.append(&mut dirs);
    files
}

/// The entries of a listing in print order, or the decoding error that
/// aborts it.
pub fn plan_listing(raw: &Vec<RawEntry>, show_hidden: bool) -> (r: Result<Vec<Entry>, ListError>)
    ensures
        match r {
            Ok(v) => listing_of(raw@, show_hidden) == Ok::<Seq<Entry>, ListError>(v@),
            Err(e) => listing_of(raw@, show_hidden) == Err::<Seq<Entry>, ListError>(e),
        },
{
    match visible_entries(raw, show_hidden) {
        Ok(v) => Ok(print_order(&v)),
        Err(e) => Err(e),
    }
}

proof fn lemma_filter_membership(s: Seq<Entry>, pred: spec_fn(Entry) -> bool, e: Entry)
    ensures
        s.filter(pred).contains(e) <==> s.contains(e) && pred(e),
{
    broadcast use Seq::lemma_filter_contains_rev, Seq::lemma_filter_contains, Seq::lemma_filter_pred;
    if s.contains(e) && pred(e) {
        let i = choose|i: int| 0 <= i < s.len() && s[i] == e;
        s.lemma_filter_contains(pred, i);
    }
    if s.filter(pred).contains(e) {
        s.lemma_filter_contains_rev(pred, e);
        let j = choose|j: int| 0 <= j < s.filter(pred).len() && s.filter(pred)[j] == e;
        s.lemma_filter_pred(pred, j);
    }
}

/// A listing that succeeds prints exactly the directory's entries, less
/// those whose name starts with a dot unless hidden entries are shown.
pub proof fn lemma_listing_shows_listed(raw: Seq<RawEntry>, show_hidden: bool, e: Entry)
    requires
        all_decoded(raw),
    ensures
        listing_of(raw, show_hidden) is Ok,
        listing_of(raw, show_hidden)->Ok_0.contains(e) <==> decoded(raw).contains(e) && (
        show_hidden || !is_hidden_name(e.name@)),
{
    let shown = listed(decoded(raw), show_hidden);
    lemma_filter_membership(decoded(raw), |x: Entry| is_listed(x, show_hidden), e);
    lemma_filter_membership(shown, |x: Entry| !x.is_dir, e);
    lemma_filter_membership(shown, |x: Entry| x.is_dir, e);
    let out = print_order_of(shown);
    if out.contains(e) {
        let k = choose|k: int| 0 <= k < out.len() && out[k] == e;
        if k < files_of(shown).len() {
            assert(files_of(shown)[k] == e);
        } else {
            assert(dirs_of(shown)[k - files_of(shown).len()] == e);
        }
    }
    if shown.contains(e) {
        if e.is_dir {
            let k = choose|k: int| 0 <= k < dirs_of(shown).len() && dirs_of(shown)[k] == e;
            assert(out[files_of(shown).len() + k] == e);
        } else {
            let k = choose|k: int| 0 <= k < files_of(shown).len() && files_of(shown)[k] == e;
            assert(out[k] == e);
        }
    }
}

/// In a listing that succeeds, no directory is printed before a file.
pub proof fn lemma_files_before_directories(raw: Seq<RawEntry>, show_hidden: bool, i: int, j: int)
    requires
        all_decoded(raw),
        0 <= i < j < listing_of(raw, show_hidden)->Ok_0.len(),
        listing_of(raw, show_hidden)->Ok_0[i].is_dir,
    ensures
        listing_of(raw, show_hidden)->Ok_0[j].is_dir,
{
    broadcast use Seq::lemma_filter_pred;
    let shown = listed(decoded(raw), show_hidden);
    let files = files_of(shown);
    let dirs = dirs_of(shown);
    let out = print_order_of(shown);
    if i < files.len() {
        assert(out[i] == files[i]);
        shown.lemma_filter_pred(|x: Entry| !x.is_dir, i);
    }
    assert(out[j] == dirs[j - files.len()]);
    shown.lemma_filter_pred(|x: Entry| x.is_dir, j - files.len());
}

/// Listing the same directory contents twice gives the same result.
pub proof fn lemma_listing_repeatable(first: Seq<RawEntry>, second: Seq<RawEntry>, show_hidden: bool)
    requires
        first == second,
    ensures
        listing_of(first, show_hidden) == listing_of(second, show_hidden),
{
}

} // verus!
