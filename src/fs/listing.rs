//! The order and filter a directory listing is shown in: directories first,
//! then files, each in alphanumeric order, hidden entries left out unless asked for.

use vstd::prelude::*;
use vstd::string::StrSliceExecFns;

verus! {

/// What kind of thing a directory entry is.
#[derive(Clone, Copy, Debug, PartialEq, Eq, Structural)]
pub enum EntryKind {
    Dir,
    File,
    /// Neither (a socket, a broken link, ...): never listed.
    Other,
}

/// One entry of a directory, as read from the file system.
pub struct DirItem {
    pub name: String,
    pub kind: EntryKind,
}

impl DirItem {
    pub fn new(name: String, kind: EntryKind) -> (r: DirItem)
        ensures
            r.name == name,
            r.kind == kind,
    {
        DirItem { name, kind }
    }
}

/// What `alphanumeric_sort` makes of a sequence of names.
pub uninterp spec fn alnum_sorted(names: Seq<Seq<char>>) -> Seq<Seq<char>>;

/// Relies on `alphanumeric_sort::sort_slice_by_str_key`: a stable sort in
/// alphanumeric order (runs of digits compare by value, so `item2` comes
/// before `item10`); it reorders the names and depends on them alone.
#[verifier::external_body]
fn sort_names(names: &mut Vec<String>)
    ensures
        final(names).deep_view() == alnum_sorted(old(names).deep_view()),
        final(names).deep_view().to_multiset() == old(names).deep_view().to_multiset(),
{
    alphanumeric_sort::sort_slice_by_str_key(names.as_mut_slice(), |s| s.as_str());
}

/// A name is hidden when it starts with a dot.
pub open spec fn is_hidden_name(n: Seq<char>) -> bool {
    n.len() > 0 && n[0] == '.'
}

/// Whether an entry with this name is listed.
pub open spec fn shown(n: Seq<char>, show_hidden: bool) -> bool {
    show_hidden || !is_hidden_name(n)
}

/// Names of the listed entries of one kind, in the order given.
pub open spec fn names_of(entries: Seq<DirItem>, kind: EntryKind, show_hidden: bool) -> Seq<
    Seq<char>,
>
    decreases entries.len(),
{
    if entries.len() == 0 {
        Seq::empty()
    } else {
        let rest = names_of(entries.drop_last(), kind, show_hidden);
        let e = entries.last();
        if e.kind == kind && shown(e.name@, show_hidden) {
            rest.push(e.name@)
        } else {
            rest
        }
    }
}

/// The names a directory is listed with: directories, then files, each
/// sorted alphanumerically.
pub open spec fn listing_of(entries: Seq<DirItem>, show_hidden: bool) -> Seq<Seq<char>> {
    alnum_sorted(names_of(entries, EntryKind::Dir, show_hidden)) + alnum_sorted(
        names_of(entries, EntryKind::File, show_hidden),
    )
}

/// Sorting only reorders each part of a listing: every listed entry appears
/// exactly once, and the listing is as long as the two parts together.
pub open spec fn listing_reorders(entries: Seq<DirItem>, show_hidden: bool) -> bool {
    &&& alnum_sorted(names_of(entries, EntryKind::Dir, show_hidden)).to_multiset() == names_of(
        entries,
        EntryKind::Dir,
        show_hidden,
    ).to_multiset()
    &&& alnum_sorted(names_of(entries, EntryKind::File, show_hidden)).to_multiset() == names_of(
        entries,
        EntryKind::File,
        show_hidden,
    ).to_multiset()
    &&& listing_of(entries, show_hidden).len() == names_of(entries, EntryKind::Dir, show_hidden).len()
        + names_of(entries, EntryKind::File, show_hidden).len()
}

/// Whether a name starts with a dot.
pub fn is_hidden(name: &str) -> (r: bool)
    ensures
        r == is_hidden_name(name@),
{
    name.unicode_len() > 0 && name.get_char(0) == '.'
}

proof fn lemma_names_of_shown(entries: Seq<DirItem>, kind: EntryKind, show_hidden: bool)
    ensures
        forall|n: Seq<char>|
            #[trigger] names_of(entries, kind, show_hidden).contains(n) ==> shown(n, show_hidden),
    decreases entries.len(),
{
    if entries.len() > 0 {
        lemma_names_of_shown(entries.drop_last(), kind, show_hidden);
        let rest = names_of(entries.drop_last(), kind, show_hidden);
        assert forall|n: Seq<char>| #[trigger]
            names_of(entries, kind, show_hidden).contains(n) implies shown(n, show_hidden) by {
            let all = names_of(entries, kind, show_hidden);
            let i = choose|i: int| 0 <= i < all.len() && all[i] == n;
            if i < rest.len() {
                assert(rest[i] == n);
                assert(rest.contains(n));
            }
        }
    }
}

/// Names of the listed entries of one kind, in alphanumeric order.
pub fn sorted_names(entries: &Vec<DirItem>, kind: EntryKind, show_hidden: bool) -> (r: Vec<
    String,
>)
    ensures
        r.deep_view() == alnum_sorted(names_of(entries@, kind, show_hidden)),
        r.deep_view().to_multiset() == names_of(entries@, kind, show_hidden).to_multiset(),
        forall|i: int| 0 <= i < r@.len() ==> shown(#[trigger] r@[i]@, show_hidden),
{
    let mut names: Vec<String> = Vec::new();
    let mut i: usize = 0;
    while i < entries.len()
        invariant
            i <= entries@.len(),
            names.deep_view() == names_of(entries@.take(i as int), kind, show_hidden),
        decreases entries@.len() - i,
    {
        let e = &entries[i];
        proof {
            assert(entries@.take(i + 1).drop_last() =~= entries@.take(i as int));
            assert(entries@.take(i + 1).last() == entries@[i as int]);
        }
        if e.kind == kind && (show_hidden || !is_hidden(e.name.as_str())) {
            let ghost before = names.deep_view();
            names.push(e.name.clone());
            proof {
                assert(names.deep_view() =~= before.push(e.name@));
            }
        }
        i = i + 1;
    }
    proof {
        assert(entries@.take(i as int) =~= entries@);
    }
    let ghost unsorted = names.deep_view();
    sort_names(&mut names);
    proof {
        broadcast use vstd::seq_lib::group_to_multiset_ensures;

        lemma_names_of_shown(entries@, kind, show_hidden);
        assert forall|i: int| 0 <= i < names@.len() implies shown(#[trigger] names@[i]@, show_hidden) by {
            let n = names.deep_view()[i];
            assert(names.deep_view().contains(n));
            assert(names.deep_view().to_multiset().count(n) > 0);
            assert(unsorted.contains(n));
        }
    }
    names
}

/// The names a directory is listed with: directories, then files, each
/// sorted alphanumerically; hidden ones only when `show_hidden` is set.
pub fn listing_names(entries: &Vec<DirItem>, show_hidden: bool) -> (r: Vec<String>)
    ensures
        r.deep_view() == listing_of(entries@, show_hidden),
        listing_reorders(entries@, show_hidden),
        forall|i: int| 0 <= i < r@.len() ==> shown(#[trigger] r@[i]@, show_hidden),
{
    let mut dirs = sorted_names(entries, EntryKind::Dir, show_hidden);
    let mut files = sorted_names(entries, EntryKind::File, show_hidden);
    let ghost d = dirs@;
    let ghost f = files@;
    dirs.append(&mut files);
    proof {
        broadcast use vstd::seq_lib::group_to_multiset_ensures;

        let dn = names_of(entries@, EntryKind::Dir, show_hidden);
        let fl = names_of(entries@, EntryKind::File, show_hidden);
        assert(alnum_sorted(dn).len() == alnum_sorted(dn).to_multiset().len());
        assert(dn.len() == dn.to_multiset().len());
        assert(alnum_sorted(fl).len() == alnum_sorted(fl).to_multiset().len());
        assert(fl.len() == fl.to_multiset().len());
        assert(dirs@ =~= d + f);
        assert(dirs.deep_view() =~= listing_of(entries@, show_hidden));
        assert forall|i: int| 0 <= i < dirs@.len() implies shown(#[trigger] dirs@[i]@, show_hidden) by {
            if i >= d.len() {
                assert(dirs@[i] == f[i - d.len()]);
            }
        }
    }
    dirs
}

} // verus!
