use vstd::prelude::*;
use crate::tree::{lemma_weight_prefix, listing_weight, weight, Entry, EntryKind, Listing};

verus! {

/// Where a size computation stopped: the directory that could not be read,
/// and why.
pub struct SizeFailure {
    pub path: String,
    pub message: String,
}

/// The bytes held by the regular files under a directory whose listing is
/// `l` and whose path is `path`, following no symlink; or the path and
/// message of the first directory, in listing order, that could not be read.
pub open spec fn size_in(path: Seq<char>, l: Listing) -> Result<nat, (Seq<char>, Seq<char>)>
    decreases l,
{
    match l {
        Listing::Listed(v) => size_of_entries(v@),
        Listing::Failed(m) => Err((path, m@)),
        Listing::Unlisted => Err((path, Seq::empty())),
    }
}

/// The bytes under a sequence of entries, as `size_in` counts them.
pub open spec fn size_of_entries(s: Seq<Entry>) -> Result<nat, (Seq<char>, Seq<char>)>
    decreases s,
{
    if s.len() == 0 {
        Ok(0)
    } else {
        match size_of_entries(s.drop_last()) {
            Err(f) => Err(f),
            Ok(a) => match size_of_entry(s.last()) {
                Err(f) => Err(f),
                Ok(b) => Ok(a + b),
            },
        }
    }
}

/// The bytes that one entry adds: a regular file its length, a directory
/// what lies under it, and anything else (an entry whose metadata could not
/// be read included) nothing.
pub open spec fn size_of_entry(e: Entry) -> Result<nat, (Seq<char>, Seq<char>)>
    decreases e,
{
    match e.meta {
        Some(m) => match m.kind {
            EntryKind::RegularFile => Ok(m.len as nat),
            EntryKind::Directory => size_in(e.path@, e.children),
            _ => Ok(0),
        },
        None => Ok(0),
    }
}

proof fn lemma_size_bounded(s: Seq<Entry>)
    ensures
        size_of_entries(s) matches Ok(n) ==> n <= weight(s),
    decreases s,
{
    if s.len() > 0 {
        lemma_size_bounded(s.drop_last());
        let e = s.last();
        if e.is_dir() {
            if let Listing::Listed(v) = e.children {
                lemma_size_bounded(v@);
            }
            assert(size_of_entry(e) == size_in(e.path@, e.children));
        }
        if let Ok(b) = size_of_entry(e) {
            assert(b <= e.file_len() + listing_weight(e.children));
        }
    }
}

/// Adds up the sizes of the regular files under a directory, recursively,
/// skipping symlinks and entries whose metadata could not be read; stops at
/// the first directory that cannot be read.
pub fn compute_size(path: &String, l: &Listing) -> (r: Result<u64, SizeFailure>)
    requires
        listing_weight(*l) <= u64::MAX,
    ensures
        r matches Ok(n) ==> size_in(path@, *l) == Ok::<nat, (Seq<char>, Seq<char>)>(n as nat),
        r matches Err(f) ==> size_in(path@, *l) == Err::<nat, (Seq<char>, Seq<char>)>((f.path@, f.message@)),
    decreases listing_weight(*l),
{
    match l {
        Listing::Unlisted => Err(SizeFailure { path: path.clone(), message: String::new() }),
        Listing::Failed(m) => Err(SizeFailure { path: path.clone(), message: m.clone() }),
        Listing::Listed(v) => {
            let mut total: u64 = 0;
            let mut i: usize = 0;
            while i < v.len()
                invariant
                    i <= v.len(),
                    *l == Listing::Listed(*v),
                    weight(v@) <= u64::MAX,
                    size_of_entries(v@.take(i as int)) == Ok::<nat, (Seq<char>, Seq<char>)>(total as nat),
                decreases v.len() - i,
            {
                let e = &v[i];
                proof {
                    assert(v@.take(i + 1).drop_last() == v@.take(i as int));
                    assert(v@.take(i + 1).last() == v@[i as int]);
                    lemma_weight_prefix(v@, i + 1);
                    lemma_size_bounded(v@.take(i + 1));
                }
                match &e.meta {
                    None => {},
                    Some(m) => match m.kind {
                        EntryKind::RegularFile => {
                            assert(size_of_entry(v@[i as int]) == Ok::<nat, (Seq<char>, Seq<char>)>(m.len as nat));
                            assert(size_of_entries(v@.take(i + 1)) == Ok::<nat, (Seq<char>, Seq<char>)>((total + m.len) as nat));
                            total = total + m.len;
                        },
                        EntryKind::Directory => {
                            proof {
                                assert(size_of_entry(v@[i as int]) == size_in(e.path@, e.children));
                                assert(listing_weight(*l) == weight(v@));
                                assert(weight(v@.take(i + 1)) == weight(v@.take(i as int)) + 1
                                    + v@[i as int].file_len() + listing_weight(e.children));
                            }
                            match compute_size(&e.path, &e.children) {
                                Ok(n) => {
                                    total = total + n;
                                },
                                Err(f) => {
                                    proof {
                                        assert(size_of_entries(v@.take(i + 1)) == size_of_entry(v@[i as int]));
                                        lemma_first_failure_stops(v@, i + 1);
                                        assert(size_in(path@, *l) == size_of_entries(v@));
                                    }
                                    return Err(f);
                                },
                            }
                        },
                        _ => {},
                    },
                }
                i = i + 1;
            }
            proof {
                assert(v@.take(v.len() as int) == v@);
            }
            Ok(total)
        },
    }
}

/// Once a prefix fails, every longer prefix fails the same way.
proof fn lemma_first_failure_stops(s: Seq<Entry>, i: int)
    requires
        0 <= i <= s.len(),
        size_of_entries(s.take(i)) is Err,
    ensures
        size_of_entries(s) == size_of_entries(s.take(i)),
    decreases s.len() - i,
{
    if i < s.len() {
        assert(s.take(i + 1).drop_last() == s.take(i));
        lemma_first_failure_stops(s, i + 1);
    } else {
        assert(s.take(i) == s);
    }
}

/// An entry whose metadata cannot be read changes no size computation:
/// inserting one anywhere in a listing gives the same result as before.
pub proof fn lemma_unreadable_entry_ignored(s: Seq<Entry>, i: int, e: Entry)
    requires
        0 <= i <= s.len(),
        e.meta is None,
    ensures
        size_of_entries(s.insert(i, e)) == size_of_entries(s),
    decreases s.len(),
{
    let t = s.insert(i, e);
    assert(size_of_entry(e) == Ok::<nat, (Seq<char>, Seq<char>)>(0));
    if i == s.len() {
        assert(t.drop_last() =~= s);
        assert(t.last() == e);
        if let Ok(a) = size_of_entries(s) {
            assert(size_of_entries(t) == Ok::<nat, (Seq<char>, Seq<char>)>(a + 0));
        }
    } else {
        assert(t.drop_last() =~= s.drop_last().insert(i, e));
        assert(t.last() == s.last());
        lemma_unreadable_entry_ignored(s.drop_last(), i, e);
    }
}

/// A subdirectory that cannot be read makes the size of the listing that
/// holds it unknown.
pub proof fn lemma_unreadable_subdirectory_fails(s: Seq<Entry>, i: int)
    requires
        0 <= i < s.len(),
        s[i].is_dir(),
        s[i].children is Failed,
    ensures
        size_of_entries(s) is Err,
{
    let p = s.take(i + 1);
    assert(p.drop_last() == s.take(i));
    assert(p.last() == s[i]);
    assert(size_of_entry(s[i]) is Err);
    assert(size_of_entries(p) is Err);
    lemma_first_failure_stops(s, i + 1);
}

} // verus!
