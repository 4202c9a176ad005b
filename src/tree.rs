use vstd::prelude::*;

verus! {

/// The kinds of special file, or `NotApplicable` where the platform cannot
/// tell them apart.
#[derive(Clone, Copy, Debug, PartialEq, Eq, Structural)]
pub enum SpecialKind {
    Socket,
    BlockDevice,
    CharDevice,
    Fifo,
    NotApplicable,
}

/// What an entry is, as its own metadata says (symlinks are not followed).
#[derive(Clone, Copy, Debug, PartialEq, Eq, Structural)]
pub enum EntryKind {
    Symlink,
    RegularFile,
    Directory,
    Special(SpecialKind),
}

/// The file-type tests that metadata answers, each on its own.
#[derive(Clone, Copy, Debug, PartialEq, Eq, Structural)]
pub struct TypeFlags {
    pub symlink: bool,
    pub socket: bool,
    pub block_device: bool,
    pub char_device: bool,
    pub fifo: bool,
    pub file: bool,
    pub dir: bool,
}

/// The kind of an entry: a symlink first of all, then one of the special
/// kinds, then a regular file, then a directory; anything else is a special
/// file of no known kind.
pub open spec fn kind_of(f: TypeFlags) -> EntryKind {
    if f.symlink {
        EntryKind::Symlink
    } else if f.socket {
        EntryKind::Special(SpecialKind::Socket)
    } else if f.block_device {
        EntryKind::Special(SpecialKind::BlockDevice)
    } else if f.char_device {
        EntryKind::Special(SpecialKind::CharDevice)
    } else if f.fifo {
        EntryKind::Special(SpecialKind::Fifo)
    } else if f.file {
        EntryKind::RegularFile
    } else if f.dir {
        EntryKind::Directory
    } else {
        EntryKind::Special(SpecialKind::NotApplicable)
    }
}

/// Classifies an entry from its file-type tests.
pub fn classify(f: &TypeFlags) -> (r: EntryKind)
    ensures
        r == kind_of(*f),
{
    if f.symlink {
        EntryKind::Symlink
    } else if f.socket {
        EntryKind::Special(SpecialKind::Socket)
    } else if f.block_device {
        EntryKind::Special(SpecialKind::BlockDevice)
    } else if f.char_device {
        EntryKind::Special(SpecialKind::CharDevice)
    } else if f.fifo {
        EntryKind::Special(SpecialKind::Fifo)
    } else if f.file {
        EntryKind::RegularFile
    } else if f.dir {
        EntryKind::Directory
    } else {
        EntryKind::Special(SpecialKind::NotApplicable)
    }
}

/// What the metadata of an entry gives.
pub struct Meta {
    pub kind: EntryKind,
    /// Length in bytes.
    pub len: u64,
    /// Permission bits.
    pub mode: u32,
    /// Last modification time, already formatted; `None` where it could not be read.
    pub modified: Option<String>,
    /// For a symlink: whether its target is a directory.
    pub target_is_dir: bool,
}

/// One entry of a directory listing.
pub struct Entry {
    /// The path as listed (the directory's path joined with the name).
    pub path: String,
    /// The last component of the path; `None` where the path has none.
    pub name: Option<String>,
    /// The canonical absolute path; `None` where it could not be resolved.
    pub resolved: Option<String>,
    /// `None` where the metadata could not be read.
    pub meta: Option<Meta>,
    /// For a directory, its own listing.
    pub children: Listing,
}

/// The contents of a directory.
pub enum Listing {
    /// The directory was not read.
    Unlisted,
    /// Reading the directory failed, with this message.
    Failed(String),
    /// The entries, in the order the directory gave them.
    Listed(Vec<Entry>),
}

impl Entry {
    /// The entry's kind, where its metadata could be read.
    pub open spec fn kind(&self) -> Option<EntryKind> {
        match self.meta {
            Some(m) => Some(m.kind),
            None => None,
        }
    }

    pub open spec fn is_file(&self) -> bool {
        self.kind() == Some(EntryKind::RegularFile)
    }

    pub open spec fn is_dir(&self) -> bool {
        self.kind() == Some(EntryKind::Directory)
    }

    pub open spec fn is_symlink(&self) -> bool {
        self.kind() == Some(EntryKind::Symlink)
    }

    pub open spec fn is_special(&self) -> bool {
        self.kind() matches Some(EntryKind::Special(_))
    }

    /// The length of a regular file; zero for anything else.
    pub open spec fn file_len(&self) -> nat {
        if self.is_file() {
            self.meta->0.len as nat
        } else {
            0
        }
    }
}

/// The entries of a listing, empty where it was not read.
pub open spec fn entries_of(l: Listing) -> Seq<Entry> {
    match l {
        Listing::Listed(v) => v@,
        _ => Seq::empty(),
    }
}

/// The number of entries in `s` and below, plus the lengths of all regular
/// files among them: a bound on every tally and byte total over `s`.
pub open spec fn weight(s: Seq<Entry>) -> nat
    decreases s,
{
    if s.len() == 0 {
        0
    } else {
        let e = s.last();
        weight(s.drop_last()) + 1 + e.file_len() + listing_weight(e.children)
    }
}

/// The weight of the entries of a listing.
pub open spec fn listing_weight(l: Listing) -> nat
    decreases l,
{
    match l {
        Listing::Listed(v) => weight(v@),
        _ => 0,
    }
}

} // verus!

verus! {

/// The weight of a listing where it is at most `limit`, else `None`.
pub fn weight_within(l: &Listing, limit: u64) -> (r: Option<u64>)
    ensures
        r is Some <==> listing_weight(*l) <= limit,
        r matches Some(w) ==> w == listing_weight(*l),
    decreases listing_weight(*l),
{
    match l {
        Listing::Listed(v) => {
            let mut total: u64 = 0;
            let mut i: usize = 0;
            while i < v.len()
                invariant
                    *l == Listing::Listed(*v),
                    i <= v.len(),
                    total <= limit,
                    weight(v@.take(i as int)) == total,
                decreases v.len() - i,
            {
                let e = &v[i];
                proof {
                    assert(v@.take(i + 1).drop_last() == v@.take(i as int));
                    assert(v@.take(i + 1).last() == v@[i as int]);
                    lemma_weight_prefix(v@, i + 1);
                    assert(listing_weight(*l) == weight(v@));
                    assert(weight(v@.take(i + 1)) == total + 1 + e.file_len() + listing_weight(e.children));
                }
                let own: u64 = match &e.meta {
                    Some(m) => match m.kind {
                        EntryKind::RegularFile => m.len,
                        _ => 0,
                    },
                    None => 0,
                };
                if own >= limit - total {
                    proof {
                        lemma_weight_prefix(v@, i + 1);
                    }
                    return None;
                }
                let rest = limit - total - own - 1;
                match weight_within(&e.children, rest) {
                    None => {
                        return None;
                    },
                    Some(w) => {
                        total = total + own + 1 + w;
                    },
                }
                i = i + 1;
            }
            proof {
                assert(v@.take(v.len() as int) == v@);
            }
            Some(total)
        },
        _ => Some(0),
    }
}

/// The weight of a prefix is at most the weight of the whole.
pub(crate) proof fn lemma_weight_prefix(s: Seq<Entry>, i: int)
    requires
        0 <= i <= s.len(),
    ensures
        weight(s.take(i)) <= weight(s),
    decreases s.len() - i,
{
    if i < s.len() {
        assert(s.take(i + 1).drop_last() == s.take(i));
        lemma_weight_prefix(s, i + 1);
    } else {
        assert(s.take(i) == s);
    }
}

} // verus!
