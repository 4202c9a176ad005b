use vstd::prelude::*;

verus! {

/// Four tallies as unbounded numbers.
pub struct Tally {
    pub files: nat,
    pub symlinks: nat,
    pub special: nat,
    pub dirs: nat,
}

impl Tally {
    pub open spec fn zero() -> Tally {
        Tally { files: 0, symlinks: 0, special: 0, dirs: 0 }
    }

    pub open spec fn add(self, o: Tally) -> Tally {
        Tally {
            files: self.files + o.files,
            symlinks: self.symlinks + o.symlinks,
            special: self.special + o.special,
            dirs: self.dirs + o.dirs,
        }
    }

    pub open spec fn sum(self) -> nat {
        self.files + self.symlinks + self.special + self.dirs
    }

    /// Whether `w` more can be added to each tally within `u64`.
    pub open spec fn has_room(self, w: nat) -> bool {
        &&& self.files + w <= u64::MAX
        &&& self.symlinks + w <= u64::MAX
        &&& self.special + w <= u64::MAX
        &&& self.dirs + w <= u64::MAX
    }
}

/// Tallies of the four kinds of entry: regular files, symlinks, special
/// files and directories.
pub struct EntryCounter {
    pub num_files: u64,
    pub num_symlinks: u64,
    pub num_special: u64,
    pub num_dirs: u64,
}

impl View for EntryCounter {
    type V = Tally;

    open spec fn view(&self) -> Tally {
        Tally {
            files: self.num_files as nat,
            symlinks: self.num_symlinks as nat,
            special: self.num_special as nat,
            dirs: self.num_dirs as nat,
        }
    }
}

impl EntryCounter {
    /// The sum of the four tallies.
    pub open spec fn total(&self) -> nat {
        (self.num_files + self.num_symlinks + self.num_special + self.num_dirs) as nat
    }

    /// A counter with every tally at zero.
    pub fn new() -> (r: EntryCounter)
        ensures
            r.num_files == 0,
            r.num_symlinks == 0,
            r.num_special == 0,
            r.num_dirs == 0,
    {
        EntryCounter { num_files: 0, num_symlinks: 0, num_special: 0, num_dirs: 0 }
    }

    /// Number of regular files counted.
    pub fn get_file_cnt(&self) -> (r: u64)
        ensures
            r == self.num_files,
    {
        self.num_files
    }

    /// Number of symlinks counted.
    pub fn get_symlink_cnt(&self) -> (r: u64)
        ensures
            r == self.num_symlinks,
    {
        self.num_symlinks
    }

    /// Number of special files (sockets, devices, pipes) counted.
    pub fn get_special_cnt(&self) -> (r: u64)
        ensures
            r == self.num_special,
    {
        self.num_special
    }

    /// Number of directories counted.
    pub fn get_dir_cnt(&self) -> (r: u64)
        ensures
            r == self.num_dirs,
    {
        self.num_dirs
    }

    /// Number of entries of every kind counted.
    pub fn get_entry_cnt(&self) -> (r: u64)
        requires
            self.total() <= u64::MAX,
        ensures
            r == self.total(),
    {
        self.num_files + self.num_symlinks + self.num_special + self.num_dirs
    }

    /// Adds `n` to the file tally.
    pub fn inc_file_cnt(&mut self, n: u64)
        requires
            old(self).num_files + n <= u64::MAX,
        ensures
            *final(self) == (EntryCounter { num_files: (old(self).num_files + n) as u64, ..*old(self) }),
    {
        self.num_files = self.num_files + n;
    }

    /// Takes `n` back from the file tally.
    pub fn dec_file_cnt(&mut self, n: u64)
        requires
            old(self).num_files >= n,
        ensures
            *final(self) == (EntryCounter { num_files: (old(self).num_files - n) as u64, ..*old(self) }),
    {
        self.num_files = self.num_files - n;
    }

    /// Adds `n` to the symlink tally.
    pub fn inc_symlink_cnt(&mut self, n: u64)
        requires
            old(self).num_symlinks + n <= u64::MAX,
        ensures
            *final(self) == (EntryCounter { num_symlinks: (old(self).num_symlinks + n) as u64, ..*old(self) }),
    {
        self.num_symlinks = self.num_symlinks + n;
    }

    /// Takes `n` back from the symlink tally.
    pub fn dec_symlink_cnt(&mut self, n: u64)
        requires
            old(self).num_symlinks >= n,
        ensures
            *final(self) == (EntryCounter { num_symlinks: (old(self).num_symlinks - n) as u64, ..*old(self) }),
    {
        self.num_symlinks = self.num_symlinks - n;
    }

    /// Adds `n` to the special-file tally.
    pub fn inc_special_cnt(&mut self, n: u64)
        requires
            old(self).num_special + n <= u64::MAX,
        ensures
            *final(self) == (EntryCounter { num_special: (old(self).num_special + n) as u64, ..*old(self) }),
    {
        self.num_special = self.num_special + n;
    }

    /// Takes `n` back from the special-file tally.
    pub fn dec_special_cnt(&mut self, n: u64)
        requires
            old(self).num_special >= n,
        ensures
            *final(self) == (EntryCounter { num_special: (old(self).num_special - n) as u64, ..*old(self) }),
    {
        self.num_special = self.num_special - n;
    }

    /// Adds `n` to the directory tally.
    pub fn inc_dir_cnt(&mut self, n: u64)
        requires
            old(self).num_dirs + n <= u64::MAX,
        ensures
            *final(self) == (EntryCounter { num_dirs: (old(self).num_dirs + n) as u64, ..*old(self) }),
    {
        self.num_dirs = self.num_dirs + n;
    }

    /// Takes `n` back from the directory tally.
    pub fn dec_dir_cnt(&mut self, n: u64)
        requires
            old(self).num_dirs >= n,
        ensures
            *final(self) == (EntryCounter { num_dirs: (old(self).num_dirs - n) as u64, ..*old(self) }),
    {
        self.num_dirs = self.num_dirs - n;
    }

    /// The tallies of `self` and `other` added kind by kind.
    pub open spec fn plus(&self, other: EntryCounter) -> EntryCounter {
        EntryCounter {
            num_files: (self.num_files + other.num_files) as u64,
            num_symlinks: (self.num_symlinks + other.num_symlinks) as u64,
            num_special: (self.num_special + other.num_special) as u64,
            num_dirs: (self.num_dirs + other.num_dirs) as u64,
        }
    }

    /// Whether adding `other` to `self` keeps every tally within `u64`.
    pub open spec fn can_add(&self, other: EntryCounter) -> bool {
        &&& self.num_files + other.num_files <= u64::MAX
        &&& self.num_symlinks + other.num_symlinks <= u64::MAX
        &&& self.num_special + other.num_special <= u64::MAX
        &&& self.num_dirs + other.num_dirs <= u64::MAX
    }

    /// Adds every tally of `other` to the matching tally of `self`.
    pub fn merge(&mut self, other: &EntryCounter)
        requires
            old(self).can_add(*other),
        ensures
            *final(self) == old(self).plus(*other),
    {
        self.inc_symlink_cnt(other.get_symlink_cnt());
        self.inc_file_cnt(other.get_file_cnt());
        self.inc_dir_cnt(other.get_dir_cnt());
        self.inc_special_cnt(other.get_special_cnt());
    }
}

} // verus!
