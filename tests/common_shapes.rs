use fss::counter::EntryCounter;
use fss::text::{int_to_formatted_slice, permissions_text, right_align};
use fss::tree::{classify, EntryKind, SpecialKind, TypeFlags};

fn flags() -> TypeFlags {
    TypeFlags {
        symlink: false,
        socket: false,
        block_device: false,
        char_device: false,
        fifo: false,
        file: false,
        dir: false,
    }
}

#[test]
fn counter_starts_at_zero() {
    let c = EntryCounter::new();
    assert_eq!(c.get_file_cnt(), 0);
    assert_eq!(c.get_symlink_cnt(), 0);
    assert_eq!(c.get_special_cnt(), 0);
    assert_eq!(c.get_dir_cnt(), 0);
    assert_eq!(c.get_entry_cnt(), 0);
}

#[test]
fn counter_increments_and_rolls_back() {
    let mut c = EntryCounter::new();
    c.inc_file_cnt(3);
    c.inc_symlink_cnt(1);
    c.inc_special_cnt(2);
    c.inc_dir_cnt(4);
    assert_eq!(c.get_entry_cnt(), 10);
    c.dec_file_cnt(1);
    c.dec_symlink_cnt(1);
    c.dec_special_cnt(2);
    c.dec_dir_cnt(1);
    assert_eq!(c.get_file_cnt(), 2);
    assert_eq!(c.get_symlink_cnt(), 0);
    assert_eq!(c.get_special_cnt(), 0);
    assert_eq!(c.get_dir_cnt(), 3);
    assert_eq!(c.get_entry_cnt(), 5);
}

#[test]
fn counter_merges_kind_by_kind() {
    let mut a = EntryCounter::new();
    a.inc_file_cnt(1);
    let mut b = EntryCounter::new();
    b.inc_file_cnt(2);
    b.inc_dir_cnt(5);
    a.merge(&b);
    assert_eq!(a.get_file_cnt(), 3);
    assert_eq!(a.get_dir_cnt(), 5);
    assert_eq!(a.get_entry_cnt(), 8);
}

#[test]
fn symlink_takes_precedence_over_directory() {
    let f = TypeFlags { symlink: true, dir: true, ..flags() };
    assert_eq!(classify(&f), EntryKind::Symlink);
}

#[test]
fn special_kinds_come_before_regular_files() {
    assert_eq!(classify(&TypeFlags { socket: true, ..flags() }), EntryKind::Special(SpecialKind::Socket));
    assert_eq!(
        classify(&TypeFlags { block_device: true, file: true, ..flags() }),
        EntryKind::Special(SpecialKind::BlockDevice)
    );
    assert_eq!(classify(&TypeFlags { char_device: true, ..flags() }), EntryKind::Special(SpecialKind::CharDevice));
    assert_eq!(classify(&TypeFlags { fifo: true, ..flags() }), EntryKind::Special(SpecialKind::Fifo));
}

#[test]
fn files_directories_and_the_rest() {
    assert_eq!(classify(&TypeFlags { file: true, ..flags() }), EntryKind::RegularFile);
    assert_eq!(classify(&TypeFlags { dir: true, ..flags() }), EntryKind::Directory);
    assert_eq!(classify(&flags()), EntryKind::Special(SpecialKind::NotApplicable));
}

#[test]
fn thousands_separators() {
    assert_eq!(int_to_formatted_slice(0), "0");
    assert_eq!(int_to_formatted_slice(7), "7");
    assert_eq!(int_to_formatted_slice(999), "999");
    assert_eq!(int_to_formatted_slice(1000), "1,000");
    assert_eq!(int_to_formatted_slice(1005), "1,005");
    assert_eq!(int_to_formatted_slice(1234567), "1,234,567");
    assert_eq!(int_to_formatted_slice(u64::MAX), "18,446,744,073,709,551,615");
}

#[test]
fn right_alignment_pads_to_width() {
    assert_eq!(right_align("abc", 6), "   abc");
    assert_eq!(right_align("abcdefg", 6), "abcdefg");
    assert_eq!(right_align("", 3), "   ");
}

#[test]
fn permission_triplets() {
    assert_eq!(permissions_text(0o755), "rwxr-xr-x");
    assert_eq!(permissions_text(0o100644), "rw-r--r--");
    assert_eq!(permissions_text(0), "---------");
}
